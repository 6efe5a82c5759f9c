//! Reading IRI bindings out of a SPARQL JSON result.

use vstd::prelude::*;
use crate::json::{Json, field, text_of, same_text};

verus! {

/// The rows under `results.bindings`, or none when that path is missing or
/// is not an array.
pub open spec fn result_rows(result: Json) -> Seq<Json> {
    match field(result, "results"@) {
        Some(results) => match field(results, "bindings"@) {
            Some(Json::Array(rows)) => rows@,
            _ => Seq::empty(),
        },
        None => Seq::empty(),
    }
}

/// The row binds `var` to a term whose `type` is the text `uri`.
pub open spec fn is_uri_binding(row: Json, var: Seq<char>) -> bool {
    match field(row, var) {
        Some(term) => text_of(field(term, "type"@)) == Some("uri"@),
        None => false,
    }
}

/// The rows that bind `var` to an IRI, in their order.
pub open spec fn uri_rows(rows: Seq<Json>, var: Seq<char>) -> Seq<Json>
    decreases rows.len(),
{
    if rows.len() == 0 {
        rows
    } else {
        let rest = uri_rows(rows.drop_last(), var);
        if is_uri_binding(rows.last(), var) {
            rest.push(rows.last())
        } else {
            rest
        }
    }
}

/// A result without `results`, without `results.bindings`, or whose
/// `bindings` is not an array or is an empty one, has no IRI rows.
pub proof fn no_rows_without_bindings(result: Json, var: Seq<char>)
    requires
        field(result, "results"@) is None || !(field(
            field(result, "results"@).unwrap(),
            "bindings"@,
        ) matches Some(Json::Array(a)) && a@.len() > 0),
    ensures
        uri_rows(result_rows(result), var) == Seq::<Json>::empty(),
{
}

/// Every row kept binds `var` to an IRI, and every row that does is kept:
/// a row whose term has another type, a literal for one, is dropped.
pub proof fn kept_rows_are_iri_rows(rows: Seq<Json>, var: Seq<char>)
    ensures
        forall|i: int|
            0 <= i < uri_rows(rows, var).len() ==> is_uri_binding(
                #[trigger] uri_rows(rows, var)[i],
                var,
            ),
        forall|i: int|
            0 <= i < rows.len() && is_uri_binding(#[trigger] rows[i], var) ==> uri_rows(
                rows,
                var,
            ).contains(rows[i]),
        forall|i: int|
            0 <= i < rows.len() && !is_uri_binding(#[trigger] rows[i], var) ==> !uri_rows(
                rows,
                var,
            ).contains(rows[i]),
    decreases rows.len(),
{
    if rows.len() > 0 {
        let rest = rows.drop_last();
        kept_rows_are_iri_rows(rest, var);
        assert forall|i: int| 0 <= i < rows.len() && is_uri_binding(#[trigger] rows[i], var)
            implies uri_rows(rows, var).contains(rows[i]) by {
            if i < rows.len() - 1 {
                assert(rest[i] == rows[i]);
                let j = choose|j: int| 0 <= j < uri_rows(rest, var).len() && uri_rows(rest, var)[j] == rest[i];
                assert(uri_rows(rows, var)[j] == rows[i]);
            } else {
                assert(uri_rows(rows, var).last() == rows[i]);
            }
        }
        assert forall|i: int| 0 <= i < rows.len() && !is_uri_binding(#[trigger] rows[i], var)
            implies !uri_rows(rows, var).contains(rows[i]) by {
            if uri_rows(rows, var).contains(rows[i]) {
                let j = choose|j: int| 0 <= j < uri_rows(rows, var).len() && uri_rows(rows, var)[j] == rows[i];
                assert(is_uri_binding(uri_rows(rows, var)[j], var));
            }
        }
    }
}

/// The text under `row[var].value`, if it is a string.
pub open spec fn iri_of(row: Json, var: Seq<char>) -> Option<Seq<char>> {
    match field(row, var) {
        Some(term) => text_of(field(term, "value"@)),
        None => None,
    }
}

/// Every row carries a string value for `var`.
pub open spec fn all_have_iri(rows: Seq<Json>, var: Seq<char>) -> bool {
    forall|i: int| 0 <= i < rows.len() ==> (#[trigger] iri_of(rows[i], var)) is Some
}

/// The values of `var` across `rows`, in order.
pub open spec fn iris_of(rows: Seq<Json>, var: Seq<char>) -> Seq<Seq<char>> {
    Seq::new(rows.len(), |i: int| iri_of(rows[i], var).unwrap())
}

/// An IRI written between angle brackets.
pub open spec fn bracketed(iri: Seq<char>) -> Seq<char> {
    "<"@ + iri + ">"@
}

/// The rows that a sequence of references points to.
pub open spec fn rows_at(refs: Seq<&Json>) -> Seq<Json> {
    refs.map_values(|r: &Json| *r)
}

/// Does `row` bind `var` to an IRI?
pub fn binds_uri(row: &Json, var: &str) -> (r: bool)
    ensures
        r == is_uri_binding(*row, var@),
{
    match row.get(var) {
        Some(term) => match term.get("type") {
            Some(t) => match t.as_text() {
                Some(s) => same_text(s.as_str(), "uri"),
                None => false,
            },
            None => false,
        },
        None => false,
    }
}

/// The rows of `value` whose `target` variable is bound to an IRI, each kept
/// whole and in the order of the result.
pub fn parse_json_uris<'a>(value: &'a Json, target: &str) -> (r: Vec<&'a Json>)
    ensures
        rows_at(r@) == uri_rows(result_rows(*value), target@),
{
    let mut v: Vec<&'a Json> = Vec::new();
    let results = match value.get("results") {
        Some(results) => results,
        None => return v,
    };
    let rows = match results.get("bindings") {
        Some(Json::Array(rows)) => rows,
        _ => return v,
    };
    let mut i: usize = 0;
    while i < rows.len()
        invariant
            i <= rows@.len(),
            rows@ == result_rows(*value),
            rows_at(v@) =~= uri_rows(rows@.subrange(0, i as int), target@),
        decreases rows@.len() - i,
    {
        assert(rows@.subrange(0, i as int + 1).drop_last() =~= rows@.subrange(0, i as int));
        if binds_uri(&rows[i], target) {
            v.push(&rows[i]);
        }
        i = i + 1;
    }
    assert(rows@.subrange(0, rows@.len() as int) =~= rows@);
    v
}

/// The value of `var` in `row`, between angle brackets.
pub fn bracketed_iri(row: &Json, var: &str) -> (r: Option<String>)
    ensures
        match r {
            Some(s) => iri_of(*row, var@) is Some && s@ == bracketed(iri_of(*row, var@).unwrap()),
            None => iri_of(*row, var@) is None,
        },
{
    let term = match row.get(var) {
        Some(term) => term,
        None => return None,
    };
    let value = match term.get("value") {
        Some(value) => value,
        None => return None,
    };
    match value.as_text() {
        Some(iri) => {
            let mut s = String::from_str("<");
            s.append(iri.as_str());
            s.append(">");
            Some(s)
        },
        None => None,
    }
}

/// The bracketed values of `var` across `rows`, or `None` when a row has
/// no string value for it.
pub fn bracketed_iris(rows: &Vec<&Json>, var: &str) -> (r: Option<Vec<String>>)
    ensures
        match r {
            Some(out) => all_have_iri(rows_at(rows@), var@) && out@.len() == rows@.len() && (forall|i: int|
                0 <= i < rows@.len() ==> (#[trigger] out@[i])@ == bracketed(
                    iris_of(rows_at(rows@), var@)[i],
                )),
            None => !all_have_iri(rows_at(rows@), var@),
        },
{
    let mut out: Vec<String> = Vec::new();
    let mut i: usize = 0;
    while i < rows.len()
        invariant
            i <= rows@.len(),
            out@.len() == i,
            forall|j: int| 0 <= j < i ==> (#[trigger] iri_of(rows_at(rows@)[j], var@)) is Some,
            forall|j: int|
                0 <= j < i ==> (#[trigger] out@[j])@ == bracketed(iris_of(rows_at(rows@), var@)[j]),
        decreases rows@.len() - i,
    {
        match bracketed_iri(rows[i], var) {
            Some(s) => out.push(s),
            None => {
                assert(iri_of(rows_at(rows@)[i as int], var@) is None);
                return None;
            },
        }
        i = i + 1;
    }
    Some(out)
}

} // verus!
