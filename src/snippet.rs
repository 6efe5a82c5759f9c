//! The statement that deletes a set of discovered entities.

use vstd::prelude::*;
use crate::json::Json;
use crate::results::{all_have_iri, bracketed, bracketed_iri, iri_of, iris_of, rows_at};

verus! {

/// The line of a `VALUES` block that holds one IRI.
pub open spec fn values_line(iri: Seq<char>) -> Seq<char> {
    "    "@ + bracketed(iri) + "\n"@
}

/// One line of a `VALUES` block per IRI, each between angle brackets, in order.
pub open spec fn values_lines(iris: Seq<Seq<char>>) -> Seq<char>
    decreases iris.len(),
{
    if iris.len() == 0 {
        Seq::empty()
    } else {
        values_lines(iris.drop_last()) + values_line(iris.last())
    }
}

/// The `VALUES` block is the lines of the IRIs, one per IRI, in their
/// order, and nothing else.
pub proof fn one_values_line_per_iri(iris: Seq<Seq<char>>)
    ensures
        values_lines(iris) == iris.map_values(|iri: Seq<char>| values_line(iri)).flatten(),
    decreases iris.len(),
{
    if iris.len() > 0 {
        let lines = iris.map_values(|iri: Seq<char>| values_line(iri));
        one_values_line_per_iri(iris.drop_last());
        assert(iris.drop_last().map_values(|iri: Seq<char>| values_line(iri)) =~= lines.drop_last());
        assert(lines.drop_last().push(lines.last()) =~= lines);
        lines.drop_last().lemma_flatten_push(lines.last());
    } else {
        assert(iris.map_values(|iri: Seq<char>| values_line(iri)) =~= Seq::<Seq<char>>::empty());
    }
}

/// Deletes every triple whose subject is one of `iris`, in whatever graph.
pub open spec fn delete_snippet_text(iris: Seq<Seq<char>>) -> Seq<char> {
    "DELETE {\n  GRAPH ?g {\n    ?s ?p ?o .\n  }\n}\nWHERE {\n  VALUES ?s {\n"@ + values_lines(iris)
        + "  }\n\n  GRAPH ?g {\n    ?s ?p ?o .\n  }\n}\n"@
}

/// Two builds from rows that carry the same IRIs, in particular from the
/// same rows, give the same text, character for character.
pub proof fn snippet_is_deterministic(a: Seq<Json>, b: Seq<Json>, var: Seq<char>)
    requires
        all_have_iri(a, var),
        all_have_iri(b, var),
        iris_of(a, var) == iris_of(b, var),
    ensures
        delete_snippet_text(iris_of(a, var)) == delete_snippet_text(iris_of(b, var)),
{
}

/// The statement that deletes, as subjects, the entities that `results`
/// bind to `target`.
pub fn build_delete_snippet(results: &Vec<&Json>, target: &str) -> (r: String)
    requires
        all_have_iri(rows_at(results@), target@),
    ensures
        r@ == delete_snippet_text(iris_of(rows_at(results@), target@)),
{
    let ghost iris = iris_of(rows_at(results@), target@);
    let mut s = String::from_str(
        "DELETE {\n  GRAPH ?g {\n    ?s ?p ?o .\n  }\n}\nWHERE {\n  VALUES ?s {\n",
    );
    let ghost head = s@;
    let mut i: usize = 0;
    while i < results.len()
        invariant
            i <= results@.len(),
            iris == iris_of(rows_at(results@), target@),
            all_have_iri(rows_at(results@), target@),
            s@ == head + values_lines(iris.subrange(0, i as int)),
        decreases results@.len() - i,
    {
        assert(iris.subrange(0, i as int + 1).drop_last() =~= iris.subrange(0, i as int));
        assert(iri_of(rows_at(results@)[i as int], target@) is Some);
        match bracketed_iri(results[i], target) {
            Some(line) => {
                s.append("    ");
                s.append(line.as_str());
                s.append("\n");
            },
            None => {},
        }
        assert(s@ =~= head + values_lines(iris.subrange(0, i as int + 1)));
        i = i + 1;
    }
    assert(iris.subrange(0, i as int) =~= iris);
    s.append("  }\n\n  GRAPH ?g {\n    ?s ?p ?o .\n  }\n}\n");
    s
}

} // verus!
