//! The SPARQL text that the traversal sends and emits.

use vstd::prelude::*;

verus! {

/// The lines of `items`, joined by line breaks.
pub open spec fn joined_lines(items: Seq<Seq<char>>) -> Seq<char>
    decreases items.len(),
{
    if items.len() == 0 {
        Seq::empty()
    } else if items.len() == 1 {
        items[0]
    } else {
        joined_lines(items.drop_last()) + "\n"@ + items.last()
    }
}

/// Deletes every triple of the entity `iri`, in whatever graph it stands.
pub open spec fn simple_delete_text(iri: Seq<char>) -> Seq<char> {
    "DELETE {\n  GRAPH ?g {\n    ?s ?p ?o .\n  }\n}\nWHERE {\n  BIND("@ + iri
        + " AS ?s)\n\n  GRAPH ?g {\n    ?s ?p ?o .\n  }\n}"@
}

/// Selects the objects of type `ty` that the entities `iris` point to.
pub open spec fn forward_typed_text(iris: Seq<char>, ty: Seq<char>) -> Seq<char> {
    "\n    SELECT DISTINCT ?o WHERE {\n      VALUES ?values {\n        "@ + iris
        + "\n      }\n\n      ?values ?p ?o .\n      ?o a "@ + ty + " .\n    }\n  "@
}

/// Selects the subjects of type `ty` that point to the entities `iris`.
pub open spec fn backward_typed_text(iris: Seq<char>, ty: Seq<char>) -> Seq<char> {
    "\n    SELECT DISTINCT ?s WHERE {\n      VALUES ?values {\n        "@ + iris
        + "\n      }\n\n      ?s a "@ + ty + " ;\n        ?p ?values .\n    }\n  "@
}

/// Selects every object that the entities `iris` point to.
pub open spec fn forward_text(iris: Seq<char>) -> Seq<char> {
    "\n      SELECT DISTINCT ?o WHERE {\n        VALUES ?values {\n          "@ + iris
        + "\n        }\n\n        ?values ?p ?o .\n      }\n    "@
}

/// Selects every subject that points to the entities `iris`.
pub open spec fn reverse_text(iris: Seq<char>) -> Seq<char> {
    "\n        SELECT DISTINCT ?s WHERE {\n          VALUES ?values {\n            "@ + iris
        + "\n          }\n\n          ?s ?p ?values .\n        }\n    "@
}

/// Joins `items` with line breaks, as the `VALUES` block of a query wants them.
pub fn join_lines(items: &Vec<String>) -> (r: String)
    ensures
        r@ == joined_lines(items.deep_view()),
{
    let mut s = String::new();
    let mut i: usize = 0;
    while i < items.len()
        invariant
            i <= items@.len(),
            s@ == joined_lines(items.deep_view().subrange(0, i as int)),
        decreases items@.len() - i,
    {
        assert(items.deep_view().subrange(0, i as int + 1).drop_last()
            =~= items.deep_view().subrange(0, i as int));
        if i > 0 {
            s.append("\n");
        }
        s.append(items[i].as_str());
        i = i + 1;
    }
    assert(items.deep_view().subrange(0, i as int) =~= items.deep_view());
    s
}

/// The statement that deletes all triples whose subject is `uri`.
pub fn create_simple_forward_parametrized_delete_query(uri: &str) -> (r: String)
    ensures
        r@ == simple_delete_text(uri@),
{
    let mut s = String::from_str("DELETE {\n  GRAPH ?g {\n    ?s ?p ?o .\n  }\n}\nWHERE {\n  BIND(");
    s.append(uri);
    s.append(" AS ?s)\n\n  GRAPH ?g {\n    ?s ?p ?o .\n  }\n}");
    s
}

/// The query for the objects of type `uri_type` that the entities `uri` point to.
pub fn create_forward_parametrized_select_query_with_type(uri: &str, uri_type: &str) -> (r: String)
    ensures
        r@ == forward_typed_text(uri@, uri_type@),
{
    let mut s = String::from_str("\n    SELECT DISTINCT ?o WHERE {\n      VALUES ?values {\n        ");
    s.append(uri);
    s.append("\n      }\n\n      ?values ?p ?o .\n      ?o a ");
    s.append(uri_type);
    s.append(" .\n    }\n  ");
    s
}

/// The query for the subjects of type `uri_type` that point to the entities `uri`.
pub fn create_backward_parametrized_select_query_with_type(uri: &str, uri_type: &str) -> (r: String)
    ensures
        r@ == backward_typed_text(uri@, uri_type@),
{
    let mut s = String::from_str("\n    SELECT DISTINCT ?s WHERE {\n      VALUES ?values {\n        ");
    s.append(uri);
    s.append("\n      }\n\n      ?s a ");
    s.append(uri_type);
    s.append(" ;\n        ?p ?values .\n    }\n  ");
    s
}

/// The query for every object that the entities `uri` point to.
pub fn create_forward_parametrized_query(uri: &str) -> (r: String)
    ensures
        r@ == forward_text(uri@),
{
    let mut s = String::from_str("\n      SELECT DISTINCT ?o WHERE {\n        VALUES ?values {\n          ");
    s.append(uri);
    s.append("\n        }\n\n        ?values ?p ?o .\n      }\n    ");
    s
}

/// The query for every subject that points to the entities `uri`.
pub fn create_reverse_parametrized_query(uri: &str) -> (r: String)
    ensures
        r@ == reverse_text(uri@),
{
    let mut s = String::from_str("\n        SELECT DISTINCT ?s WHERE {\n          VALUES ?values {\n            ");
    s.append(uri);
    s.append("\n          }\n\n          ?s ?p ?values .\n        }\n    ");
    s
}

} // verus!
