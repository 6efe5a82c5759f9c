use delete_organization::query::{
    create_backward_parametrized_select_query_with_type,
    create_forward_parametrized_query, create_forward_parametrized_select_query_with_type,
    create_reverse_parametrized_query, create_simple_forward_parametrized_delete_query,
    join_lines,
};

#[test]
fn simple_delete_binds_the_entity_as_subject() {
    let q = create_simple_forward_parametrized_delete_query("<http://ex/org1>");
    assert_eq!(
        q,
        "DELETE {\n  GRAPH ?g {\n    ?s ?p ?o .\n  }\n}\nWHERE {\n  BIND(<http://ex/org1> AS ?s)\n\n  GRAPH ?g {\n    ?s ?p ?o .\n  }\n}"
    );
}

#[test]
fn forward_typed_query_selects_objects_of_the_type() {
    let q = create_forward_parametrized_select_query_with_type("<http://ex/a>", "<http://ex/B>");
    assert_eq!(
        q,
        "\n    SELECT DISTINCT ?o WHERE {\n      VALUES ?values {\n        <http://ex/a>\n      }\n\n      ?values ?p ?o .\n      ?o a <http://ex/B> .\n    }\n  "
    );
}

#[test]
fn backward_typed_query_selects_subjects_of_the_type() {
    let q = create_backward_parametrized_select_query_with_type("<http://ex/a>", "<http://ex/B>");
    assert_eq!(
        q,
        "\n    SELECT DISTINCT ?s WHERE {\n      VALUES ?values {\n        <http://ex/a>\n      }\n\n      ?s a <http://ex/B> ;\n        ?p ?values .\n    }\n  "
    );
}

#[test]
fn untyped_forward_query_selects_all_objects() {
    let q = create_forward_parametrized_query("<http://ex/a>");
    assert_eq!(
        q,
        "\n      SELECT DISTINCT ?o WHERE {\n        VALUES ?values {\n          <http://ex/a>\n        }\n\n        ?values ?p ?o .\n      }\n    "
    );
}

#[test]
fn untyped_reverse_query_selects_all_subjects() {
    let q = create_reverse_parametrized_query("<http://ex/a>");
    assert_eq!(
        q,
        "\n        SELECT DISTINCT ?s WHERE {\n          VALUES ?values {\n            <http://ex/a>\n          }\n\n          ?s ?p ?values .\n        }\n    "
    );
}

#[test]
fn builders_substitute_text_without_escaping() {
    let q = create_reverse_parametrized_query("<a>\n<b>");
    assert!(q.contains("            <a>\n<b>\n"));
}

#[test]
fn join_lines_separates_with_line_breaks() {
    let items = vec!["<a>".to_string(), "<b>".to_string(), "<c>".to_string()];
    assert_eq!(join_lines(&items), "<a>\n<b>\n<c>");
    assert_eq!(join_lines(&vec!["<a>".to_string()]), "<a>");
    assert_eq!(join_lines(&Vec::new()), "");
}
