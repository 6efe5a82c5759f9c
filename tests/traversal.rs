use delete_organization::config::{EdgeList, TypeConfig};
use delete_organization::frontier::Frontier;
use delete_organization::json::Json;
use delete_organization::traversal::{render_plan, MalformedReply, Reply, Traversal};
use delete_organization::walk::NeighbourWalk;

fn text(s: &str) -> Json {
    Json::Text(s.to_string())
}

fn object(members: Vec<(&str, Json)>) -> Json {
    Json::Object(members.into_iter().map(|(k, v)| (k.to_string(), v)).collect())
}

fn answer(var: &str, iris: &[&str]) -> Reply {
    let rows = iris
        .iter()
        .map(|iri| object(vec![(var, object(vec![("type", text("uri")), ("value", text(iri))]))]))
        .collect();
    Reply::Answered(object(vec![("results", object(vec![("bindings", Json::Array(rows))]))]))
}

fn edges(reverse: &[&str], forward: &[&str]) -> EdgeList {
    EdgeList {
        reverse: reverse.iter().map(|s| s.to_string()).collect(),
        forward: forward.iter().map(|s| s.to_string()).collect(),
    }
}

fn snippet_of(iris: &[&str]) -> String {
    let mut s = String::from("DELETE {\n  GRAPH ?g {\n    ?s ?p ?o .\n  }\n}\nWHERE {\n  VALUES ?s {\n");
    for iri in iris {
        s.push_str(&format!("    <{}>\n", iri));
    }
    s.push_str("  }\n\n  GRAPH ?g {\n    ?s ?p ?o .\n  }\n}\n");
    s
}

#[test]
fn one_forward_edge_sends_one_query() {
    let mut config = TypeConfig::new();
    config.insert("<A>".to_string(), edges(&[], &["<B>"]));
    config.insert("<B>".to_string(), edges(&[], &[]));
    let mut t = Traversal::new(config, "<http://ex/a1>", "<A>");
    let mut sent = Vec::new();
    while let Some(q) = t.next_query() {
        sent.push(q);
        t.record(&answer("o", &["http://ex/b1"])).unwrap();
    }
    assert_eq!(sent.len(), 1);
    assert!(sent[0].contains("SELECT DISTINCT ?o"));
    assert!(sent[0].contains("<http://ex/a1>"));
    assert!(sent[0].contains("?o a <B> ."));
    assert_eq!(t.in_scope("<B>").unwrap(), &vec!["<http://ex/b1>".to_string()]);
    assert_eq!(t.plan().len(), 1);
}

#[test]
fn entry_absent_from_frontier_sends_no_query() {
    let mut config = TypeConfig::new();
    config.insert("<C>".to_string(), edges(&["<D>"], &["<E>"]));
    config.insert("<A>".to_string(), edges(&["<F>"], &[]));
    let mut t = Traversal::new(config, "<http://ex/a1>", "<A>");
    let mut sent = Vec::new();
    while let Some(q) = t.next_query() {
        sent.push(q);
        t.record(&Reply::Failed).unwrap();
    }
    assert_eq!(sent.len(), 1);
    assert!(sent[0].contains("?s a <F> ;"));
    assert!(t.plan().is_empty());
    assert!(t.in_scope("<F>").is_none());
}

#[test]
fn end_to_end_backward_match() {
    let mut config = TypeConfig::new();
    config.insert("<http://ex/Org>".to_string(), edges(&["<http://ex/Membership>"], &[]));
    let mut t = Traversal::new(config, "<http://ex/org1>", "<http://ex/Org>");
    let q = t.next_query().unwrap();
    assert_eq!(
        q,
        "\n    SELECT DISTINCT ?s WHERE {\n      VALUES ?values {\n        <http://ex/org1>\n      }\n\n      ?s a <http://ex/Membership> ;\n        ?p ?values .\n    }\n  "
    );
    t.record(&answer("s", &["http://ex/mem1"])).unwrap();
    assert!(t.next_query().is_none());
    assert_eq!(t.plan(), &vec![snippet_of(&["http://ex/mem1"])]);
    assert_eq!(
        t.in_scope("<http://ex/Membership>").unwrap(),
        &vec!["<http://ex/mem1>".to_string()]
    );
    assert_eq!(t.plan_text(), format!("{}\n;\n\n", snippet_of(&["http://ex/mem1"])));
}

#[test]
fn discovered_types_feed_later_entries_in_config_order() {
    let mut config = TypeConfig::new();
    config.insert("<Org>".to_string(), edges(&["<Mem>"], &["<Site>"]));
    config.insert("<Mem>".to_string(), edges(&[], &["<Person>"]));
    let mut t = Traversal::new(config, "<org1>", "<Org>");

    let q1 = t.next_query().unwrap();
    assert!(q1.contains("?s a <Mem> ;"));
    t.record(&answer("s", &["m1", "m2"])).unwrap();

    let q2 = t.next_query().unwrap();
    assert!(q2.contains("?o a <Site> ."));
    t.record(&answer("o", &[])).unwrap();

    let q3 = t.next_query().unwrap();
    assert!(q3.contains("        <m1>\n<m2>\n"));
    assert!(q3.contains("?o a <Person> ."));
    t.record(&answer("o", &["p1"])).unwrap();

    assert!(t.next_query().is_none());
    assert_eq!(t.plan(), &vec![snippet_of(&["m1", "m2"]), snippet_of(&["p1"])]);
    assert_eq!(t.in_scope("<Person>").unwrap(), &vec!["<p1>".to_string()]);
    assert!(t.in_scope("<Site>").is_none());
}

#[test]
fn rediscovered_type_is_overwritten() {
    let mut config = TypeConfig::new();
    config.insert("<A>".to_string(), edges(&["<B>"], &["<B>"]));
    let mut t = Traversal::new(config, "<a>", "<A>");
    t.next_query().unwrap();
    t.record(&answer("s", &["b1"])).unwrap();
    t.next_query().unwrap();
    t.record(&answer("o", &["b2", "b3"])).unwrap();
    assert!(t.next_query().is_none());
    assert_eq!(t.in_scope("<B>").unwrap(), &vec!["<b2>".to_string(), "<b3>".to_string()]);
    assert_eq!(t.plan().len(), 2);
}

#[test]
fn failed_reply_counts_as_no_hits_and_the_pass_goes_on() {
    let mut config = TypeConfig::new();
    config.insert("<A>".to_string(), edges(&["<B>", "<C>"], &[]));
    let mut t = Traversal::new(config, "<a>", "<A>");
    t.next_query().unwrap();
    t.record(&Reply::Failed).unwrap();
    let q = t.next_query().unwrap();
    assert!(q.contains("?s a <C> ;"));
    t.record(&answer("s", &["c1"])).unwrap();
    assert!(t.next_query().is_none());
    assert_eq!(t.plan(), &vec![snippet_of(&["c1"])]);
}

#[test]
fn null_reply_counts_as_no_hits() {
    let mut config = TypeConfig::new();
    config.insert("<A>".to_string(), edges(&["<B>"], &[]));
    let mut t = Traversal::new(config, "<a>", "<A>");
    t.next_query().unwrap();
    t.record(&Reply::Answered(Json::Null)).unwrap();
    assert!(t.next_query().is_none());
    assert!(t.plan().is_empty());
}

#[test]
fn iri_row_without_text_is_refused() {
    let mut config = TypeConfig::new();
    config.insert("<A>".to_string(), edges(&["<B>"], &[]));
    let mut t = Traversal::new(config, "<a>", "<A>");
    let q = t.next_query().unwrap();
    let row = object(vec![("s", object(vec![("type", text("uri"))]))]);
    let reply = Reply::Answered(object(vec![("results", object(vec![("bindings", Json::Array(vec![row]))]))]));
    assert_eq!(t.record(&reply), Err(MalformedReply::IriWithoutValue));
    assert!(t.plan().is_empty());
    assert_eq!(t.next_query().unwrap(), q);
}

#[test]
fn empty_config_sends_nothing() {
    let mut t = Traversal::new(TypeConfig::new(), "<a>", "<A>");
    assert!(t.next_query().is_none());
    assert!(t.plan().is_empty());
    assert_eq!(t.plan_text(), "");
}

#[test]
fn render_plan_separates_statements() {
    let plan = vec!["A".to_string(), "B".to_string()];
    assert_eq!(render_plan(&plan), "A\n;\n\nB\n;\n\n");
}

#[test]
fn frontier_set_replaces_and_get_reads_back() {
    let mut f = Frontier::new("<A>", "<a>");
    assert_eq!(f.get("<A>").unwrap(), &vec!["<a>".to_string()]);
    assert!(f.get("<B>").is_none());
    f.set("<B>".to_string(), vec!["<b1>".to_string()]);
    f.set("<A>".to_string(), vec!["<a2>".to_string(), "<a2>".to_string()]);
    assert_eq!(f.get("<A>").unwrap(), &vec!["<a2>".to_string(), "<a2>".to_string()]);
    assert_eq!(f.get("<B>").unwrap(), &vec!["<b1>".to_string()]);
}

#[test]
fn reverse_walk_runs_until_a_round_is_empty() {
    let mut w = NeighbourWalk::new("<http://ex/a>", false);
    let q1 = w.next_query().unwrap().clone();
    assert!(q1.contains("?s ?p ?values ."));
    assert!(q1.contains("<http://ex/a>"));
    w.record(&answer("s", &["http://ex/b", "http://ex/c"])).unwrap();
    let q2 = w.next_query().unwrap().clone();
    assert!(q2.contains("            <http://ex/b>\n<http://ex/c>\n"));
    w.record(&answer("s", &[])).unwrap();
    assert!(w.next_query().is_none());
    assert_eq!(w.plan(), &vec![snippet_of(&["http://ex/b", "http://ex/c"])]);
}

#[test]
fn forward_walk_follows_objects() {
    let mut w = NeighbourWalk::new("<http://ex/a>", true);
    let q1 = w.next_query().unwrap().clone();
    assert!(q1.contains("?values ?p ?o ."));
    w.record(&answer("o", &["http://ex/b"])).unwrap();
    let q2 = w.next_query().unwrap().clone();
    assert!(q2.contains("<http://ex/b>"));
    w.record(&Reply::Failed).unwrap();
    assert!(w.next_query().is_none());
    assert_eq!(w.plan(), &vec![snippet_of(&["http://ex/b"])]);
}
