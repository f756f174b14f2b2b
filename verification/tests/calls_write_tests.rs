use am_workspace::calls_write::CallsWriter;
use am_workspace::codegraph::calls_sql;
use am_workspace::file_index::{IndexAction, IndexEvent};
use am_workspace::graph::merge_names;
use am_workspace::ladybug::{entity_graph_from_rows, keyword_entity_names};

fn pair(a: &str, b: &str) -> (String, String) {
    (a.to_string(), b.to_string())
}

fn probe_of(a: &IndexAction) -> String {
    match a {
        IndexAction::Probe(s) => s.clone(),
        other => panic!("expected a probe, got {:?}", other),
    }
}

#[test]
fn calls_are_created_only_when_missing() {
    let pairs = vec![pair("f:a", "f:b"), pair("f:c", "f:c"), pair("f:b", "f:a"), pair("f:d", "f:e")];
    let (mut w, first) = CallsWriter::start(pairs);
    let (p1, c1) = calls_sql("f:a", "f:b").unwrap();
    assert_eq!(probe_of(&first), p1);
    match w.step(IndexEvent::Probed(false)) {
        IndexAction::Run(s) => assert_eq!(s, c1),
        other => panic!("expected the creation, got {:?}", other),
    }
    // The self-call f:c -> f:c is passed over.
    let (p2, _) = calls_sql("f:b", "f:a").unwrap();
    assert_eq!(probe_of(&w.step(IndexEvent::Done)), p2);
    // The edge exists already: nothing is written.
    let (p3, _) = calls_sql("f:d", "f:e").unwrap();
    assert_eq!(probe_of(&w.step(IndexEvent::Probed(true))), p3);
    // A failed probe counts as an error and the run goes on to the end.
    assert!(matches!(w.step(IndexEvent::Failed("boom".to_string())), IndexAction::Finished));
    assert_eq!(w.counts(), (1, 1));
    assert!(matches!(w.step(IndexEvent::Done), IndexAction::Finished));
}

#[test]
fn no_pairs_finish_at_once() {
    let (_, first) = CallsWriter::start(vec![pair("x", "x")]);
    assert!(matches!(first, IndexAction::Finished));
}

#[test]
fn keyword_searches_merge_names_once() {
    let results = vec![
        Ok(vec!["alpha".to_string(), "beta".to_string()]),
        Err("search failed".to_string()),
        Ok(vec!["beta".to_string(), "gamma".to_string()]),
    ];
    assert_eq!(keyword_entity_names(&results), vec!["alpha", "beta", "gamma"]);
    let mut names = Vec::new();
    merge_names(&mut names, &vec!["alpha".to_string()]);
    assert_eq!(names, vec!["alpha"]);
}

#[test]
fn entity_graph_from_relation_rows() {
    let names = vec!["alpha".to_string(), "beta".to_string()];
    let rows = vec![("alpha".to_string(), "beta".to_string(), "USES".to_string())];
    let (nodes, edges) = entity_graph_from_rows(&names, &rows);
    assert_eq!(nodes.len(), 2);
    assert_eq!(nodes[0].node_id, "ladybug-entity:alpha");
    assert_eq!(edges.len(), 1);
    assert_eq!(edges[0].from_node_id, "ladybug-entity:alpha");
    assert_eq!(edges[0].to_node_id, "ladybug-entity:beta");
    assert_eq!(edges[0].relation_type, "USES");
}

#[test]
fn repeated_pair_is_written_once() {
    let (mut w, first) = CallsWriter::start(vec![pair("f:a", "f:b"), pair("f:a", "f:b")]);
    let (probe, create) = calls_sql("f:a", "f:b").unwrap();
    assert_eq!(probe_of(&first), probe);
    assert!(matches!(w.step(IndexEvent::Probed(false)), IndexAction::Run(ref s) if *s == create));
    // The database now holds the edge, so the second probe finds it.
    assert_eq!(probe_of(&w.step(IndexEvent::Done)), probe);
    assert!(matches!(w.step(IndexEvent::Probed(true)), IndexAction::Finished));
    assert_eq!(w.counts(), (1, 0));
}

/// Runs a writer over `pairs` against a database holding the edges `db`, answering each
/// request truthfully; gives the counts at the end.
fn run_against(pairs: &[(String, String)], db: &mut Vec<(String, String)>) -> (usize, usize) {
    let (mut w, mut action) = CallsWriter::start(pairs.to_vec());
    loop {
        let event = match &action {
            IndexAction::Finished => break,
            IndexAction::Probe(s) => {
                let p = pairs.iter().find(|(a, b)| calls_sql(a, b).map_or(false, |q| q.0 == *s)).unwrap();
                IndexEvent::Probed(db.contains(p))
            },
            IndexAction::Run(s) => {
                let p = pairs.iter().find(|(a, b)| calls_sql(a, b).map_or(false, |q| q.1 == *s)).unwrap();
                assert!(!db.contains(p), "an edge is never created twice");
                db.push(p.clone());
                IndexEvent::Done
            },
            other => panic!("unexpected request {:?}", other),
        };
        action = w.step(event);
    }
    w.counts()
}

#[test]
fn a_run_leaves_every_calls_edge_once_and_a_second_run_adds_nothing() {
    let pairs = vec![
        pair("f:a", "f:b"),
        pair("f:c", "f:c"),
        pair("f:b", "f:a"),
        pair("f:a", "f:b"),
        pair("f:d", "f:e"),
    ];
    let mut db = vec![pair("f:d", "f:e"), pair("f:x", "f:y")];
    assert_eq!(run_against(&pairs, &mut db), (2, 0));
    let mut sorted = db.clone();
    sorted.sort();
    assert_eq!(sorted, vec![pair("f:a", "f:b"), pair("f:b", "f:a"), pair("f:d", "f:e"), pair("f:x", "f:y")]);
    let before = db.clone();
    assert_eq!(run_against(&pairs, &mut db), (0, 0));
    assert_eq!(db, before);
}
