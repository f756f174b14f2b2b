use am_workspace::cypher::{
    ensure_limit, escape_cypher, extract_keywords, is_readonly_cypher, LadybugQueryService,
    QueryClassification, QueryPlan,
};
use am_workspace::graph::{build_board_local_graph, build_note_local_graph, merge_graph};
use am_workspace::model::{
    MetaEntry, MetaValue, WorkspaceBoard, WorkspaceBoardObject, WorkspaceConnector,
    WorkspaceGraphEdge, WorkspaceGraphNode, WorkspaceIngestPayload,
};
use am_workspace::search::{
    enriched_response, graph_response, join_with_spaces, local_entity_fallback,
    note_keyword_source, picker_search, unreadable_graph,
};
use am_workspace::store::{note_record, selection_ingest_payload};

#[test]
fn rejects_create() {
    assert!(!is_readonly_cypher("CREATE (n:Foo) RETURN n"));
}

#[test]
fn allows_match() {
    assert!(is_readonly_cypher("MATCH (n) RETURN n LIMIT 5"));
}

#[test]
fn readonly_check_catches_other_writes() {
    assert!(!is_readonly_cypher("match (n) detach delete n"));
    assert!(!is_readonly_cypher("MATCH (n) SET n.x = 1"));
}

#[test]
fn ensure_limit_appends_when_missing() {
    assert_eq!(ensure_limit("MATCH (n) RETURN n LIMIT 5", 100), "MATCH (n) RETURN n LIMIT 5");
    let bounded = ensure_limit("MATCH (n) RETURN n", 100);
    assert!(bounded.starts_with("MATCH (n) RETURN n"));
    assert!(bounded.contains("LIMIT 100"));
}

#[test]
fn plan_classifies_queries() {
    match LadybugQueryService::plan(true, "   ", 10).unwrap() {
        QueryPlan::Answer(q) => assert_eq!(q.classification, QueryClassification::Empty),
        _ => panic!("expected answer"),
    }
    match LadybugQueryService::plan(true, "CREATE (n)", 10).unwrap() {
        QueryPlan::Answer(q) => assert_eq!(q.classification, QueryClassification::RejectedMutation),
        _ => panic!("expected answer"),
    }
    assert_eq!(
        LadybugQueryService::plan(false, "MATCH (n) RETURN n", 10).unwrap_err(),
        "ladybug_unavailable"
    );
    let long = format!("MATCH (n) RETURN n {}", "x".repeat(9000));
    assert_eq!(LadybugQueryService::plan(true, &long, 10).unwrap_err(), "query_limit_exceeded");
    match LadybugQueryService::plan(true, " MATCH (n) RETURN n ", 10).unwrap() {
        QueryPlan::Run(sql) => assert!(sql.starts_with("MATCH (n) RETURN n") && sql.contains("LIMIT 10")),
        _ => panic!("expected run"),
    }
}

#[test]
fn test_escape_cypher() {
    assert_eq!(escape_cypher(r#"hello"world"#), r#"hello\"world"#);
    assert_eq!(escape_cypher(r#"a\b"#), r#"a\\b"#);
    assert_eq!(escape_cypher("plain"), "plain");
}

#[test]
fn test_extract_keywords() {
    let title = "The Quick Brown Fox Jumps Over The Lazy Dog";
    let kw = extract_keywords(title, 3);
    assert_eq!(kw, vec!["quick", "brown", "fox"]);
}

#[test]
fn test_extract_keywords_filters_stop_words() {
    let title = "The Note Board For Testing";
    let kw = extract_keywords(title, 5);
    assert!(!kw.contains(&"the".to_string()));
    assert!(!kw.contains(&"note".to_string()));
    assert!(!kw.contains(&"board".to_string()));
    assert!(!kw.contains(&"for".to_string()));
    assert!(kw.contains(&"testing".to_string()));
}

#[test]
fn test_extract_keywords_short_words() {
    let title = "A B C D elephant";
    let kw = extract_keywords(title, 5);
    assert_eq!(kw, vec!["elephant"]);
}

#[test]
fn test_extract_keywords_respects_max() {
    let title = "apple banana cherry date elderberry fig";
    let kw = extract_keywords(title, 3);
    assert_eq!(kw.len(), 3);
    assert_eq!(kw, vec!["apple", "banana", "cherry"]);
}

#[test]
fn extract_keywords_keeps_each_once() {
    let kw = extract_keywords("graph graph GRAPH nodes", 5);
    assert_eq!(kw, vec!["graph", "nodes"]);
}

fn object(id: &str, note: Option<&str>) -> WorkspaceBoardObject {
    WorkspaceBoardObject {
        object_id: id.to_string(),
        board_id: "board-1".to_string(),
        workspace_id: "ws-1".to_string(),
        project_id: None,
        object_type: "note".to_string(),
        title: Some("My Note".to_string()),
        summary: None,
        note_id: note.map(String::from),
        asset_id: None,
        artifact_id: None,
        graph_entity_name: None,
        graph_source_id: None,
        tags: Vec::new(),
        ingest_eligible: true,
        locked: false,
        created_at: 0,
        updated_at: 0,
    }
}

#[test]
fn test_build_board_local_graph() {
    let objects = vec![object("obj-1", Some("note-abc"))];
    let connectors = vec![WorkspaceConnector {
        connector_id: "conn-1".to_string(),
        board_id: "board-1".to_string(),
        workspace_id: "ws-1".to_string(),
        project_id: None,
        from_object_id: "obj-1".to_string(),
        to_object_id: "obj-2".to_string(),
        connector_type: "relation".to_string(),
        relation_intent: "depends_on".to_string(),
        custom_label: Some("uses".to_string()),
        user_authored_summary: None,
        ingest_eligible: true,
        created_at: 0,
        updated_at: 0,
    }];

    let (nodes, edges) = build_board_local_graph("board-1", "My Board", &objects, &connectors);

    assert_eq!(nodes.len(), 3);
    assert!(nodes.iter().any(|n| n.node_id == "board:board-1"));
    assert!(nodes.iter().any(|n| n.node_id == "object:obj-1"));
    assert!(nodes.iter().any(|n| n.node_id == "note:note-abc"));

    assert!(!edges.is_empty());
    assert!(edges.iter().any(|e| e.relation_type == "BOARD_HAS_OBJECT"));
    assert!(edges.iter().any(|e| e.relation_type == "OBJECT_REFERENCES_NOTE"));
    assert!(edges.iter().any(|e| e.relation_type == "USER_LINKED"));
}

#[test]
fn test_build_note_local_graph() {
    let boards = vec![WorkspaceBoard {
        board_id: "board-1".to_string(),
        workspace_id: "ws-1".to_string(),
        project_id: None,
        title: "Test Board".to_string(),
        description: None,
        tags: Vec::new(),
        board_type: "canvas".to_string(),
        board_state: "active".to_string(),
        tldraw_document: serde_json::Value::Object(serde_json::Map::new()),
        objects: vec![object("obj-1", Some("note-abc"))],
        connectors: Vec::new(),
        object_count: 1,
        connector_count: 0,
        created_at: 0,
        updated_at: 0,
        ingested_at: None,
        graph_status: "not_ingested".to_string(),
    }];

    let (nodes, edges) = build_note_local_graph("note-abc", "My Note", &boards);

    assert!(nodes.iter().any(|n| n.node_id == "note:note-abc"));
    assert!(nodes.iter().any(|n| n.node_id == "board:board-1"));
    assert!(nodes.iter().any(|n| n.node_id == "object:obj-1"));
    assert!(edges.iter().any(|e| e.relation_type == "BOARD_HAS_OBJECT"));
    assert!(edges.iter().any(|e| e.relation_type == "OBJECT_REFERENCES_NOTE"));
}

fn node(id: &str) -> WorkspaceGraphNode {
    WorkspaceGraphNode {
        node_id: id.to_string(),
        node_type: "t".to_string(),
        title: id.to_string(),
        subtitle: None,
        metadata: vec![MetaEntry { key: "source".to_string(), value: MetaValue::Text("x".to_string()) }],
    }
}

fn edge(id: &str) -> WorkspaceGraphEdge {
    WorkspaceGraphEdge {
        edge_id: id.to_string(),
        from_node_id: "a".to_string(),
        to_node_id: "b".to_string(),
        relation_type: "R".to_string(),
        label: None,
        metadata: vec![],
    }
}

#[test]
fn merge_graph_skips_known_ids() {
    let mut nodes = vec![node("a"), node("b")];
    let mut edges = vec![edge("e1")];
    merge_graph(&mut nodes, &mut edges, vec![node("b"), node("c"), node("c")], vec![edge("e1"), edge("e2")]);
    let ids: Vec<&str> = nodes.iter().map(|n| n.node_id.as_str()).collect();
    assert_eq!(ids, vec!["a", "b", "c"]);
    assert_eq!(edges.len(), 2);
}

#[test]
fn enriched_response_merges_or_keeps_local() {
    let r = enriched_response("board", "b1", "T", vec![node("a")], vec![], Ok((vec![node("a"), node("x")], vec![edge("e")])));
    assert_eq!(r.status, "ok");
    assert_eq!(r.seed.seed_type, "board");
    assert_eq!(r.nodes.len(), 2);
    assert_eq!(r.edges.len(), 1);
    let r = enriched_response("note", "n1", "T", vec![node("a")], vec![], Err("timeout".to_string()));
    assert_eq!(r.nodes.len(), 1);
    assert!(r.edges.is_empty());
    let g = graph_response("explore", "root", "Graph Explorer", vec![], vec![]);
    assert_eq!(g.seed.title, "Graph Explorer");
}

#[test]
fn keyword_source_joins_summary() {
    assert_eq!(note_keyword_source("Title", &Some("sum".to_string())), "Title sum");
    assert_eq!(note_keyword_source("Title", &None), "Title");
    assert_eq!(join_with_spaces(&vec!["a".to_string(), "b".to_string()]), "a b");
}

fn ingest(id: &str, title: &str) -> WorkspaceIngestPayload {
    selection_ingest_payload(id.to_string(), "default", "board-9", title, vec![], vec![], 0)
}

#[test]
fn local_search_finds_notes_then_ingests() {
    let notes = vec![
        note_record("n1".to_string(), "default", "Graph Theory", "", vec!["Math".to_string()], None, 0),
        note_record("n2".to_string(), "default", "Cooking", "", vec![], None, 0),
    ];
    let ingests = vec![ingest("i1", "graph session")];
    let (nodes, edges) = local_entity_fallback(&notes, &ingests, "graph");
    assert!(edges.is_empty());
    let ids: Vec<&str> = nodes.iter().map(|n| n.node_id.as_str()).collect();
    assert_eq!(ids, vec!["note:n1", "artifact:i1"]);
    assert!(nodes[0]
        .metadata
        .iter()
        .any(|m| m.key == "tags" && matches!(&m.value, MetaValue::List(t) if t == &vec!["Math".to_string()])));
    let (nodes, _) = local_entity_fallback(&notes, &ingests, "math");
    assert_eq!(nodes.len(), 1);
    let items = picker_search(&notes, &ingests, "");
    assert_eq!(items.len(), 3);
    assert_eq!(items[2].node_type, "ingest");
    assert_eq!(items[0].source, "local");
}

#[test]
fn local_search_caps_at_twenty() {
    let notes: Vec<_> = (0..25)
        .map(|i| note_record(format!("n{i}"), "default", "same", "", vec![], None, 0))
        .collect();
    let (nodes, _) = local_entity_fallback(&notes, &vec![], "same");
    assert_eq!(nodes.len(), 20);
    assert_eq!(picker_search(&notes, &vec![], "").len(), 20);
}

#[test]
fn keywords_never_exceed_max_and_count_characters() {
    assert!(extract_keywords("apple banana", 0).is_empty());
    assert_eq!(extract_keywords("apple banana cherry", 2), vec!["apple", "banana"]);
    assert!(extract_keywords("éé ab", 5).is_empty());
    assert_eq!(extract_keywords("ééé", 5), vec!["ééé"]);
}

fn board_with(id: &str, objects: Vec<WorkspaceBoardObject>) -> WorkspaceBoard {
    WorkspaceBoard {
        board_id: id.to_string(),
        workspace_id: "ws-1".to_string(),
        project_id: None,
        title: format!("Board {id}"),
        description: None,
        tags: Vec::new(),
        board_type: "canvas".to_string(),
        board_state: "active".to_string(),
        tldraw_document: serde_json::Value::Object(serde_json::Map::new()),
        objects,
        connectors: Vec::new(),
        object_count: 0,
        connector_count: 0,
        created_at: 0,
        updated_at: 0,
        ingested_at: None,
        graph_status: "not_ingested".to_string(),
    }
}

#[test]
fn note_graph_leaves_out_boards_without_the_note() {
    let boards = vec![
        board_with("board-2", Vec::new()),
        board_with("board-1", vec![object("obj-1", Some("note-abc"))]),
        board_with("board-3", vec![object("obj-9", Some("note-other"))]),
    ];
    let (nodes, edges) = build_note_local_graph("note-abc", "My Note", &boards);
    let ids: Vec<&str> = nodes.iter().map(|n| n.node_id.as_str()).collect();
    assert_eq!(ids, vec!["note:note-abc", "board:board-1", "object:obj-1"]);
    assert!(edges.iter().all(|e| !e.from_node_id.contains("board-2") && !e.from_node_id.contains("board-3")));
    assert!(edges.iter().any(|e| e.relation_type == "CONTAINS_NOTE"));
}

#[test]
fn unreadable_roots_get_an_empty_graph_with_a_fallback_title() {
    let g = unreadable_graph(true, "n-1", false);
    assert_eq!(g.status, "ok");
    assert_eq!(g.seed.seed_type, "note");
    assert_eq!(g.seed.seed_id, "n-1");
    assert_eq!(g.seed.title, "Unknown Note");
    assert!(g.nodes.is_empty() && g.edges.is_empty());
    assert_eq!(unreadable_graph(false, "b-1", false).seed.title, "Unknown Board");
    assert_eq!(unreadable_graph(false, "b-1", false).seed.seed_type, "board");
    assert_eq!(unreadable_graph(true, "n-1", true).seed.title, "Error");
    assert_eq!(unreadable_graph(false, "b-1", true).seed.title, "Error");
}
