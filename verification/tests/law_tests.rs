use am_workspace::agent::{agent_attempt, AgentChatRequest};
use am_workspace::config::parse_port;
use am_workspace::cypher::{escape_cypher, LadybugQueryService, QueryClassification};
use am_workspace::diagnostics::{health_snapshot, AttemptStore, WorkflowState};
use am_workspace::editor::EditorState;
use am_workspace::graph::{make_entity_node, merge_graph};
use am_workspace::ladybug::{
    enrich_by_keywords, entity_graph, explore_graph, fetch_entity_relations, fetch_node_details,
    list_projects, list_repos, open_ladybug_db, run_adhoc_query, search_entities_by_keyword,
    search_entities_by_name,
};
use am_workspace::registry::FunctionAnchorRegistry;
use am_workspace::store::{
    board_ingest_stub, note_record, placeholder_board, placeholder_note, selection_ingest_stub,
};
use am_workspace::vault::{
    build_frontmatter, note_from_frontmatter, note_relative_path, parse_frontmatter,
    parse_vault_filename,
};

fn read_cypher_literal(t: &str) -> String {
    let mut out = String::new();
    let mut chars = t.chars();
    while let Some(c) = chars.next() {
        if c == '\\' {
            if let Some(n) = chars.next() {
                out.push(n);
                continue;
            }
        }
        out.push(c);
    }
    out
}

#[test]
fn vault_name_reads_back() {
    let id = "3f1c2a9e-1111-4abc-9def-0123456789ab";
    let rel = note_relative_path("my--odd-slug-", id);
    let name = rel.strip_prefix("notes/").unwrap();
    assert_eq!(
        parse_vault_filename(name),
        Some(("my--odd-slug-".to_string(), id.to_string()))
    );
}

#[test]
fn escaped_literal_reads_back() {
    for v in ["plain", "say \"hi\"", "back\\slash", "\\\"", ""] {
        let e = escape_cypher(v);
        assert_eq!(read_cypher_literal(&e), v);
    }
    assert_eq!(escape_cypher("a\"b\\c"), "a\\\"b\\\\c");
}

#[test]
fn merged_graph_keeps_ids_distinct() {
    let mut nodes = vec![make_entity_node("alpha")];
    let mut edges = Vec::new();
    merge_graph(
        &mut nodes,
        &mut edges,
        vec![make_entity_node("alpha"), make_entity_node("beta"), make_entity_node("beta")],
        Vec::new(),
    );
    let ids: Vec<&str> = nodes.iter().map(|n| n.node_id.as_str()).collect();
    assert_eq!(ids, vec!["ladybug-entity:alpha", "ladybug-entity:beta"]);
}

#[test]
fn anchor_read_after_record_with_backslashes() {
    let mut reg = FunctionAnchorRegistry::new();
    reg.record_function_anchor("src\\lib.rs", 12, "pk-1".to_string());
    assert_eq!(reg.pk_for_path_line("src/lib.rs", 12), Some("pk-1"));
    assert_eq!(reg.pk_for_path_line("src\\lib.rs", 12), Some("pk-1"));
    assert_eq!(reg.pk_for_path_line("src/lib.rs", 13), None);
    reg.record_function_anchor("src/lib.rs", 12, "pk-2".to_string());
    assert_eq!(reg.pk_for_path_line("src\\lib.rs", 12), Some("pk-2"));
    assert_eq!(reg.len(), 1);
}

#[test]
fn port_reads_back() {
    for p in [0u16, 7, 80, 3031, 65535] {
        assert_eq!(parse_port(&p.to_string()), Some(p));
    }
    assert_eq!(parse_port("65536"), None);
    assert_eq!(parse_port("+8080"), Some(8080));
}

#[test]
fn loaded_note_is_clean() {
    let note = note_record(
        "n1".to_string(),
        "ws",
        "Title",
        "Body",
        vec!["alpha".to_string(), "beta gamma".to_string()],
        None,
        5,
    );
    let mut ed = EditorState::new();
    ed.load_note(&note);
    assert_eq!(ed.draft_tags, "alpha, beta gamma");
    ed.check_dirty();
    assert!(!ed.dirty);
    ed.draft_tags = "alpha".to_string();
    ed.check_dirty();
    assert!(ed.dirty);
}

#[test]
fn attempts_keep_their_ids() {
    let req = AgentChatRequest {
        workspace_id: "ws".to_string(),
        project_id: Some("p".to_string()),
        message: "hello".to_string(),
        note_id: None,
        board_id: None,
    };
    let a = agent_attempt(&req, "att_1".to_string(), "req_1".to_string(), "tr_1".to_string(), "diag_1".to_string(), 7);
    assert_eq!(a.workflow_name, "agent_chat");
    assert_eq!(a.workspace_id, "ws");
    assert_eq!(a.project_id.as_deref(), Some("p"));
    assert_eq!(a.state, WorkflowState::Requested);
    assert_eq!(a.steps.len(), 1);
    assert_eq!(a.steps[0].step_name, "context_summarized");
    let mut store = AttemptStore::new();
    store.insert(a);
    let failed = store.fail_at("att_1", "boom", "It failed", 9).unwrap();
    assert_eq!(failed.attempt_id, "att_1");
    assert_eq!(failed.request_id, "req_1");
    assert_eq!(failed.created_at, 7);
    assert_eq!(failed.updated_at, 9);
    assert_eq!(failed.state, WorkflowState::Failed);
    assert_eq!(failed.steps.len(), 1);
    assert_eq!(store.get("att_1").unwrap().error_code.as_deref(), Some("boom"));
    let h = health_snapshot(false, store.len());
    assert_eq!((h.status.as_str(), h.ladybug_available, h.workspace_id.as_str(), h.active_attempts), ("ok", false, "default", 1));
}

#[test]
fn frontmatter_reads_back() {
    let mut note = note_record(
        "n-1".to_string(),
        "ws-1",
        "A Title",
        "\n  # Heading\n\nText",
        vec!["a".to_string(), "b \"q\"".to_string()],
        Some("proj".to_string()),
        11,
    );
    note.summary = Some("short".to_string());
    let text = build_frontmatter(&note);
    let (fm, body) = parse_frontmatter(&text).unwrap();
    assert_eq!(body, "# Heading\n\nText");
    assert_eq!(fm.get("note_id").map(|s| s.as_str()), Some("\"n-1\""));
    assert_eq!(fm.get("tags").map(|s| s.as_str()), Some("[\"a\",\"b \\\"q\\\"\"]"));
    let back = note_from_frontmatter(&fm, body, "n-1", "ws-1", "a-title".to_string(), None, 99);
    assert_eq!(back.title, "A Title");
    assert_eq!(back.project_id.as_deref(), Some("proj"));
    assert_eq!(back.summary.as_deref(), Some("short"));
    assert_eq!(back.source, note.source);
    assert_eq!(back.graph_status, note.graph_status);
    assert_eq!(back.tags, note.tags);
}

#[test]
fn ladybug_client_answers_empty() {
    assert!(open_ladybug_db(None).is_none());
    assert!(open_ladybug_db(Some("/definitely/not/here.lbug".to_string())).is_none());
    let db = open_ladybug_db(Some("/".to_string())).unwrap();
    assert_eq!(db.path, "/");
    let (n, e) = explore_graph(&db, 50, Some("repo"), Some("proj")).unwrap();
    assert!(n.is_empty() && e.is_empty());
    assert!(fetch_node_details(&db, &vec!["x".to_string()]).unwrap().is_empty());
    assert!(search_entities_by_keyword(&db, "rust", 10).unwrap().is_empty());
    assert!(search_entities_by_name(&db, "rust", 10).unwrap().is_empty());
    let (n, e) = fetch_entity_relations(&db, &vec!["a".to_string(), "b".to_string()], 20).unwrap();
    assert_eq!(n.iter().map(|x| x.node_id.as_str()).collect::<Vec<_>>(), vec!["ladybug-entity:a", "ladybug-entity:b"]);
    assert!(e.is_empty());
    assert!(list_repos(&db, 50).unwrap().is_empty());
    assert!(list_projects(&db, 50).unwrap().is_empty());
    let (n, e) = enrich_by_keywords(&db, &vec!["graph".to_string()]).unwrap();
    assert!(n.is_empty() && e.is_empty());
    let (n, e) = entity_graph(&db, "graph").unwrap();
    assert!(n.is_empty() && e.is_empty());
    let (c, r, t) = run_adhoc_query(&db, "MATCH (n) RETURN n", 10).unwrap();
    assert!(c.is_empty() && r.is_empty() && !t);
}

#[test]
fn shell_execute_with_and_without_database() {
    let db = open_ladybug_db(Some("/".to_string())).unwrap();
    let q = LadybugQueryService::execute(Some(&db), "MATCH (n) RETURN n", 5).unwrap();
    assert_eq!(q.classification, QueryClassification::ReadOnly);
    assert!(q.columns.is_empty() && q.rows.is_empty() && !q.truncated);
    let q = LadybugQueryService::execute(Some(&db), "CREATE (n:Foo) RETURN n", 5).unwrap();
    assert_eq!(q.classification, QueryClassification::RejectedMutation);
    let q = LadybugQueryService::execute(None, "   ", 5).unwrap();
    assert_eq!(q.classification, QueryClassification::Empty);
    assert_eq!(LadybugQueryService::execute(None, "MATCH (n) RETURN n", 5).unwrap_err(), "ladybug_unavailable");
    let long = "M".repeat(8193);
    assert_eq!(LadybugQueryService::execute(Some(&db), &long, 5).unwrap_err(), "query_limit_exceeded");
}

#[test]
fn placeholders_and_stubs() {
    let n = placeholder_note("ws", 3);
    assert_eq!((n.note_id.as_str(), n.slug.as_str(), n.source.as_str(), n.graph_status.as_str()), ("error", "error", "system", "not_ingested"));
    assert_eq!((n.created_at, n.updated_at), (3, 3));
    let b = placeholder_board("ws", "b1", 4);
    assert_eq!((b.board_id.as_str(), b.title.as_str(), b.board_type.as_str(), b.board_state.as_str()), ("b1", "", "canvas", "active"));
    assert_eq!(b.tldraw_document, serde_json::Value::Object(serde_json::Map::new()));
    let s = board_ingest_stub("b1".to_string(), "ws".to_string(), 5);
    assert_eq!((s.ingest_id.as_str(), s.ingest_scope.as_str(), s.title.as_str(), s.graph_status.as_str()), ("stub", "board", "Stub Ingest", "stub"));
    let s = selection_ingest_stub("b1".to_string(), "ws".to_string(), vec!["o1".to_string()], vec!["c1".to_string()], 6);
    assert_eq!((s.ingest_scope.as_str(), s.title.as_str(), s.object_count, s.connector_count), ("selection", "Stub Selection Ingest", 0, 0));
    assert_eq!(s.object_ids, vec!["o1".to_string()]);
    assert_eq!(s.ingested_at, 6);
}
