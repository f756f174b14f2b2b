use std::path::PathBuf;

use am_workspace::model::{WorkspaceBoardObject, WorkspaceConnector, WorkspaceNoteDocument};
use am_workspace::store::{
    apply_board_update, apply_note_update, board_ingest_payload, board_record, find_vault_slug,
    history_items, ingest_file_name, new_board, new_board_ingest, new_note, new_selection_ingest,
    note_record, selection_ingest_payload, BoardUpdateMeta,
};
use am_workspace::vault::{
    board_json_path, build_frontmatter, frontmatter_slug, note_json_path, note_relative_path, note_vault_path,
    parse_frontmatter, parse_vault_filename, slugify, store_dir, vault_dir, vault_notes_dir,
};

#[test]
fn test_note_json_path() {
    let path = note_json_path("/tmp/store", "ws-1", "note-abc");
    assert_eq!(PathBuf::from(path), PathBuf::from("/tmp/store/ws-1/notes/note-abc.json"));
}

#[test]
fn test_board_json_path() {
    let path = board_json_path("/tmp/store", "ws-1", "board-xyz");
    assert_eq!(PathBuf::from(path), PathBuf::from("/tmp/store/ws-1/boards/board-xyz.json"));
}

#[test]
fn test_note_vault_path() {
    let path = note_vault_path("/tmp/vault", "ws-1", "my-note", "note-123");
    assert_eq!(
        PathBuf::from(path),
        PathBuf::from("/tmp/vault/ws-1/notes/my-note--note-123.md")
    );
}

#[test]
fn test_parse_vault_filename() {
    let result = parse_vault_filename("my-note--abc123.md").unwrap();
    assert_eq!(result, ("my-note".to_string(), "abc123".to_string()));
}

#[test]
fn test_parse_vault_filename_no_match() {
    let result = parse_vault_filename("just-a-file.md");
    assert!(result.is_none());
}

#[test]
fn parse_vault_filename_splits_at_last_separator() {
    assert_eq!(
        parse_vault_filename("a--b--id.md"),
        Some(("a--b".to_string(), "id".to_string()))
    );
    assert_eq!(parse_vault_filename("a--b.txt"), None);
}

#[test]
fn workspace_dirs_join_like_paths() {
    assert_eq!(store_dir("/s", "w"), "/s/w");
    assert_eq!(store_dir("/s/", "w"), "/s/w");
    assert_eq!(vault_dir("/v", "w"), "/v/w");
    assert_eq!(vault_notes_dir("/v", "w"), "/v/w/notes");
    assert_eq!(note_relative_path("my-note", "id1"), "notes/my-note--id1.md");
}

#[test]
fn test_slugify_behavior() {
    assert_eq!(slugify("Hello World"), "hello-world");
    assert_eq!(slugify("My Note!"), "my-note");
    assert_eq!(slugify("--trim--"), "trim");
}

#[test]
fn test_frontmatter_parsing() {
    let md = r#"---
note_id: "abc-123"
workspace_id: "ws-1"
project_id: null
title: "My Title"
summary: "A summary"
tags: ["rust", "notes"]
entity_hints: []
source: "user"
graph_status: "not_ingested"
---

# Body here

Some content."#;

    let (fm, body) = parse_frontmatter(md).unwrap();
    assert_eq!(fm.get("note_id").unwrap(), "\"abc-123\"");
    assert_eq!(fm.get("title").unwrap(), "\"My Title\"");
    assert_eq!(fm.get("summary").unwrap(), "\"A summary\"");
    assert_eq!(body, "# Body here\n\nSome content.");
}

#[test]
fn frontmatter_absent_keeps_content() {
    let (fm, body) = parse_frontmatter("no frontmatter here").unwrap();
    assert!(fm.get("title").is_none());
    assert_eq!(body, "no frontmatter here");
}

fn sample_note() -> WorkspaceNoteDocument {
    note_record(
        "n1".to_string(),
        "ws-1",
        "Hello \"World\"",
        "body text",
        vec!["a".to_string(), "b".to_string()],
        Some("p1".to_string()),
        1000,
    )
}

#[test]
fn note_record_fills_defaults() {
    let n = sample_note();
    assert_eq!(n.note_id, "n1");
    assert_eq!(n.slug, "hello-world");
    assert_eq!(n.source, "user");
    assert_eq!(n.graph_status, "not_ingested");
    assert_eq!(n.created_at, 1000);
    assert_eq!(n.updated_at, 1000);
    assert!(n.summary.is_none() && n.git_revision.is_none() && n.entity_hints.is_empty());
}

#[test]
fn new_note_gets_uuid_id() {
    let n = new_note("ws", "Title", "b", vec![], None);
    assert_eq!(n.note_id.len(), 36);
    assert_eq!(n.note_id.as_bytes()[8], b'-');
    assert_eq!(n.slug, "title");
}

#[test]
fn note_update_keeps_identity() {
    let n = sample_note();
    let u = apply_note_update(n, "New Title", "new body", vec!["x".to_string()], None, 2000);
    assert_eq!(u.note_id, "n1");
    assert_eq!(u.title, "New Title");
    assert_eq!(u.slug, "new-title");
    assert_eq!(u.body_markdown, "new body");
    assert_eq!(u.tags, vec!["x".to_string()]);
    assert!(u.project_id.is_none());
    assert_eq!(u.created_at, 1000);
    assert_eq!(u.updated_at, 2000);
}

#[test]
fn frontmatter_round_trip_of_plain_note() {
    let n = note_record(
        "n2".to_string(),
        "ws-1",
        "Plain Title",
        "line one\nline two",
        vec!["t1".to_string()],
        None,
        5,
    );
    let text = build_frontmatter(&n);
    assert!(text.starts_with("---\nnote_id: \"n2\"\n"));
    assert!(text.contains("\nproject_id: null\n"));
    assert!(text.contains("\ntags: [\"t1\"]\n"));
    let (fm, body) = parse_frontmatter(&text).unwrap();
    assert_eq!(body, "line one\nline two");
    assert_eq!(fm.get("title").unwrap(), "\"Plain Title\"");
    assert_eq!(fm.get("project_id").unwrap(), "null");
}

#[test]
fn build_frontmatter_escapes_title_quotes() {
    let text = build_frontmatter(&sample_note());
    assert!(text.contains("\ntitle: \"Hello \\\"World\\\"\"\n"));
    assert!(text.contains("\nproject_id: \"p1\"\n"));
    assert!(text.contains("\nsummary: null\n"));
}

#[test]
fn find_vault_slug_takes_first_match() {
    let names = vec![
        "other--n0.md".to_string(),
        "readme.txt".to_string(),
        "my-note--n1.md".to_string(),
        "dup--n1.md".to_string(),
    ];
    assert_eq!(find_vault_slug(&names, "n1"), Some("my-note".to_string()));
    assert_eq!(find_vault_slug(&names, "n9"), None);
}

#[test]
fn history_items_format_timestamps() {
    let items = history_items(vec![
        ("abc".to_string(), 1700000000, "Create note: X".to_string()),
        ("def".to_string(), -5, "Old".to_string()),
    ]);
    assert_eq!(items.len(), 2);
    assert_eq!(items[0].sha, "abc");
    assert_eq!(items[0].timestamp, "1700000000");
    assert_eq!(items[0].subject, "Create note: X");
    assert_eq!(items[1].timestamp, "-5");
}

#[test]
fn board_record_defaults() {
    let b = board_record("b1".to_string(), "ws-1", "My Board", None, None, 7);
    assert_eq!(b.board_type, "canvas");
    assert_eq!(b.board_state, "active");
    assert!(b.tldraw_document.is_object());
    assert_eq!(b.object_count, 0);
    assert_eq!(b.graph_status, "not_ingested");
    let d = serde_json::from_str::<serde_json::Value>("{\"shapes\": [1]}").unwrap();
    let b2 = board_record("b2".to_string(), "ws", "T", Some("draw".to_string()), Some(d.clone()), 7);
    assert_eq!(b2.board_type, "draw");
    assert_eq!(b2.tldraw_document, d);
    let b3 = new_board("ws", "T", None, None);
    assert_eq!(b3.board_id.len(), 36);
}

fn object(id: &str) -> WorkspaceBoardObject {
    WorkspaceBoardObject {
        object_id: id.to_string(),
        board_id: "b1".to_string(),
        workspace_id: "ws-1".to_string(),
        project_id: None,
        object_type: "note".to_string(),
        title: Some("Object".to_string()),
        summary: None,
        note_id: None,
        asset_id: None,
        artifact_id: None,
        graph_entity_name: None,
        graph_source_id: None,
        tags: Vec::new(),
        ingest_eligible: true,
        locked: false,
        created_at: 0,
        updated_at: 0,
    }
}

fn connector(id: &str) -> WorkspaceConnector {
    WorkspaceConnector {
        connector_id: id.to_string(),
        board_id: "b1".to_string(),
        workspace_id: "ws-1".to_string(),
        project_id: None,
        from_object_id: "obj-1".to_string(),
        to_object_id: "obj-2".to_string(),
        connector_type: "relation".to_string(),
        relation_intent: "depends_on".to_string(),
        custom_label: None,
        user_authored_summary: None,
        ingest_eligible: true,
        created_at: 0,
        updated_at: 0,
    }
}

#[test]
fn board_update_recalculates_counts() {
    let b = board_record("b1".to_string(), "ws-1", "Count Board", None, None, 1);
    let updated = apply_board_update(
        b,
        "Count Board",
        serde_json::Value::Object(serde_json::Map::new()),
        vec![object("obj-1")],
        vec![connector("conn-1")],
        BoardUpdateMeta::empty(),
        9,
    )
    .unwrap();
    assert_eq!(updated.object_count, 1);
    assert_eq!(updated.connector_count, 1);
    assert_eq!(updated.updated_at, 9);
    assert_eq!(updated.created_at, 1);
}

#[test]
fn board_update_applies_metadata() {
    let b = board_record("b1".to_string(), "ws-1", "B", None, None, 1);
    let meta = BoardUpdateMeta {
        workspace_id: "ws-1".to_string(),
        description: Some("desc".to_string()),
        tags: Some(vec!["t".to_string()]),
        board_state: Some("archived".to_string()),
    };
    let tl = serde_json::from_str::<serde_json::Value>("{\"shapes\": [\"s1\"]}").unwrap();
    let u = apply_board_update(b, "Renamed", tl.clone(), vec![], vec![], meta, 2).unwrap();
    assert_eq!(u.title, "Renamed");
    assert_eq!(u.description.as_deref(), Some("desc"));
    assert_eq!(u.tags, vec!["t".to_string()]);
    assert_eq!(u.board_state, "archived");
    assert_eq!(u.tldraw_document, tl);
}

#[test]
fn board_update_rejects_other_workspace() {
    let b = board_record("b1".to_string(), "ws-1", "B", None, None, 1);
    let meta = BoardUpdateMeta {
        workspace_id: "ws-2".to_string(),
        description: None,
        tags: None,
        board_state: None,
    };
    let err = apply_board_update(b, "B", serde_json::Value::Object(serde_json::Map::new()), vec![], vec![], meta, 2).unwrap_err();
    assert_eq!(err, "workspace_id mismatch: board is in ws-1, request specified ws-2");
}

#[test]
fn ingest_payloads() {
    let p = board_ingest_payload("i1".to_string(), "ws-1", "board-123", "My Board", 3);
    assert_eq!(p.ingest_scope, "board");
    assert_eq!(p.board_id, "board-123");
    assert_eq!(p.workspace_id, "ws-1");
    assert_eq!(p.graph_status, "ingested");
    assert_eq!(p.maturity, "draft");
    assert_eq!(ingest_file_name(&p), "i1--board-123.json");
    let s = selection_ingest_payload(
        "i2".to_string(),
        "ws-1",
        "board-456",
        "My Selection",
        vec!["obj-1".to_string(), "obj-2".to_string()],
        vec!["conn-1".to_string()],
        4,
    );
    assert_eq!(s.ingest_scope, "selection");
    assert_eq!(s.object_count, 2);
    assert_eq!(s.connector_count, 1);
    assert_eq!(ingest_file_name(&s), "i2--selection.json");
}

fn board_object(id: &str, board_id: &str) -> WorkspaceBoardObject {
    let mut o = object(id);
    o.board_id = board_id.to_string();
    o.title = Some("Object 1".to_string());
    o
}

#[test]
fn test_update_preserves_tldraw() {
    let tldraw = serde_json::from_str::<serde_json::Value>(r#"{"shapes": ["shape1", "shape2"], "bindings": []}"#).unwrap();
    let board = new_board("ws-1", "Tldraw Board", None, Some(tldraw.clone()));
    let updated = apply_board_update(
        board,
        "Updated Tldraw Board",
        tldraw.clone(),
        vec![],
        vec![],
        BoardUpdateMeta::empty(),
        1,
    )
    .unwrap();
    assert_eq!(updated.title, "Updated Tldraw Board");
    assert_eq!(updated.tldraw_document, tldraw);
    assert_eq!(updated.object_count, 0);
    assert_eq!(updated.connector_count, 0);
}

#[test]
fn test_update_recalculates_counts() {
    let board = new_board("ws-1", "Count Board", None, None);
    let board_id = board.board_id.clone();
    let mut conn = connector("conn-1");
    conn.board_id = board_id.clone();
    let updated = apply_board_update(
        board,
        "Count Board",
        serde_json::Value::Object(serde_json::Map::new()),
        vec![board_object("obj-1", &board_id)],
        vec![conn],
        BoardUpdateMeta::empty(),
        1,
    )
    .unwrap();
    assert_eq!(updated.object_count, 1);
    assert_eq!(updated.connector_count, 1);
}

#[test]
fn test_ingest_board_creates_payload() {
    let payload = new_board_ingest("ws-1", "board-123", "My Board");
    assert_eq!(payload.ingest_scope, "board");
    assert_eq!(payload.board_id, "board-123");
    assert_eq!(payload.workspace_id, "ws-1");
    assert_eq!(payload.graph_status, "ingested");
}

#[test]
fn test_ingest_selection_creates_payload() {
    let payload = new_selection_ingest(
        "ws-1",
        "board-456",
        "My Selection",
        vec!["obj-1".to_string(), "obj-2".to_string()],
        vec!["conn-1".to_string()],
    );
    assert_eq!(payload.ingest_scope, "selection");
    assert_eq!(payload.object_count, 2);
    assert_eq!(payload.connector_count, 1);
}

#[test]
fn vault_notes_take_the_slug_of_their_frontmatter_title() {
    let (fm, _) = parse_frontmatter("---\ntitle: \"Hello World\"\n---\nBody").unwrap();
    assert_eq!(frontmatter_slug(&fm), "hello-world");
    let (fm, _) = parse_frontmatter("---\nsummary: x\n---\nBody").unwrap();
    assert_eq!(frontmatter_slug(&fm), "");
}
