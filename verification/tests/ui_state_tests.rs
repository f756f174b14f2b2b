use am_workspace::api::{graph_explore_path, graph_picker_path, urlencoding, ApiScope, Promise};
use am_workspace::canvas::{
    canvas_object_kind_str, derive_artifacts_at, CanvasCard, CanvasConnector, CanvasObjectKind,
    CanvasTool,
};
use am_workspace::editor::{join_comma, parse_tag_list, short_sha, EditorOutput, EditorState};
use am_workspace::panels::{
    poll_chat, poll_execute, poll_health, poll_ping, truncate_label, AgentPanelState,
    DiagnosticsPanelState, QueryResultView, QueryShellState,
};
use am_workspace::sidebar::{draft_or, filter_notes, SidebarOutput, SidebarState};
use am_workspace::store::note_record;

#[test]
fn urlencoding_escapes_reserved() {
    assert_eq!(urlencoding("a b&c"), "a%20b%26c");
    assert_eq!(urlencoding("Az09-_.~"), "Az09-_.~");
    assert_eq!(urlencoding("é"), "%E9");
}

#[test]
fn scope_query_suffix() {
    let mut s = ApiScope::new();
    assert_eq!(s.query_suffix(), "");
    s.repo_id = Some("my repo".to_string());
    assert_eq!(s.query_suffix(), "?repo_id=my%20repo");
    s.project_id = Some("p".to_string());
    assert_eq!(s.query_suffix(), "?repo_id=my%20repo&project_id=p");
    s.repo_id = Some(String::new());
    assert_eq!(s.query_suffix(), "?project_id=p");
    assert_eq!(graph_explore_path(&s), "/api/workspace/graph/explore?project_id=p");
    assert_eq!(graph_picker_path(""), "/api/workspace/graph/picker");
    assert_eq!(graph_picker_path("a b"), "/api/workspace/graph/picker?q=a%20b");
}

#[test]
fn promise_take_leaves_idle() {
    let mut p: Promise<i32> = Promise::Ready(5);
    assert!(p.is_ready());
    assert_eq!(p.take(), Some(5));
    assert!(matches!(p, Promise::Idle));
    let mut q: Promise<i32> = Promise::Pending;
    assert_eq!(q.take(), None);
    assert!(q.is_pending());
    let mut f: Promise<i32> = Promise::Failed("x".to_string());
    assert_eq!(f.take(), None);
    assert!(f.is_failed());
}

#[test]
fn canvas_tools() {
    assert_eq!(CanvasTool::default(), CanvasTool::Select);
    assert_eq!(CanvasTool::Rectangle.label(), "Rect");
    assert_eq!(CanvasTool::Text.icon(), "T");
    assert!(CanvasTool::Arrow.is_shape_placeholder());
    assert!(!CanvasTool::Note.is_shape_placeholder());
    assert_eq!(canvas_object_kind_str(&CanvasObjectKind::GraphReference), "graph_reference");
}

fn card(id: &str, summary: &str, preview: &str) -> CanvasCard {
    CanvasCard {
        id: id.to_string(),
        kind: CanvasObjectKind::NoteCard,
        note_id: Some("note-1".to_string()),
        title: "Hello".to_string(),
        summary: summary.to_string(),
        markdown_preview: preview.to_string(),
        tags: vec!["tag-a".to_string()],
        locked: false,
    }
}

fn conn(id: &str, from: &str, to: &str, intent: &str, label: &str) -> CanvasConnector {
    CanvasConnector {
        id: id.to_string(),
        from_object_id: from.to_string(),
        to_object_id: to.to_string(),
        relation_intent: intent.to_string(),
        label: label.to_string(),
    }
}

#[test]
fn derive_artifacts_maps_objects_and_connectors() {
    let cards = vec![card("c1", "Short summary", "preview")];
    let conns = vec![conn("conn-1", "c1", "missing", "related", "")];
    let a = derive_artifacts_at(&cards, &conns, "board-1", "default", None, 5);
    assert_eq!(a.objects.len(), 1);
    assert_eq!(a.objects[0].object_type, "note_card");
    assert_eq!(a.objects[0].note_id.as_deref(), Some("note-1"));
    assert_eq!(a.objects[0].summary.as_deref(), Some("Short summary"));
    assert!(a.connectors.is_empty());
}

#[test]
fn derive_artifacts_keeps_valid_connectors() {
    let cards = vec![card("a", "", "prev"), card("b", "", "")];
    let conns = vec![conn("conn-1", "a", "b", "depends_on", "uses"), conn("conn-2", "b", "a", "", "")];
    let a = derive_artifacts_at(&cards, &conns, "board-1", "default", Some("p"), 5);
    assert_eq!(a.objects.len(), 2);
    assert_eq!(a.objects[0].summary.as_deref(), Some("prev"));
    assert_eq!(a.objects[1].summary, None);
    assert_eq!(a.connectors.len(), 2);
    assert_eq!(a.connectors[0].relation_intent, "depends_on");
    assert_eq!(a.connectors[0].custom_label.as_deref(), Some("uses"));
    assert_eq!(a.connectors[1].relation_intent, "linked");
    assert_eq!(a.connectors[1].custom_label, None);
    assert_eq!(a.connectors[1].connector_type, "directed");
    assert_eq!(a.connectors[1].project_id.as_deref(), Some("p"));
}

#[test]
fn sidebar_selection_toggles() {
    let mut s = SidebarState::new();
    let mut out = SidebarOutput::new();
    s.click_note(&mut out, "n1");
    assert_eq!(s.selected_note_id.as_deref(), Some("n1"));
    assert_eq!(out.selected_note_id.as_deref(), Some("n1"));
    let mut out2 = SidebarOutput::new();
    s.click_note(&mut out2, "n1");
    assert!(s.selected_note_id.is_none());
    assert!(out2.deselected);
    s.select_note("n2");
    let mut out3 = SidebarOutput::new();
    s.click_board(&mut out3, "b1");
    assert_eq!(s.selected_board_id.as_deref(), Some("b1"));
    assert!(s.selected_note_id.is_none());
    s.click_board(&mut out3, "b1");
    assert!(s.selected_board_id.is_none());
    assert!(out3.board_deselected);
}

#[test]
fn sidebar_drafts() {
    let mut s = SidebarState::new();
    s.start_new_note();
    assert!(s.show_new_note_input);
    s.new_note_title = "   ".to_string();
    let mut out = SidebarOutput::new();
    s.confirm_new_note(&mut out);
    assert_eq!(out.create_note_title.as_deref(), Some("Untitled Note"));
    assert!(!s.show_new_note_input);
    s.start_new_board();
    s.new_board_title = "Plan".to_string();
    s.confirm_new_board(&mut out);
    assert_eq!(out.create_board_title.as_deref(), Some("Plan"));
    s.start_new_board();
    s.cancel_new_board();
    assert!(!s.show_new_board_input && s.new_board_title.is_empty());
    assert_eq!(draft_or("x", "d"), "x");
}

#[test]
fn sidebar_filter_matches_title_tags_body() {
    let notes = vec![
        note_record("1".to_string(), "w", "Rust Notes", "body", vec![], None, 0),
        note_record("2".to_string(), "w", "Other", "mentions RUST here", vec![], None, 0),
        note_record("3".to_string(), "w", "Tagged", "", vec!["Rustacean".to_string()], None, 0),
        note_record("4".to_string(), "w", "Nothing", "", vec![], None, 0),
    ];
    assert_eq!(filter_notes(&notes, "rust"), vec![0, 1, 2]);
    assert_eq!(filter_notes(&notes, "RUST"), vec![0, 1, 2]);
    assert_eq!(filter_notes(&notes, ""), vec![0, 1, 2, 3]);
}

#[test]
fn editor_tags_and_dirty_flag() {
    assert_eq!(parse_tag_list(" a, b ,, c,"), vec!["a", "b", "c"]);
    assert!(parse_tag_list("").is_empty());
    assert_eq!(join_comma(&vec!["a".to_string(), "b".to_string()]), "a, b");
    let note = note_record("n".to_string(), "w", "T", "B", vec!["x".to_string(), "y".to_string()], None, 0);
    let mut e = EditorState::new();
    e.load_note(&note);
    assert_eq!(e.draft_tags, "x, y");
    e.check_dirty();
    assert!(!e.dirty);
    e.draft_tags = "x,y".to_string();
    e.check_dirty();
    assert!(!e.dirty);
    e.draft_body = "changed".to_string();
    e.check_dirty();
    assert!(e.dirty);
    let mut out = EditorOutput::new();
    e.click_save(&mut out);
    let save = out.save_note.unwrap();
    assert_eq!(save.body_markdown, "changed");
    assert_eq!(save.tags, vec!["x", "y"]);
    let mut out = EditorOutput::new();
    e.toggle_history(&mut out);
    assert_eq!(out.fetch_history.as_deref(), Some("n"));
    e.click_revert(&mut out, "abc");
    assert_eq!(out.revert_request, Some(("n".to_string(), "abc".to_string())));
    e.set_status("Saved".to_string());
    e.tick_status(1000);
    assert!(e.status_message.is_some());
    e.tick_status(2500);
    assert!(e.status_message.is_none());
    e.unload();
    assert!(e.note.is_none() && e.draft_title.is_empty());
    assert_eq!(short_sha("0123456789abcdef"), "0123456");
    assert_eq!(short_sha("abc"), "abc");
}

#[test]
fn panels_take_results() {
    let mut shell = QueryShellState::new();
    let mut p = Promise::Ready(Ok(QueryResultView {
        columns: vec!["n".to_string()],
        rows: vec![vec!["1".to_string()], vec!["2".to_string()]],
        attempt_id: "att".to_string(),
    }));
    poll_execute(&mut p, &mut shell);
    assert_eq!(shell.status_message.as_deref(), Some("2 rows"));
    assert_eq!(shell.last_attempt_id.as_deref(), Some("att"));
    let mut p: Promise<Result<QueryResultView, String>> = Promise::Failed("boom".to_string());
    poll_execute(&mut p, &mut shell);
    assert_eq!(shell.last_error.as_deref(), Some("boom"));
    assert!(matches!(p, Promise::Idle));

    let mut agent = AgentPanelState::new();
    agent.message = "  ".to_string();
    assert!(!agent.can_send());
    let mut p: Promise<am_workspace::agent::AgentChatResponse> = Promise::Failed("down".to_string());
    poll_chat(&mut p, &mut agent, "hi");
    assert_eq!(agent.transcript, vec![(false, "Error: down".to_string())]);

    let mut diag = DiagnosticsPanelState::new();
    let mut p: Promise<String> = Promise::Ready("att_1".to_string());
    poll_ping(&mut p, &mut diag);
    assert_eq!(diag.last_ping_attempt_id.as_deref(), Some("att_1"));
    assert_eq!(diag.status_message.as_deref(), Some("Diagnostics ping OK."));
    let mut p: Promise<am_workspace::diagnostics::DiagnosticsHealthResponse> = Promise::Failed("x".to_string());
    poll_health(&mut p, &mut diag);
    assert_eq!(diag.status_message.as_deref(), Some("Health failed: x"));

    assert_eq!(truncate_label("abcdef", 3), "abc…");
    assert_eq!(truncate_label("ab", 3), "ab");
}
