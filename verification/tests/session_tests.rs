use am_workspace::canvas::{CanvasCard, CanvasObjectKind};
use am_workspace::canvas_state::CanvasContent;
use am_workspace::editor::{EditorOutput, SaveRequest};
use am_workspace::search::graph_response;
use am_workspace::session::{
    save_note_request, AppView, CanvasRequests, FetchState, SessionEvent, SessionRequest,
    WorkspaceSession,
};
use am_workspace::model::WorkspaceBoardObject;
use am_workspace::sidebar::SidebarOutput;
use am_workspace::store::{board_record, note_record};

fn note(id: &str, title: &str) -> am_workspace::model::WorkspaceNoteDocument {
    note_record(id.to_string(), "default", title, "Body", vec![], None, 1)
}

fn content_with(id: &str) -> CanvasContent {
    CanvasContent {
        cards: vec![CanvasCard {
            id: id.to_string(),
            kind: CanvasObjectKind::TextCard,
            note_id: None,
            title: "T".to_string(),
            summary: String::new(),
            markdown_preview: String::new(),
            tags: vec![],
            locked: false,
        }],
        connectors: vec![],
    }
}

#[test]
fn first_frame_asks_for_notes_and_boards() {
    let mut s = WorkspaceSession::new();
    let r = s.frame(16);
    assert_eq!(r.len(), 2);
    assert!(matches!(r[0], SessionRequest::FetchNotes));
    assert!(matches!(r[1], SessionRequest::FetchBoards));
    assert_eq!(s.notes_fetch, FetchState::Pending);
    assert!(s.frame(16).is_empty());
    s.on_event(SessionEvent::NotesLoaded(vec![note("n1", "One")]), 5);
    assert_eq!(s.notes_fetch, FetchState::Idle);
    let r = s.frame(16);
    assert_eq!(r.len(), 1);
    assert!(matches!(r[0], SessionRequest::FetchNotes));
    s.on_event(SessionEvent::NotesFailed, 6);
    assert!(s.frame(16).is_empty());
    s.refresh_notes_after_change();
    assert_eq!(s.notes_fetch, FetchState::Idle);
}

#[test]
fn selected_note_vanishing_unloads_editor() {
    let mut s = WorkspaceSession::new();
    s.on_event(SessionEvent::NoteLoaded(note("n1", "One")), 1);
    assert_eq!(s.sidebar.selected_note_id.as_deref(), Some("n1"));
    assert!(s.editor.note.is_some());
    s.on_event(SessionEvent::NotesLoaded(vec![note("n2", "Two")]), 2);
    assert_eq!(s.sidebar.selected_note_id, None);
    assert!(s.editor.note.is_none());
}

#[test]
fn note_updates_replace_list_entries() {
    let mut s = WorkspaceSession::new();
    s.on_event(SessionEvent::NotesLoaded(vec![note("n1", "One"), note("n2", "Two")]), 1);
    s.on_event(SessionEvent::NoteSaved(note("n2", "Two v2")), 2);
    assert_eq!(s.notes[1].title, "Two v2");
    assert_eq!(s.editor.status_message.as_ref().map(|m| m.0.as_str()), Some("Saved."));
    s.on_event(SessionEvent::NoteReverted(note("n1", "One old")), 3);
    assert_eq!(s.notes[0].title, "One old");
    assert_eq!(
        s.editor.status_message.as_ref().map(|m| m.0.as_str()),
        Some("Reverted to selected revision.")
    );
    s.on_event(SessionEvent::NoteCreated(note("n3", "Three")), 4);
    assert_eq!(s.notes.len(), 3);
    assert_eq!(s.app_view, AppView::Editor);
    assert_eq!(s.editor.status_message.as_ref().map(|m| m.0.as_str()), Some("Note created."));
}

#[test]
fn canvas_note_flow() {
    let mut s = WorkspaceSession::new();
    let board = board_record("b1".to_string(), "ws-9", "Plan", None, None, 1);
    s.on_event(SessionEvent::BoardLoaded(board, content_with("c1")), 1);
    assert_eq!(s.app_view, AppView::Canvas);
    let r = s.on_canvas(CanvasRequests { save_board: None, create_note_at: true, open_note_id: None }, 2);
    match &r[0] {
        SessionRequest::CreateNote { title, body_markdown, tags } => {
            assert_eq!(title, "Canvas note 1");
            assert_eq!(body_markdown, "# Canvas note\n\nCreated from the workspace canvas.");
            assert_eq!(tags, &vec!["workspace".to_string(), "canvas".to_string()]);
        }
        other => panic!("unexpected {:?}", other),
    }
    assert!(s.pending_canvas_note);
    s.on_event(SessionEvent::NoteCreated(note("n9", "Canvas note 1")), 77);
    assert!(!s.pending_canvas_note);
    let cards = &s.canvas.content.as_ref().unwrap().cards;
    assert_eq!(cards.len(), 2);
    assert_eq!(cards[1].id, "canvas-note-n9-77");
    assert_eq!(s.app_view, AppView::Canvas);
    let r = s.on_canvas(
        CanvasRequests { save_board: Some(("b1".to_string(), content_with("c1"))), create_note_at: false, open_note_id: None },
        88,
    );
    match &r[0] {
        SessionRequest::SaveBoard { board_id, title, artifacts, .. } => {
            assert_eq!(board_id, "b1");
            assert_eq!(title, "Plan");
            assert_eq!(artifacts.objects.len(), 1);
            assert_eq!(artifacts.objects[0].workspace_id, "ws-9");
            assert_eq!(artifacts.objects[0].created_at, 88);
        }
        other => panic!("unexpected {:?}", other),
    }
    s.canvas.begin_save();
    s.on_event(SessionEvent::BoardSaveFailed, 90);
    assert!(!s.canvas.save_in_flight);
    assert_eq!(s.canvas.status_message.as_ref().map(|m| m.0.as_str()), Some("Board save failed."));
}

#[test]
fn sidebar_actions() {
    let mut s = WorkspaceSession::new();
    let mut out = SidebarOutput::new();
    out.open_graph = true;
    out.create_board_title = Some("New board".to_string());
    let r = s.on_sidebar(out);
    assert_eq!(r.len(), 2);
    assert!(matches!(r[0], SessionRequest::FetchGraph));
    match &r[1] {
        SessionRequest::CreateBoard { workspace_id, title } => {
            assert_eq!(workspace_id, "default");
            assert_eq!(title, "New board");
        }
        other => panic!("unexpected {:?}", other),
    }
    assert_eq!(s.app_view, AppView::Graph);
    let g = graph_response("explore", "root", "Graph Explorer", vec![], vec![]);
    s.on_event(SessionEvent::GraphLoaded(g), 3);
    assert!(s.graph_loaded);
    let mut out = SidebarOutput::new();
    out.open_graph = true;
    out.selected_note_id = Some("n1".to_string());
    let r = s.on_sidebar(out);
    assert_eq!(r.len(), 1);
    assert_eq!(s.loading_note_id.as_deref(), Some("n1"));
    assert_eq!(s.app_view, AppView::Editor);
    let board = board_record("b2".to_string(), "default", "B", None, None, 1);
    s.on_event(SessionEvent::BoardCreated(board, content_with("x")), 4);
    assert_eq!(s.boards.len(), 1);
    assert_eq!(s.sidebar.selected_board_id.as_deref(), Some("b2"));
    let mut out = SidebarOutput::new();
    out.board_deselected = true;
    s.on_sidebar(out);
    assert!(s.current_board.is_none());
    assert!(s.canvas.content.is_none());
    s.on_event(SessionEvent::GraphFailed("boom".to_string()), 5);
    assert_eq!(s.graph_status.as_deref(), Some("Graph load failed: boom"));
}

#[test]
fn editor_requests() {
    let create = save_note_request(SaveRequest { note_id: "new".to_string(), title: "T".to_string(), body_markdown: "B".to_string(), tags: vec![] });
    assert!(matches!(create, SessionRequest::CreateNote { .. }));
    let update = save_note_request(SaveRequest { note_id: "n1".to_string(), title: "T".to_string(), body_markdown: "B".to_string(), tags: vec![] });
    assert!(matches!(update, SessionRequest::UpdateNote { .. }));
    let mut s = WorkspaceSession::new();
    let mut out = EditorOutput::new();
    out.fetch_history = Some("n1".to_string());
    out.revert_request = Some(("n1".to_string(), "abc".to_string()));
    let r = s.on_editor(out);
    assert_eq!(r.len(), 2);
    assert!(matches!(&r[0], SessionRequest::FetchHistory(id) if id == "n1"));
    assert!(matches!(&r[1], SessionRequest::RevertNote { note_id, revision } if note_id == "n1" && revision == "abc"));
}

#[test]
fn selected_note_still_listed_keeps_editor() {
    let mut s = WorkspaceSession::new();
    s.on_event(SessionEvent::NoteLoaded(note("n1", "One")), 1);
    s.editor.draft_title = "Edited".to_string();
    s.on_event(SessionEvent::NotesLoaded(vec![note("n2", "Two"), note("n1", "One")]), 2);
    assert_eq!(s.sidebar.selected_note_id.as_deref(), Some("n1"));
    assert_eq!(s.editor.note.as_ref().map(|n| n.note_id.as_str()), Some("n1"));
    assert_eq!(s.editor.draft_title, "Edited");
}

fn note_row(object_id: &str, note_id: &str) -> WorkspaceBoardObject {
    WorkspaceBoardObject {
        object_id: object_id.to_string(),
        board_id: "b1".to_string(),
        workspace_id: "ws".to_string(),
        project_id: None,
        object_type: "note_card".to_string(),
        title: None,
        summary: None,
        note_id: Some(note_id.to_string()),
        asset_id: None,
        artifact_id: None,
        graph_entity_name: None,
        graph_source_id: None,
        tags: Vec::new(),
        ingest_eligible: true,
        locked: false,
        created_at: 0,
        updated_at: 0,
    }
}

#[test]
fn loaded_and_created_boards_show_their_cards_with_note_ids_from_rows() {
    let mut s = WorkspaceSession::new();
    let mut board = board_record("b1".to_string(), "ws", "Plan", None, None, 1);
    board.objects = vec![note_row("c1", "n7"), note_row("other", "n8")];
    s.on_event(SessionEvent::BoardLoaded(board, content_with("c1")), 1);
    let cards = &s.canvas.content.as_ref().unwrap().cards;
    assert_eq!(cards.len(), 1);
    assert_eq!(cards[0].id, "c1");
    assert_eq!(cards[0].note_id.as_deref(), Some("n7"));
    assert_eq!(cards[0].title, "T");

    let mut created = board_record("b2".to_string(), "ws", "New", None, None, 2);
    created.objects = vec![note_row("x", "n9")];
    s.on_event(SessionEvent::BoardCreated(created, content_with("x")), 2);
    let cards = &s.canvas.content.as_ref().unwrap().cards;
    assert_eq!(cards.len(), 1);
    assert_eq!(cards[0].note_id.as_deref(), Some("n9"));
    assert_eq!(s.canvas.board_id.as_deref(), Some("b2"));
}
