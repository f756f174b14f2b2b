use am_workspace::canvas::{CanvasCard, CanvasConnector, CanvasObjectKind};
use am_workspace::canvas_state::{note_card, CanvasContent, CanvasEditState};
use am_workspace::model::WorkspaceBoardObject;
use am_workspace::store::note_record;

fn card(id: &str, note: Option<&str>) -> CanvasCard {
    CanvasCard {
        id: id.to_string(),
        kind: CanvasObjectKind::NoteCard,
        note_id: note.map(|s| s.to_string()),
        title: format!("card {id}"),
        summary: String::new(),
        markdown_preview: String::new(),
        tags: Vec::new(),
        locked: false,
    }
}

fn link(id: &str, from: &str, to: &str) -> CanvasConnector {
    CanvasConnector {
        id: id.to_string(),
        from_object_id: from.to_string(),
        to_object_id: to.to_string(),
        relation_intent: "linked".to_string(),
        label: String::new(),
    }
}

fn row(object_id: &str, note: Option<&str>) -> WorkspaceBoardObject {
    WorkspaceBoardObject {
        object_id: object_id.to_string(),
        board_id: "b1".to_string(),
        workspace_id: "ws".to_string(),
        project_id: None,
        object_type: "note_card".to_string(),
        title: None,
        summary: None,
        note_id: note.map(|s| s.to_string()),
        asset_id: None,
        artifact_id: None,
        graph_entity_name: None,
        graph_source_id: None,
        tags: Vec::new(),
        ingest_eligible: true,
        locked: false,
        created_at: 0,
        updated_at: 0,
    }
}

fn loaded() -> CanvasEditState {
    let mut st = CanvasEditState::new();
    let content = CanvasContent {
        cards: vec![card("a", None), card("b", Some("n-b")), card("c", None)],
        connectors: vec![link("ab", "a", "b"), link("bc", "b", "c"), link("ca", "c", "a")],
    };
    st.load_board("b1", content, &vec![row("a", Some("n-a")), row("b", Some("other")), row("zz", Some("n-z"))]);
    st
}

#[test]
fn load_board_hydrates_note_ids() {
    let st = loaded();
    let c = st.content.as_ref().unwrap();
    assert_eq!(c.cards[0].note_id.as_deref(), Some("n-a"));
    assert_eq!(c.cards[1].note_id.as_deref(), Some("n-b"));
    assert_eq!(c.cards[2].note_id, None);
    assert_eq!(st.board_id.as_deref(), Some("b1"));
    assert!(!st.dirty);
    assert_eq!(st.undo_depth(), 0);
}

#[test]
fn delete_card_detaches_connectors_and_undo_restores() {
    let mut st = loaded();
    st.selected_object_id = Some("a".to_string());
    st.delete_selection();
    {
        let c = st.content.as_ref().unwrap();
        assert_eq!(c.cards.iter().map(|x| x.id.as_str()).collect::<Vec<_>>(), vec!["b", "c"]);
        assert_eq!(c.connectors.iter().map(|x| x.id.as_str()).collect::<Vec<_>>(), vec!["bc"]);
    }
    assert!(st.dirty);
    assert_eq!(st.selected_object_id, None);
    assert_eq!(st.status_message.as_ref().map(|m| m.0.as_str()), Some("Card deleted"));
    assert_eq!(st.undo_depth(), 1);
    st.undo();
    let c = st.content.as_ref().unwrap();
    assert_eq!(c.cards.len(), 3);
    assert_eq!(c.connectors.len(), 3);
    assert_eq!(st.status_message.as_ref().map(|m| m.0.as_str()), Some("Undone"));
    st.undo();
    assert_eq!(st.status_message.as_ref().map(|m| m.0.as_str()), Some("Nothing to undo"));
}

#[test]
fn delete_connector_first() {
    let mut st = loaded();
    st.selected_connector_id = Some("bc".to_string());
    st.selected_object_id = Some("a".to_string());
    st.delete_selection();
    let c = st.content.as_ref().unwrap();
    assert_eq!(c.cards.len(), 3);
    assert_eq!(c.connectors.iter().map(|x| x.id.as_str()).collect::<Vec<_>>(), vec!["ab", "ca"]);
    assert_eq!(st.selected_object_id.as_deref(), Some("a"));
    assert_eq!(st.status_message.as_ref().map(|m| m.0.as_str()), Some("Connector deleted"));
}

#[test]
fn undo_history_is_bounded() {
    let mut st = loaded();
    let note = note_record("n-1".to_string(), "ws", "Note", "Body text", vec![], None, 1);
    for i in 0..60 {
        st.add_note_card_at(&note, i);
    }
    assert_eq!(st.undo_depth(), 50);
    assert_eq!(st.content.as_ref().unwrap().cards.len(), 63);
    st.undo();
    assert_eq!(st.content.as_ref().unwrap().cards.len(), 62);
}

#[test]
fn note_card_and_sync() {
    let mut note = note_record("n-b".to_string(), "ws", "Fresh", "# Head\n\nSome body", vec!["t".to_string()], None, 1);
    let c = note_card(&note, 42);
    assert_eq!(c.id, "canvas-note-n-b-42");
    assert_eq!(c.kind, CanvasObjectKind::NoteCard);
    assert_eq!(c.note_id.as_deref(), Some("n-b"));
    assert!(!c.locked);
    let mut st = loaded();
    note.summary = Some("sum".to_string());
    st.sync_note_card_from_note(&note);
    let cards = &st.content.as_ref().unwrap().cards;
    assert_eq!(cards[1].title, "Fresh");
    assert_eq!(cards[1].summary, "sum");
    assert_eq!(cards[1].tags, vec!["t".to_string()]);
    assert_eq!(cards[1].markdown_preview, c.markdown_preview);
    assert_eq!(cards[0].title, "card a");
    assert!(st.dirty);
    let mut clean = loaded();
    let other = note_record("n-none".to_string(), "ws", "X", "", vec![], None, 1);
    clean.sync_note_card_from_note(&other);
    assert!(!clean.dirty);
}

#[test]
fn save_debounce_and_status_timer() {
    let mut st = loaded();
    st.selected_object_id = Some("c".to_string());
    st.delete_selection();
    assert_eq!(st.save_debounce_ms, 2000);
    assert!(!st.save_debounce_elapsed());
    st.tick_status(1500);
    assert_eq!(st.save_debounce_ms, 500);
    assert!(st.status_message.is_some());
    st.tick_status(600);
    assert!(st.save_debounce_elapsed());
    st.tick_status(1000);
    assert!(st.status_message.is_none());
    st.begin_save();
    assert!(!st.save_debounce_elapsed());
    st.mark_saved();
    assert!(!st.dirty && !st.save_in_flight);
    let saved = st.save_document().unwrap();
    assert_eq!(saved.cards.len(), 2);
}

#[test]
fn sync_all_refreshes_every_shown_note() {
    let a = note_record("n-a".to_string(), "ws", "Alpha", "", vec![], None, 1);
    let b = note_record("n-b".to_string(), "ws", "Beta", "", vec![], None, 1);
    let mut st = loaded();
    st.sync_all_note_cards(&vec![a.clone(), b]);
    let cards = &st.content.as_ref().unwrap().cards;
    assert_eq!(cards[0].title, "Alpha");
    assert_eq!(cards[1].title, "Beta");
    assert!(st.dirty);
    assert_eq!(st.save_debounce_ms, 2000);
    let mut clean = loaded();
    clean.sync_all_note_cards(&vec![note_record("n-x".to_string(), "ws", "X", "", vec![], None, 1)]);
    assert!(!clean.dirty);
    assert_eq!(clean.save_debounce_ms, 0);
    let mut empty = CanvasEditState::new();
    empty.sync_all_note_cards(&vec![a]);
    assert!(empty.content.is_none() && !empty.dirty);
}

#[test]
fn connect_cards_adds_a_related_connector() {
    let mut st = loaded();
    let before = st.content.as_ref().unwrap().connectors.len();
    st.connect_cards("a", "c", "k-new".to_string());
    let conns = &st.content.as_ref().unwrap().connectors;
    assert_eq!(conns.len(), before + 1);
    let k = conns.last().unwrap();
    assert_eq!((k.id.as_str(), k.from_object_id.as_str(), k.to_object_id.as_str()), ("k-new", "a", "c"));
    assert_eq!(k.relation_intent, "related_to");
    assert!(st.dirty);
    assert_eq!(st.save_debounce_ms, 2000);
    assert_eq!(st.status_message.as_ref().map(|m| m.0.as_str()), Some("Connector created"));
    assert_eq!(st.undo_depth(), 1);
    let mut same = loaded();
    same.connect_cards("a", "a", "k-x".to_string());
    assert_eq!(same.content.as_ref().unwrap().connectors.len(), before);
    assert!(!same.dirty);
}

#[test]
fn delete_and_undo_set_status_and_timer() {
    let mut st = loaded();
    st.selected_connector_id = Some("ab".to_string());
    st.delete_selection();
    assert_eq!(st.status_message.as_ref().map(|m| m.0.as_str()), Some("Connector deleted"));
    st.selected_object_id = Some("c".to_string());
    st.delete_selection();
    assert_eq!(st.status_message.as_ref().map(|m| m.0.as_str()), Some("Card deleted"));
    st.tick_status(1500);
    st.undo();
    assert_eq!(st.save_debounce_ms, 2000);
    assert_eq!(st.status_message.as_ref().map(|m| m.0.as_str()), Some("Undone"));
}
