//! The workspace session behind the UI: the notes and boards it knows, which view is
//! shown, and what it asks the server for. The host performs each request and hands the
//! answer back as an event; the session decides what follows. Times are in milliseconds.
use vstd::prelude::*;

use crate::canvas::{derive_artifacts_at, is_artifacts, opt_str, CanvasArtifacts};
use crate::canvas_state::{hydrated, note_card_spec, CanvasContent, CanvasEditState, ContentView};
use crate::editor::{status_after, EditorOutput, EditorState, SaveRequest};
use crate::model::{
    cat, opt_view, own, same_board, same_note, strs_view, GraphResponse, NoteHistoryItem,
    WorkspaceBoard, WorkspaceNoteDocument,
};
use crate::preview::preview_panics;
use crate::sidebar::{SidebarOutput, SidebarState};

verus! {

/// The main view.
#[derive(Debug, Clone, Copy, PartialEq, Eq, Structural)]
pub enum AppView {
    Editor,
    Canvas,
    Graph,
}

/// Where the periodic fetch of the note list stands.
#[derive(Debug, Clone, Copy, PartialEq, Eq, Structural)]
pub enum FetchState {
    /// A fetch may start.
    Idle,
    /// A fetch is under way.
    Pending,
    /// The last fetch failed; no new one starts until the notes change.
    Failed,
}

/// A request to the server.
#[derive(Debug)]
pub enum SessionRequest {
    FetchNotes,
    FetchBoards,
    FetchNote(String),
    FetchBoard(String),
    CreateNote { title: String, body_markdown: String, tags: Vec<String> },
    UpdateNote { note_id: String, title: String, body_markdown: String, tags: Vec<String> },
    FetchHistory(String),
    RevertNote { note_id: String, revision: String },
    CreateBoard { workspace_id: String, title: String },
    SaveBoard { board_id: String, title: String, content: CanvasContent, artifacts: CanvasArtifacts },
    FetchGraph,
}

/// An answer from the server.
#[derive(Debug)]
pub enum SessionEvent {
    NotesLoaded(Vec<WorkspaceNoteDocument>),
    NotesFailed,
    NoteLoaded(WorkspaceNoteDocument),
    NoteCreated(WorkspaceNoteDocument),
    NoteSaved(WorkspaceNoteDocument),
    HistoryLoaded(Vec<NoteHistoryItem>),
    NoteReverted(WorkspaceNoteDocument),
    /// A board and the canvas content read from its document.
    BoardLoaded(WorkspaceBoard, CanvasContent),
    BoardSaved(WorkspaceBoard),
    BoardSaveFailed,
    /// A new board and the canvas content read from its document.
    BoardCreated(WorkspaceBoard, CanvasContent),
    BoardsLoaded(Vec<WorkspaceBoard>),
    GraphLoaded(GraphResponse),
    GraphFailed(String),
}

/// What the canvas asked for in a frame.
#[derive(Debug)]
pub struct CanvasRequests {
    /// Save the content of this board.
    pub save_board: Option<(String, CanvasContent)>,
    /// Create a note to place where the pointer was (the host keeps the position).
    pub create_note_at: bool,
    /// Open this note in the editor.
    pub open_note_id: Option<String>,
}

/// The index of the first note with id `id`.
pub open spec fn note_index(notes: Seq<WorkspaceNoteDocument>, id: Seq<char>) -> Option<int> {
    if exists|i: int| 0 <= i < notes.len() && #[trigger] notes[i].note_id@ == id {
        Some(
            choose|i: int|
                0 <= i < notes.len() && #[trigger] notes[i].note_id@ == id && forall|j: int|
                    0 <= j < i ==> notes[j].note_id@ != id,
        )
    } else {
        None
    }
}

/// `after` is `before` with the first note with the id of `n`, if any, replaced by `n`.
pub open spec fn note_replaced(
    before: Seq<WorkspaceNoteDocument>,
    after: Seq<WorkspaceNoteDocument>,
    n: WorkspaceNoteDocument,
) -> bool {
    &&& after.len() == before.len()
    &&& forall|i: int|
        0 <= i < before.len() ==> if note_index(before, n.note_id@) == Some(i) {
            same_note(#[trigger] after[i], n)
        } else {
            after[i] == before[i]
        }
}

/// The workspace session.
pub struct WorkspaceSession {
    pub sidebar: SidebarState,
    pub editor: EditorState,
    pub canvas: CanvasEditState,
    pub notes: Vec<WorkspaceNoteDocument>,
    pub boards: Vec<WorkspaceBoard>,
    pub app_view: AppView,
    pub current_board: Option<WorkspaceBoard>,
    pub bootstrapped: bool,
    pub notes_fetch: FetchState,
    pub loading_note_id: Option<String>,
    /// A note asked for from the canvas is awaited.
    pub pending_canvas_note: bool,
    /// The canvas position for that note is held by the host.
    pub pending_note_placed: bool,
    pub graph: Option<GraphResponse>,
    pub graph_loaded: bool,
    pub graph_status: Option<String>,
}

fn find_note(notes: &Vec<WorkspaceNoteDocument>, id: &str) -> (r: Option<usize>)
    ensures
        match r {
            Some(i) => note_index(notes@, id@) == Some(i as int) && i < notes@.len(),
            None => note_index(notes@, id@) is None,
        },
{
    let mut i: usize = 0;
    while i < notes.len()
        invariant
            i <= notes@.len(),
            forall|j: int| 0 <= j < i ==> notes@[j].note_id@ != id@,
        decreases notes@.len() - i,
    {
        if crate::text::str_eq(notes[i].note_id.as_str(), id) {
            proof {
                let k = choose|k: int|
                    0 <= k < notes@.len() && #[trigger] notes@[k].note_id@ == id@ && forall|j: int|
                        0 <= j < k ==> notes@[j].note_id@ != id@;
                assert(k == i) by {
                    if k < i {
                    } else if k > i {
                    }
                }
            }
            return Some(i);
        }
        i = i + 1;
    }
    None
}

fn replace_note(notes: &mut Vec<WorkspaceNoteDocument>, n: WorkspaceNoteDocument)
    ensures
        note_replaced(old(notes)@, final(notes)@, n),
{
    match find_note(notes, n.note_id.as_str()) {
        Some(i) => {
            let ghost nn = n;
            notes.set(i, n);
            assert(same_note(notes@[i as int], nn));
        },
        None => {},
    }
}

/// Whether the selected note is missing from a freshly loaded note list.
pub open spec fn selection_gone(selected: Option<String>, ns: Seq<WorkspaceNoteDocument>) -> bool {
    selected matches Some(id) && !(exists|i: int| 0 <= i < ns.len() && #[trigger] ns[i].note_id@ == id@)
}

/// The editor with its note unloaded: no note, empty drafts and history, clean, history
/// panel closed, status message kept.
pub open spec fn editor_unloaded(before: EditorState, after: EditorState) -> bool {
    &&& after.note is None
    &&& after.draft_title@.len() == 0
    &&& after.draft_tags@.len() == 0
    &&& after.draft_body@.len() == 0
    &&& !after.dirty
    &&& !after.show_history
    &&& after.history@.len() == 0
    &&& after.status_message == before.status_message
}

impl WorkspaceSession {
    /// Nothing loaded, the editor shown, nothing asked yet.
    pub fn new() -> (r: WorkspaceSession)
        ensures
            r.notes@.len() == 0,
            r.boards@.len() == 0,
            r.app_view == AppView::Editor,
            r.current_board is None,
            !r.bootstrapped,
            r.notes_fetch == FetchState::Idle,
            r.loading_note_id is None,
            !r.pending_canvas_note,
            !r.pending_note_placed,
            r.graph is None,
            !r.graph_loaded,
            r.canvas.wf(),
            r.canvas.content is None,
    {
        WorkspaceSession {
            sidebar: SidebarState::new(),
            editor: EditorState::new(),
            canvas: CanvasEditState::new(),
            notes: Vec::new(),
            boards: Vec::new(),
            app_view: AppView::Editor,
            current_board: None,
            bootstrapped: false,
            notes_fetch: FetchState::Idle,
            loading_note_id: None,
            pending_canvas_note: false,
            pending_note_placed: false,
            graph: None,
            graph_loaded: false,
            graph_status: None,
        }
    }

    /// Lets the note list be fetched again unless a fetch is under way.
    pub fn refresh_notes_after_change(&mut self)
        ensures
            *final(self) == (WorkspaceSession {
                notes_fetch: if old(self).notes_fetch == FetchState::Pending {
                    FetchState::Pending
                } else {
                    FetchState::Idle
                },
                ..*old(self)
            }),
    {
        if self.notes_fetch != FetchState::Pending {
            self.notes_fetch = FetchState::Idle;
        }
    }

    /// One frame: the first frame asks for the notes and the boards; the status timers
    /// run by `dt_ms`; afterwards the note list is asked for again whenever no fetch of it
    /// is under way and the last one did not fail.
    pub fn frame(&mut self, dt_ms: i64) -> (r: Vec<SessionRequest>)
        requires
            0 <= dt_ms,
            old(self).canvas.wf(),
        ensures
            final(self).bootstrapped,
            final(self).canvas.wf(),
            !old(self).bootstrapped ==> r@.len() == 2 && r@[0] is FetchNotes && r@[1] is FetchBoards
                && final(self).notes_fetch == FetchState::Pending,
            old(self).bootstrapped && old(self).notes_fetch == FetchState::Idle ==> r@.len() == 1
                && r@[0] is FetchNotes && final(self).notes_fetch == FetchState::Pending,
            old(self).bootstrapped && old(self).notes_fetch != FetchState::Idle ==> r@.len() == 0
                && final(self).notes_fetch == old(self).notes_fetch,
            final(self).notes == old(self).notes,
            final(self).boards == old(self).boards,
            final(self).app_view == old(self).app_view,
            final(self).editor == (EditorState {
                status_message: status_after(old(self).editor.status_message, dt_ms as int),
                ..old(self).editor
            }),
            final(self).canvas.status_message == status_after(old(self).canvas.status_message, dt_ms as int),
            final(self).canvas.save_debounce_ms == if old(self).canvas.dirty && !old(self).canvas.save_in_flight
                && old(self).canvas.save_debounce_ms > 0 {
                (old(self).canvas.save_debounce_ms - dt_ms) as i64
            } else {
                old(self).canvas.save_debounce_ms
            },
            final(self).canvas.content == old(self).canvas.content,
            final(self).canvas.board_id == old(self).canvas.board_id,
            final(self).canvas.dirty == old(self).canvas.dirty,
            final(self).canvas.save_in_flight == old(self).canvas.save_in_flight,
    {
        let mut out: Vec<SessionRequest> = Vec::new();
        if !self.bootstrapped {
            self.bootstrapped = true;
            self.notes_fetch = FetchState::Pending;
            out.push(SessionRequest::FetchNotes);
            out.push(SessionRequest::FetchBoards);
        }
        self.editor.tick_status(dt_ms);
        self.canvas.tick_status(dt_ms);
        if self.notes_fetch == FetchState::Idle {
            self.notes_fetch = FetchState::Pending;
            out.push(SessionRequest::FetchNotes);
        }
        out
    }
    fn on_notes_loaded(&mut self, ns: Vec<WorkspaceNoteDocument>)
        ensures
            final(self).notes@ == ns@,
            final(self).notes_fetch == FetchState::Idle,
            selection_gone(old(self).sidebar.selected_note_id, ns@) ==> {
                &&& final(self).sidebar == (SidebarState { selected_note_id: None, ..old(self).sidebar })
                &&& editor_unloaded(old(self).editor, final(self).editor)
            },
            !selection_gone(old(self).sidebar.selected_note_id, ns@) ==> final(self).sidebar
                == old(self).sidebar && final(self).editor == old(self).editor,
            final(self).canvas == old(self).canvas,
            final(self).bootstrapped == old(self).bootstrapped,
            final(self).graph_loaded == old(self).graph_loaded,
            final(self).boards == old(self).boards,
            final(self).app_view == old(self).app_view,
            final(self).current_board == old(self).current_board,
    {
        let gone = match &self.sidebar.selected_note_id {
            Some(id) => find_note(&ns, id.as_str()).is_none(),
            None => false,
        };
        self.notes = ns;
        self.notes_fetch = FetchState::Idle;
        if gone {
            self.sidebar.deselect();
            self.editor.unload();
        }
    }

    fn on_note_loaded(&mut self, n: WorkspaceNoteDocument)
        ensures
            final(self).loading_note_id is None,
            final(self).editor.note matches Some(e) && same_note(e, n),
            opt_view(final(self).sidebar.selected_note_id) == Some(n.note_id@),
            note_replaced(old(self).notes@, final(self).notes@, n),
            final(self).canvas == old(self).canvas,
            final(self).bootstrapped == old(self).bootstrapped,
            final(self).graph_loaded == old(self).graph_loaded,
    {
        self.loading_note_id = None;
        self.editor.load_note(&n);
        self.sidebar.select_note(n.note_id.as_str());
        replace_note(&mut self.notes, n);
    }

    fn on_note_created(&mut self, n: WorkspaceNoteDocument, now: i64)
        requires
            old(self).canvas.wf(),
            !preview_panics(n.body_markdown@),
        ensures
            final(self).canvas.wf(),
            final(self).bootstrapped == old(self).bootstrapped,
            final(self).graph_loaded == old(self).graph_loaded,
            final(self).notes@.len() == old(self).notes@.len() + 1,
            final(self).notes@.drop_last() == old(self).notes@,
            same_note(final(self).notes@.last(), n),
            (old(self).pending_canvas_note && old(self).pending_note_placed) ==> {
                &&& !final(self).pending_canvas_note
                &&& !final(self).pending_note_placed
                &&& opt_view(final(self).sidebar.selected_note_id) == Some(n.note_id@)
                &&& (old(self).canvas.content matches Some(c) ==> final(self).canvas.shown() == Some(
                    ContentView { cards: c@.cards.push(note_card_spec(n, now)), ..c@ },
                ))
            },
            !old(self).pending_canvas_note ==> {
                &&& opt_view(final(self).sidebar.selected_note_id) == Some(n.note_id@)
                &&& final(self).editor.note matches Some(e) && same_note(e, n)
                &&& final(self).app_view == AppView::Editor
                &&& final(self).editor.status_message matches Some((m, _)) && m@ == "Note created."@
            },
            final(self).notes_fetch == if old(self).notes_fetch == FetchState::Pending {
                FetchState::Pending
            } else {
                FetchState::Idle
            },
    {
        proof {
            reveal_strlit("Note created.");
        }
        let ghost before = self.notes@;
        self.notes.push(n.copy());
        assert(self.notes@.drop_last() =~= before);
        if self.pending_canvas_note {
            if self.pending_note_placed {
                self.pending_note_placed = false;
                self.canvas.add_note_card_at(&n, now);
                self.sidebar.select_note(n.note_id.as_str());
                self.pending_canvas_note = false;
            }
        } else {
            self.sidebar.select_note(n.note_id.as_str());
            self.editor.load_note(&n);
            self.app_view = AppView::Editor;
            self.editor.set_status(own("Note created."));
        }
        self.refresh_notes_after_change();
    }

    fn on_note_saved(&mut self, n: WorkspaceNoteDocument)
        ensures
            final(self).editor.note matches Some(e) && same_note(e, n),
            note_replaced(old(self).notes@, final(self).notes@, n),
            final(self).editor.status_message matches Some((m, _)) && m@ == "Saved."@,
            final(self).canvas == old(self).canvas,
            final(self).bootstrapped == old(self).bootstrapped,
            final(self).graph_loaded == old(self).graph_loaded,
    {
        proof {
            reveal_strlit("Saved.");
        }
        self.editor.load_note(&n);
        self.editor.set_status(own("Saved."));
        replace_note(&mut self.notes, n);
    }

    fn on_note_reverted(&mut self, n: WorkspaceNoteDocument)
        ensures
            final(self).editor.note matches Some(e) && same_note(e, n),
            note_replaced(old(self).notes@, final(self).notes@, n),
            final(self).editor.status_message matches Some((m, _)) && m@
                == "Reverted to selected revision."@,
            final(self).notes_fetch == if old(self).notes_fetch == FetchState::Pending {
                FetchState::Pending
            } else {
                FetchState::Idle
            },
            final(self).canvas == old(self).canvas,
            final(self).bootstrapped == old(self).bootstrapped,
            final(self).graph_loaded == old(self).graph_loaded,
    {
        proof {
            reveal_strlit("Reverted to selected revision.");
        }
        self.editor.load_note(&n);
        self.editor.set_status(own("Reverted to selected revision."));
        replace_note(&mut self.notes, n);
        self.refresh_notes_after_change();
    }

    fn on_board_loaded(&mut self, b: WorkspaceBoard, c: CanvasContent)
        ensures
            final(self).current_board == Some(b),
            final(self).app_view == AppView::Canvas,
            final(self).canvas.board_id matches Some(id) && id@ == b.board_id@,
            final(self).canvas.shown() matches Some(v) && v.cards == hydrated(c@.cards, b.objects@)
                && v.connectors == c@.connectors,
            !final(self).canvas.dirty,
            final(self).canvas.wf(),
            final(self).bootstrapped == old(self).bootstrapped,
            final(self).graph_loaded == old(self).graph_loaded,
    {
        self.canvas.load_board(b.board_id.as_str(), c, &b.objects);
        self.current_board = Some(b);
        self.app_view = AppView::Canvas;
    }

    fn on_board_saved(&mut self, b: WorkspaceBoard)
        requires
            old(self).canvas.wf(),
        ensures
            final(self).current_board == Some(b),
            !final(self).canvas.dirty,
            !final(self).canvas.save_in_flight,
            final(self).canvas.status_message matches Some((m, t)) && m@ == "Board saved."@ && t == 3000,
            final(self).canvas.wf(),
            final(self).bootstrapped == old(self).bootstrapped,
            final(self).graph_loaded == old(self).graph_loaded,
    {
        proof {
            reveal_strlit("Board saved.");
        }
        self.current_board = Some(b);
        self.canvas.mark_saved();
        self.canvas.status_message = Some((own("Board saved."), 3000));
    }

    fn on_board_created(&mut self, b: WorkspaceBoard, c: CanvasContent)
        ensures
            final(self).boards@.len() == old(self).boards@.len() + 1,
            final(self).boards@.drop_last() == old(self).boards@,
            same_board(final(self).boards@.last(), b),
            final(self).current_board == Some(b),
            final(self).app_view == AppView::Canvas,
            opt_view(final(self).sidebar.selected_board_id) == Some(b.board_id@),
            final(self).canvas.shown() matches Some(v) && v.cards == hydrated(c@.cards, b.objects@)
                && v.connectors == c@.connectors,
            final(self).canvas.wf(),
            final(self).bootstrapped == old(self).bootstrapped,
            final(self).graph_loaded == old(self).graph_loaded,
    {
        let ghost before = self.boards@;
        self.boards.push(b.copy());
        assert(self.boards@.drop_last() =~= before);
        self.canvas.load_board(b.board_id.as_str(), c, &b.objects);
        self.sidebar.select_board(b.board_id.as_str());
        self.current_board = Some(b);
        self.app_view = AppView::Canvas;
    }

    /// Handles an answer from the server at time `now`.
    ///
    /// Notes loaded replace the list (dropping the selection and unloading the editor
    /// when the selected note is gone); a note loaded, saved or reverted is loaded into
    /// the editor and replaces its entry in the list; a created note joins the list and
    /// either lands as a card on the canvas that asked for it or opens in the editor; a
    /// board loaded or created is shown on the canvas; a saved board becomes current and
    /// the canvas clean; a failed save ends the save; a graph is kept or its failure
    /// shown.
    pub fn on_event(&mut self, event: SessionEvent, now: i64)
        requires
            old(self).canvas.wf(),
            event matches SessionEvent::NoteCreated(n) ==> !preview_panics(n.body_markdown@),
        ensures
            final(self).canvas.wf(),
            final(self).bootstrapped == old(self).bootstrapped,
            match event {
                SessionEvent::NotesLoaded(ns) => {
                    &&& final(self).notes@ == ns@
                    &&& final(self).notes_fetch == FetchState::Idle
                    &&& selection_gone(old(self).sidebar.selected_note_id, ns@) ==> {
                        &&& final(self).sidebar == (SidebarState { selected_note_id: None, ..old(self).sidebar })
                        &&& editor_unloaded(old(self).editor, final(self).editor)
                    }
                    &&& !selection_gone(old(self).sidebar.selected_note_id, ns@) ==> final(self).sidebar
                        == old(self).sidebar && final(self).editor == old(self).editor
                },
                SessionEvent::NotesFailed => final(self).notes_fetch == FetchState::Failed
                    && final(self).notes == old(self).notes,
                SessionEvent::NoteLoaded(n) => {
                    &&& final(self).loading_note_id is None
                    &&& final(self).editor.note matches Some(e) && same_note(e, n)
                    &&& opt_view(final(self).sidebar.selected_note_id) == Some(n.note_id@)
                    &&& note_replaced(old(self).notes@, final(self).notes@, n)
                },
                SessionEvent::NoteCreated(n) => {
                    &&& final(self).notes@.len() == old(self).notes@.len() + 1
                    &&& final(self).notes@.drop_last() == old(self).notes@
                    &&& same_note(final(self).notes@.last(), n)
                    &&& (old(self).pending_canvas_note && old(self).pending_note_placed) ==> {
                        &&& !final(self).pending_canvas_note
                        &&& !final(self).pending_note_placed
                        &&& opt_view(final(self).sidebar.selected_note_id) == Some(n.note_id@)
                        &&& (old(self).canvas.content matches Some(c) ==> final(self).canvas.shown()
                            == Some(ContentView { cards: c@.cards.push(note_card_spec(n, now)), ..c@ }))
                    }
                    &&& !old(self).pending_canvas_note ==> {
                        &&& opt_view(final(self).sidebar.selected_note_id) == Some(n.note_id@)
                        &&& final(self).editor.note matches Some(e) && same_note(e, n)
                        &&& final(self).app_view == AppView::Editor
                        &&& final(self).editor.status_message matches Some((m, _)) && m@ == "Note created."@
                    }
                    &&& final(self).notes_fetch == if old(self).notes_fetch == FetchState::Pending {
                        FetchState::Pending
                    } else {
                        FetchState::Idle
                    }
                },
                SessionEvent::NoteSaved(n) => {
                    &&& final(self).editor.note matches Some(e) && same_note(e, n)
                    &&& note_replaced(old(self).notes@, final(self).notes@, n)
                    &&& final(self).editor.status_message matches Some((m, _)) && m@ == "Saved."@
                },
                SessionEvent::HistoryLoaded(items) => final(self).editor.history@ == items@,
                SessionEvent::NoteReverted(n) => {
                    &&& final(self).editor.note matches Some(e) && same_note(e, n)
                    &&& note_replaced(old(self).notes@, final(self).notes@, n)
                    &&& final(self).editor.status_message matches Some((m, _)) && m@
                        == "Reverted to selected revision."@
                    &&& final(self).notes_fetch == if old(self).notes_fetch == FetchState::Pending {
                        FetchState::Pending
                    } else {
                        FetchState::Idle
                    }
                },
                SessionEvent::BoardLoaded(b, c) => {
                    &&& final(self).current_board == Some(b)
                    &&& final(self).app_view == AppView::Canvas
                    &&& final(self).canvas.board_id matches Some(id) && id@ == b.board_id@
                    &&& final(self).canvas.shown() matches Some(v) && v.cards == hydrated(c@.cards, b.objects@)
                        && v.connectors == c@.connectors
                    &&& !final(self).canvas.dirty
                },
                SessionEvent::BoardSaved(b) => {
                    &&& final(self).current_board == Some(b)
                    &&& !final(self).canvas.dirty
                    &&& !final(self).canvas.save_in_flight
                    &&& final(self).canvas.status_message matches Some((m, t)) && m@ == "Board saved."@
                        && t == 3000
                },
                SessionEvent::BoardSaveFailed => {
                    &&& !final(self).canvas.save_in_flight
                    &&& final(self).canvas.dirty == old(self).canvas.dirty
                    &&& final(self).canvas.status_message matches Some((m, t)) && m@
                        == "Board save failed."@ && t == 3000
                },
                SessionEvent::BoardCreated(b, c) => {
                    &&& final(self).boards@.len() == old(self).boards@.len() + 1
                    &&& final(self).boards@.drop_last() == old(self).boards@
                    &&& same_board(final(self).boards@.last(), b)
                    &&& final(self).current_board == Some(b)
                    &&& final(self).app_view == AppView::Canvas
                    &&& opt_view(final(self).sidebar.selected_board_id) == Some(b.board_id@)
                    &&& final(self).canvas.shown() matches Some(v) && v.cards == hydrated(c@.cards, b.objects@)
                        && v.connectors == c@.connectors
                },
                SessionEvent::BoardsLoaded(bs) => final(self).boards@ == bs@,
                SessionEvent::GraphLoaded(g) => {
                    &&& final(self).graph == Some(g)
                    &&& final(self).graph_loaded
                    &&& final(self).graph_status matches Some(m) && m@ == "Graph loaded."@
                },
                SessionEvent::GraphFailed(msg) => {
                    &&& final(self).graph_status matches Some(m) && m@ == "Graph load failed: "@ + msg@
                    &&& final(self).graph_loaded == old(self).graph_loaded
                },
            },
    {
        proof {
            reveal_strlit("Board save failed.");
            reveal_strlit("Graph loaded.");
            reveal_strlit("Graph load failed: ");
        }
        match event {
            SessionEvent::NotesLoaded(ns) => self.on_notes_loaded(ns),
            SessionEvent::NotesFailed => {
                self.notes_fetch = FetchState::Failed;
            },
            SessionEvent::NoteLoaded(n) => self.on_note_loaded(n),
            SessionEvent::NoteCreated(n) => self.on_note_created(n, now),
            SessionEvent::NoteSaved(n) => self.on_note_saved(n),
            SessionEvent::HistoryLoaded(items) => {
                self.editor.history = items;
            },
            SessionEvent::NoteReverted(n) => self.on_note_reverted(n),
            SessionEvent::BoardLoaded(b, c) => self.on_board_loaded(b, c),
            SessionEvent::BoardSaved(b) => self.on_board_saved(b),
            SessionEvent::BoardSaveFailed => {
                self.canvas.save_in_flight = false;
                self.canvas.status_message = Some((own("Board save failed."), 3000));
            },
            SessionEvent::BoardCreated(b, c) => self.on_board_created(b, c),
            SessionEvent::BoardsLoaded(bs) => {
                self.boards = bs;
            },
            SessionEvent::GraphLoaded(g) => {
                self.graph = Some(g);
                self.graph_loaded = true;
                self.graph_status = Some(own("Graph loaded."));
            },
            SessionEvent::GraphFailed(msg) => {
                self.graph_status = Some(cat("Graph load failed: ", msg.as_str()));
            },
        }
    }
}

/// Whether `r` is the request that saves the draft `req`: a new note with its title, body
/// and tags when the id is empty or `new`, else an update of the note with its id, title,
/// body and tags.
pub open spec fn saves_draft(req: SaveRequest, r: SessionRequest) -> bool {
    &&& (req.note_id@ == "new"@ || req.note_id@.len() == 0) ==> (r matches SessionRequest::CreateNote {
        title,
        body_markdown,
        tags,
    } && title == req.title && body_markdown == req.body_markdown && tags == req.tags)
    &&& !(req.note_id@ == "new"@ || req.note_id@.len() == 0) ==> (r matches SessionRequest::UpdateNote {
        note_id,
        title,
        body_markdown,
        tags,
    } && note_id == req.note_id && title == req.title && body_markdown == req.body_markdown
        && tags == req.tags)
}

/// The request that saves an editor draft: a new note when the id is empty or `new`,
/// else an update of the note.
pub fn save_note_request(req: SaveRequest) -> (r: SessionRequest)
    ensures
        saves_draft(req, r),
{
    let is_new = crate::text::str_eq(req.note_id.as_str(), "new") || req.note_id.as_str().unicode_len()
        == 0;
    if is_new {
        SessionRequest::CreateNote { title: req.title, body_markdown: req.body_markdown, tags: req.tags }
    } else {
        SessionRequest::UpdateNote {
            note_id: req.note_id,
            title: req.title,
            body_markdown: req.body_markdown,
            tags: req.tags,
        }
    }
}

/// The title of the note created from the canvas when the list holds `count` notes.
pub open spec fn canvas_note_title(count: nat) -> Seq<char> {
    "Canvas note "@ + crate::text::decimal(count + 1)
}

impl WorkspaceSession {
    /// Acts on what the sidebar asked for: the graph view (fetching the graph the first
    /// time), a note to load into the editor, unloading the editor, a note or board to
    /// create, a board to show, or leaving the canvas.
    pub fn on_sidebar(&mut self, out: SidebarOutput) -> (r: Vec<SessionRequest>)
        requires
            old(self).canvas.wf(),
        ensures
            final(self).canvas.wf(),
            out.open_graph && !old(self).graph_loaded ==> r@.len() > 0 && r@[0] is FetchGraph,
            out.selected_note_id matches Some(id) ==> opt_view(final(self).loading_note_id) == Some(id@)
                && exists|i: int| 0 <= i < r@.len() && #[trigger] r@[i] == SessionRequest::FetchNote(id),
            out.create_note_title matches Some(t) ==> !final(self).pending_canvas_note && exists|i: int|
                0 <= i < r@.len() && (#[trigger] r@[i] matches SessionRequest::CreateNote {
                    title,
                    body_markdown,
                    tags,
                } && title == t && body_markdown@.len() == 0 && tags@.len() == 0),
            out.selected_board_id matches Some(b) ==> exists|i: int| 0 <= i < r@.len() && #[trigger] r@[i]
                == SessionRequest::FetchBoard(b),
            out.create_board_title matches Some(t) ==> exists|i: int| 0 <= i < r@.len() && (
            #[trigger] r@[i] matches SessionRequest::CreateBoard { workspace_id, title } && workspace_id@
                == "default"@ && title == t),
            out.deselected ==> final(self).editor.note is None,
            out.board_deselected ==> final(self).app_view == AppView::Editor && final(self).current_board
                is None && final(self).canvas.content is None,
            !out.board_deselected && out.selected_note_id is Some ==> final(self).app_view == AppView::Editor,
            !out.board_deselected && out.selected_note_id is None && out.open_graph ==> final(self).app_view
                == AppView::Graph,
            !out.board_deselected && out.selected_note_id is None && !out.open_graph ==> final(self).app_view
                == old(self).app_view,
            r@.len() == (if out.open_graph && !old(self).graph_loaded { 1int } else { 0int }) + (if out.selected_note_id is Some { 1int } else { 0int })
                + (if out.create_note_title is Some { 1int } else { 0int }) + (if out.selected_board_id is Some { 1int } else { 0int })
                + (if out.create_board_title is Some { 1int } else { 0int }),
            final(self).notes == old(self).notes,
    {
        let ghost sel = out.selected_note_id;
        let ghost selb = out.selected_board_id;
        let mut r: Vec<SessionRequest> = Vec::new();
        if out.open_graph {
            self.app_view = AppView::Graph;
            if !self.graph_loaded {
                r.push(SessionRequest::FetchGraph);
            }
        }
        let ghost n0 = r@.len();
        if let Some(note_id) = out.selected_note_id {
            self.loading_note_id = Some(own(note_id.as_str()));
            r.push(SessionRequest::FetchNote(note_id));
            self.app_view = AppView::Editor;
        }
        if out.deselected {
            self.editor.unload();
        }
        let ghost n1 = r@.len();
        if let Some(title) = out.create_note_title {
            self.pending_canvas_note = false;
            r.push(SessionRequest::CreateNote { title, body_markdown: String::new(), tags: Vec::new() });
        }
        let ghost n2 = r@.len();
        if let Some(board_id) = out.selected_board_id {
            r.push(SessionRequest::FetchBoard(board_id));
        }
        if out.board_deselected {
            self.app_view = AppView::Editor;
            self.canvas = CanvasEditState::new();
            self.current_board = None;
        }
        let ghost n3 = r@.len();
        if let Some(title) = out.create_board_title {
            r.push(SessionRequest::CreateBoard { workspace_id: own("default"), title });
        }
        proof {
            reveal_strlit("default");
            match sel {
                Some(id) => { assert(r@[n0 as int] == SessionRequest::FetchNote(id)); },
                None => {},
            }
            if out.create_note_title is Some {
                assert(r@[n1 as int] is CreateNote);
            }
            match selb {
                Some(b) => { assert(r@[n2 as int] == SessionRequest::FetchBoard(b)); },
                None => {},
            }
            if out.create_board_title is Some {
                assert(r@[n3 as int] is CreateBoard);
            }
        }
        r
    }

    /// Acts on what the canvas asked for at time `now`: saving a board (its content and
    /// the board rows derived from it, in the current board's workspace and project, or
    /// `default`), creating a note to place on the canvas, or opening a note.
    pub fn on_canvas(&mut self, out: CanvasRequests, now: i64) -> (r: Vec<SessionRequest>)
        requires
            old(self).canvas.wf(),
            old(self).notes@.len() < usize::MAX,
        ensures
            final(self).canvas.wf(),
            out.save_board matches Some((board_id, content)) ==> r@.len() > 0 && (r@[0] matches SessionRequest::SaveBoard {
                board_id: b,
                title,
                content: c,
                artifacts,
            } && b == board_id && c == content && title@ == (match old(self).current_board {
                Some(cb) => cb.title@,
                None => Seq::<char>::empty(),
            }) && is_artifacts(
                artifacts,
                content.cards@,
                content.connectors@,
                board_id@,
                match old(self).current_board {
                    Some(cb) => cb.workspace_id@,
                    None => "default"@,
                },
                match old(self).current_board {
                    Some(cb) => opt_view(cb.project_id),
                    None => None,
                },
                now,
            )),
            out.create_note_at ==> final(self).pending_canvas_note && final(self).pending_note_placed
                && exists|i: int| 0 <= i < r@.len() && (#[trigger] r@[i] matches SessionRequest::CreateNote {
                    title,
                    body_markdown,
                    tags,
                } && title@ == canvas_note_title(old(self).notes@.len()) && body_markdown@
                    == "# Canvas note\n\nCreated from the workspace canvas."@ && strs_view(tags@) == seq![
                    "workspace"@,
                    "canvas"@,
                ]),
            out.open_note_id matches Some(id) ==> opt_view(final(self).loading_note_id) == Some(id@)
                && final(self).app_view == AppView::Editor && exists|i: int| 0 <= i < r@.len()
                && #[trigger] r@[i] == SessionRequest::FetchNote(id),
            out.open_note_id is None ==> final(self).app_view == old(self).app_view,
            r@.len() == (if out.save_board is Some { 1int } else { 0int }) + (if out.create_note_at { 1int } else { 0int })
                + (if out.open_note_id is Some { 1int } else { 0int }),
            final(self).notes == old(self).notes,
            final(self).current_board == old(self).current_board,
    {
        let ghost open = out.open_note_id;
        let mut r: Vec<SessionRequest> = Vec::new();
        if let Some((board_id, content)) = out.save_board {
            let (workspace_id, project_id, title) = match &self.current_board {
                Some(b) => (own(b.workspace_id.as_str()), crate::model::clone_opt(&b.project_id), own(b.title.as_str())),
                None => (own("default"), None, String::new()),
            };
            let project: Option<&str> = match &project_id {
                Some(p) => Some(p.as_str()),
                None => None,
            };
            proof {
                reveal_strlit("default");
            }
            let artifacts = derive_artifacts_at(
                &content.cards,
                &content.connectors,
                board_id.as_str(),
                workspace_id.as_str(),
                project,
                now,
            );
            assert(opt_str(project) == opt_view(project_id));
            r.push(SessionRequest::SaveBoard { board_id, title, content, artifacts });
        }
        let ghost n0 = r@.len();
        if out.create_note_at {
            self.pending_note_placed = true;
            self.pending_canvas_note = true;
            let count = self.notes.len();
            let digits = crate::text::string_of(&crate::text::fmt_usize(count + 1));
            let title = cat("Canvas note ", digits.as_str());
            let tags = vec![own("workspace"), own("canvas")];
            proof {
                reveal_strlit("workspace");
                reveal_strlit("canvas");
                assert(strs_view(tags@) =~= seq!["workspace"@, "canvas"@]);
            }
            r.push(
                SessionRequest::CreateNote {
                    title,
                    body_markdown: own("# Canvas note\n\nCreated from the workspace canvas."),
                    tags,
                },
            );
        }
        let ghost n1 = r@.len();
        if let Some(note_id) = out.open_note_id {
            self.loading_note_id = Some(own(note_id.as_str()));
            r.push(SessionRequest::FetchNote(note_id));
            self.app_view = AppView::Editor;
        }
        proof {
            if out.create_note_at {
                assert(r@[n0 as int] is CreateNote);
            }
            match open {
                Some(id) => { assert(r@[n1 as int] == SessionRequest::FetchNote(id)); },
                None => {},
            }
        }
        r
    }

    /// Acts on what the editor asked for: saving the draft, fetching a note's history,
    /// or reverting a note to a revision.
    pub fn on_editor(&mut self, out: EditorOutput) -> (r: Vec<SessionRequest>)
        ensures
            r@.len() == (if out.save_note is Some { 1int } else { 0int }) + (if out.fetch_history is Some { 1int } else { 0int })
                + (if out.revert_request is Some { 1int } else { 0int }),
            out.fetch_history matches Some(id) ==> r@[if out.save_note is Some { 1int } else { 0int }]
                == SessionRequest::FetchHistory(id),
            out.revert_request matches Some((id, rev)) ==> r@.last() == (SessionRequest::RevertNote {
                note_id: id,
                revision: rev,
            }),
            out.save_note matches Some(req) ==> saves_draft(req, r@[0]),
            *final(self) == *old(self),
    {
        let ghost hist = out.fetch_history;
        let ghost save = out.save_note;
        let mut r: Vec<SessionRequest> = Vec::new();
        if let Some(req) = out.save_note {
            r.push(save_note_request(req));
        }
        let ghost first = r@;
        let ghost n0 = r@.len();
        if let Some(note_id) = out.fetch_history {
            r.push(SessionRequest::FetchHistory(note_id));
        }
        if let Some((note_id, revision)) = out.revert_request {
            r.push(SessionRequest::RevertNote { note_id, revision });
        }
        proof {
            match hist {
                Some(id) => { assert(r@[n0 as int] == SessionRequest::FetchHistory(id)); },
                None => {},
            }
            if let Some(req) = save {
                assert(r@[0] == first[0]);
            }
        }
        r
    }
}

} // verus!
