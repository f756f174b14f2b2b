//! Editing state of the board canvas, geometry aside: the loaded cards and connectors,
//! the selection, note ids recovered from board rows, note cards refreshed from their
//! notes, deletion, a bounded undo history of content snapshots, and the save
//! debounce. Times are in milliseconds.
use vstd::prelude::*;

use crate::canvas::{CanvasCard, CanvasConnector, CanvasObjectKind};
use crate::model::{cat, clone_opt, clone_strs, opt_view, own, strs_view, WorkspaceBoardObject, WorkspaceNoteDocument};
use crate::preview::{build_markdown_preview, markdown_preview, preview_panics};
use crate::text::fmt_i64;

verus! {

/// How long after the last edit a save is due.
pub const SAVE_DEBOUNCE_MS: i64 = 2000;

/// How long a status message shows.
pub const STATUS_MS: i64 = 3000;

/// How many content snapshots the undo history keeps.
pub const UNDO_LIMIT: usize = 50;

/// Mathematical value of a card.
pub struct CardView {
    pub id: Seq<char>,
    pub kind: CanvasObjectKind,
    pub note_id: Option<Seq<char>>,
    pub title: Seq<char>,
    pub summary: Seq<char>,
    pub markdown_preview: Seq<char>,
    pub tags: Seq<Seq<char>>,
    pub locked: bool,
}

impl View for CanvasCard {
    type V = CardView;

    open spec fn view(&self) -> CardView {
        CardView {
            id: self.id@,
            kind: self.kind,
            note_id: opt_view(self.note_id),
            title: self.title@,
            summary: self.summary@,
            markdown_preview: self.markdown_preview@,
            tags: strs_view(self.tags@),
            locked: self.locked,
        }
    }
}

/// Mathematical value of a connector.
pub struct ConnView {
    pub id: Seq<char>,
    pub from_object_id: Seq<char>,
    pub to_object_id: Seq<char>,
    pub relation_intent: Seq<char>,
    pub label: Seq<char>,
}

impl View for CanvasConnector {
    type V = ConnView;

    open spec fn view(&self) -> ConnView {
        ConnView {
            id: self.id@,
            from_object_id: self.from_object_id@,
            to_object_id: self.to_object_id@,
            relation_intent: self.relation_intent@,
            label: self.label@,
        }
    }
}

/// The cards and connectors of a canvas document.
#[derive(Debug)]
pub struct CanvasContent {
    pub cards: Vec<CanvasCard>,
    pub connectors: Vec<CanvasConnector>,
}

/// Mathematical value of canvas content.
pub struct ContentView {
    pub cards: Seq<CardView>,
    pub connectors: Seq<ConnView>,
}

impl View for CanvasContent {
    type V = ContentView;

    open spec fn view(&self) -> ContentView {
        ContentView {
            cards: self.cards@.map_values(|c: CanvasCard| c@),
            connectors: self.connectors@.map_values(|k: CanvasConnector| k@),
        }
    }
}

fn copy_card(c: &CanvasCard) -> (r: CanvasCard)
    ensures
        r@ == c@,
{
    CanvasCard {
        id: own(c.id.as_str()),
        kind: c.kind,
        note_id: clone_opt(&c.note_id),
        title: own(c.title.as_str()),
        summary: own(c.summary.as_str()),
        markdown_preview: own(c.markdown_preview.as_str()),
        tags: clone_strs(&c.tags),
        locked: c.locked,
    }
}

fn copy_connector(k: &CanvasConnector) -> (r: CanvasConnector)
    ensures
        r@ == k@,
{
    CanvasConnector {
        id: own(k.id.as_str()),
        from_object_id: own(k.from_object_id.as_str()),
        to_object_id: own(k.to_object_id.as_str()),
        relation_intent: own(k.relation_intent.as_str()),
        label: own(k.label.as_str()),
    }
}

impl CanvasContent {
    /// An empty canvas.
    pub fn empty() -> (r: CanvasContent)
        ensures
            r@.cards.len() == 0,
            r@.connectors.len() == 0,
    {
        CanvasContent { cards: Vec::new(), connectors: Vec::new() }
    }

    /// A copy of the content.
    pub fn copy(&self) -> (r: CanvasContent)
        ensures
            r@ == self@,
    {
        let mut cards: Vec<CanvasCard> = Vec::new();
        let mut i: usize = 0;
        while i < self.cards.len()
            invariant
                i <= self.cards@.len(),
                cards@.len() == i,
                forall|k: int| 0 <= k < i ==> #[trigger] cards@[k]@ == self.cards@[k]@,
            decreases self.cards@.len() - i,
        {
            cards.push(copy_card(&self.cards[i]));
            i = i + 1;
        }
        let mut connectors: Vec<CanvasConnector> = Vec::new();
        let mut j: usize = 0;
        while j < self.connectors.len()
            invariant
                j <= self.connectors@.len(),
                connectors@.len() == j,
                forall|k: int| 0 <= k < j ==> #[trigger] connectors@[k]@ == self.connectors@[k]@,
            decreases self.connectors@.len() - j,
        {
            connectors.push(copy_connector(&self.connectors[j]));
            j = j + 1;
        }
        let r = CanvasContent { cards, connectors };
        assert(r@.cards =~= self@.cards);
        assert(r@.connectors =~= self@.connectors);
        r
    }
}

/// A card given the note id of a board row with its id, when it has none.
pub open spec fn hydrate_card(c: CardView, row: WorkspaceBoardObject) -> CardView {
    if c.id == row.object_id@ && c.note_id is None {
        CardView { note_id: opt_view(row.note_id), ..c }
    } else {
        c
    }
}

/// Cards with the note id of board rows filled in where the card has none: each card
/// takes the note id of the last row with its id, when it has no note id of its own.
pub open spec fn hydrated(cards: Seq<CardView>, rows: Seq<WorkspaceBoardObject>) -> Seq<CardView>
    decreases rows.len(),
{
    if rows.len() == 0 {
        cards
    } else {
        hydrated(cards, rows.drop_last()).map_values(|c: CardView| hydrate_card(c, rows.last()))
    }
}

/// Whether a card's id is not `id`.
pub open spec fn card_kept(id: Seq<char>) -> spec_fn(CardView) -> bool {
    |c: CardView| c.id != id
}

/// Whether a connector's id is not `id`.
pub open spec fn connector_kept(id: Seq<char>) -> spec_fn(ConnView) -> bool {
    |k: ConnView| k.id != id
}

/// Whether a connector touches neither end at card `id`.
pub open spec fn connector_off(id: Seq<char>) -> spec_fn(ConnView) -> bool {
    |k: ConnView| k.from_object_id != id && k.to_object_id != id
}

/// Cards other than those with id `id`.
pub open spec fn cards_without(cards: Seq<CardView>, id: Seq<char>) -> Seq<CardView> {
    cards.filter(card_kept(id))
}

/// Connectors other than those with id `id`.
pub open spec fn connectors_without(ks: Seq<ConnView>, id: Seq<char>) -> Seq<ConnView> {
    ks.filter(connector_kept(id))
}

/// Connectors that do not touch card `id`.
pub open spec fn connectors_off(ks: Seq<ConnView>, id: Seq<char>) -> Seq<ConnView> {
    ks.filter(connector_off(id))
}

proof fn lemma_filter_push<A>(s: Seq<A>, p: spec_fn(A) -> bool, x: A)
    ensures
        s.push(x).filter(p) == (if p(x) {
            s.filter(p).push(x)
        } else {
            s.filter(p)
        }),
{
    reveal(Seq::filter);
    assert(s.push(x).drop_last() =~= s);
    assert(s.push(x).last() == x);
}

/// The history after saving `c`: `c` on top, the oldest snapshot dropped beyond the limit.
pub open spec fn bounded_push(stack: Seq<ContentView>, c: ContentView) -> Seq<ContentView> {
    if stack.push(c).len() > 50 {
        stack.push(c).skip(1)
    } else {
        stack.push(c)
    }
}

/// A note card refreshed from its note: title, summary (empty when none), preview and
/// tags of the note.
pub open spec fn refreshed(c: CardView, note: WorkspaceNoteDocument) -> CardView {
    CardView {
        title: note.title@,
        summary: match note.summary {
            Some(s) => s@,
            None => Seq::empty(),
        },
        markdown_preview: markdown_preview(note.body_markdown@),
        tags: strs_view(note.tags@),
        ..c
    }
}

/// The cards after refreshing those that show note `note`.
pub open spec fn synced(cards: Seq<CardView>, note: WorkspaceNoteDocument) -> Seq<CardView> {
    cards.map_values(
        |c: CardView|
            if c.note_id == Some(note.note_id@) {
                refreshed(c, note)
            } else {
                c
            },
    )
}

/// The card that shows a note: id `canvas-note-<note>-<now>`, kind note card, the note's
/// id, title, summary (empty when none), preview and tags, unlocked.
pub open spec fn note_card_spec(note: WorkspaceNoteDocument, now: i64) -> CardView {
    CardView {
        id: "canvas-note-"@ + note.note_id@ + "-"@ + crate::text::decimal_int(now as int),
        kind: CanvasObjectKind::NoteCard,
        note_id: Some(note.note_id@),
        title: note.title@,
        summary: match note.summary {
            Some(s) => s@,
            None => Seq::empty(),
        },
        markdown_preview: markdown_preview(note.body_markdown@),
        tags: strs_view(note.tags@),
        locked: false,
    }
}

/// The card that shows `note`, made at `now`.
pub fn note_card(note: &WorkspaceNoteDocument, now: i64) -> (r: CanvasCard)
    requires
        !preview_panics(note.body_markdown@),
    ensures
        r@ == note_card_spec(*note, now),
{
    let stamp = crate::text::string_of(&fmt_i64(now));
    let mut id = cat("canvas-note-", note.note_id.as_str());
    id.append("-");
    id.append(stamp.as_str());
    CanvasCard {
        id,
        kind: CanvasObjectKind::NoteCard,
        note_id: Some(own(note.note_id.as_str())),
        title: own(note.title.as_str()),
        summary: match &note.summary {
            Some(s) => own(s.as_str()),
            None => String::new(),
        },
        markdown_preview: build_markdown_preview(note.body_markdown.as_str()),
        tags: clone_strs(&note.tags),
        locked: false,
    }
}

/// Editing state of the canvas.
pub struct CanvasEditState {
    pub content: Option<CanvasContent>,
    pub board_id: Option<String>,
    pub selected_object_id: Option<String>,
    pub selected_connector_id: Option<String>,
    pub dirty: bool,
    pub status_message: Option<(String, i64)>,
    pub save_debounce_ms: i64,
    pub save_in_flight: bool,
    pub undo_stack: Vec<CanvasContent>,
}

impl CanvasEditState {
    /// The undo history, oldest first.
    pub open spec fn history(&self) -> Seq<ContentView> {
        self.undo_stack@.map_values(|c: CanvasContent| c@)
    }

    /// The content shown, if a board is loaded.
    pub open spec fn shown(&self) -> Option<ContentView> {
        match self.content {
            Some(c) => Some(c@),
            None => None,
        }
    }

    /// The history is within its limit.
    pub open spec fn wf(&self) -> bool {
        self.history().len() <= 50
    }

    /// No board loaded, nothing selected, clean, empty history.
    pub fn new() -> (r: CanvasEditState)
        ensures
            r.content is None,
            r.board_id is None,
            r.selected_object_id is None,
            r.selected_connector_id is None,
            !r.dirty,
            r.status_message is None,
            r.save_debounce_ms == 0,
            !r.save_in_flight,
            r.history().len() == 0,
            r.wf(),
    {
        let r = CanvasEditState {
            content: None,
            board_id: None,
            selected_object_id: None,
            selected_connector_id: None,
            dirty: false,
            status_message: None,
            save_debounce_ms: 0,
            save_in_flight: false,
            undo_stack: Vec::new(),
        };
        assert(r.history() =~= Seq::<ContentView>::empty());
        r
    }

    /// How many snapshots the undo history holds.
    pub fn undo_depth(&self) -> (r: usize)
        ensures
            r == self.history().len(),
    {
        self.undo_stack.len()
    }

    fn mark_dirty(&mut self)
        ensures
            final(self).dirty,
            final(self).save_debounce_ms == SAVE_DEBOUNCE_MS,
            final(self).content == old(self).content,
            final(self).board_id == old(self).board_id,
            final(self).selected_object_id == old(self).selected_object_id,
            final(self).selected_connector_id == old(self).selected_connector_id,
            final(self).status_message == old(self).status_message,
            final(self).save_in_flight == old(self).save_in_flight,
            final(self).history() == old(self).history(),
    {
        self.dirty = true;
        self.save_debounce_ms = SAVE_DEBOUNCE_MS;
    }

    fn set_status(&mut self, msg: &str)
        ensures
            final(self).status_message matches Some((m, t)) && m@ == msg@ && t == STATUS_MS,
            final(self).content == old(self).content,
            final(self).board_id == old(self).board_id,
            final(self).selected_object_id == old(self).selected_object_id,
            final(self).selected_connector_id == old(self).selected_connector_id,
            final(self).dirty == old(self).dirty,
            final(self).save_debounce_ms == old(self).save_debounce_ms,
            final(self).save_in_flight == old(self).save_in_flight,
            final(self).history() == old(self).history(),
    {
        self.status_message = Some((own(msg), STATUS_MS));
    }

    /// Loads the content of a board, filling in card note ids from its rows where the
    /// cards lack them; clears the selection, the history and the save state.
    pub fn load_board(&mut self, board_id: &str, content: CanvasContent, rows: &Vec<WorkspaceBoardObject>)
        ensures
            final(self).board_id matches Some(b) && b@ == board_id@,
            final(self).shown() matches Some(c) && c.cards == hydrated(content@.cards, rows@)
                && c.connectors == content@.connectors,
            final(self).selected_object_id is None,
            final(self).selected_connector_id is None,
            !final(self).dirty,
            final(self).save_debounce_ms == 0,
            !final(self).save_in_flight,
            final(self).history().len() == 0,
            final(self).status_message == old(self).status_message,
            final(self).wf(),
    {
        let mut content = content;
        hydrate_note_ids(&mut content.cards, rows);
        self.board_id = Some(own(board_id));
        self.content = Some(content);
        self.selected_object_id = None;
        self.selected_connector_id = None;
        self.dirty = false;
        self.save_debounce_ms = 0;
        self.save_in_flight = false;
        self.undo_stack = Vec::new();
        assert(self.history() =~= Seq::<ContentView>::empty());
    }

    /// The content to save, if a board is loaded.
    pub fn save_document(&self) -> (r: Option<CanvasContent>)
        ensures
            match (r, self.shown()) {
                (Some(c), Some(v)) => c@ == v,
                (None, None) => true,
                _ => false,
            },
    {
        match &self.content {
            Some(c) => Some(c.copy()),
            None => None,
        }
    }

    /// Counts `dt_ms` down on the status message (dropping it when its time is out) and,
    /// while edits wait to be saved and no save runs, on the save debounce.
    pub fn tick_status(&mut self, dt_ms: i64)
        requires
            0 <= dt_ms,
        ensures
            final(self).status_message == match old(self).status_message {
                Some((m, t)) => if t - dt_ms <= 0 {
                    None
                } else {
                    Some((m, (t - dt_ms) as i64))
                },
                None => None,
            },
            final(self).save_debounce_ms == if old(self).dirty && !old(self).save_in_flight
                && old(self).save_debounce_ms > 0 {
                (old(self).save_debounce_ms - dt_ms) as i64
            } else {
                old(self).save_debounce_ms
            },
            final(self).content == old(self).content,
            final(self).board_id == old(self).board_id,
            final(self).selected_object_id == old(self).selected_object_id,
            final(self).selected_connector_id == old(self).selected_connector_id,
            final(self).dirty == old(self).dirty,
            final(self).save_in_flight == old(self).save_in_flight,
            final(self).history() == old(self).history(),
    {
        let st = self.status_message.take();
        self.status_message = match st {
            Some((m, t)) => {
                if t <= dt_ms {
                    None
                } else {
                    Some((m, t - dt_ms))
                }
            },
            None => None,
        };
        if self.dirty && !self.save_in_flight && self.save_debounce_ms > 0 {
            self.save_debounce_ms = self.save_debounce_ms - dt_ms;
        }
    }

    /// Whether a save is due: edits wait, no save runs, and the debounce is over.
    pub fn save_debounce_elapsed(&self) -> (r: bool)
        ensures
            r == (self.dirty && !self.save_in_flight && self.save_debounce_ms <= 0),
    {
        self.dirty && !self.save_in_flight && self.save_debounce_ms <= 0
    }

    /// Records a finished save.
    pub fn mark_saved(&mut self)
        ensures
            !final(self).dirty,
            final(self).save_debounce_ms == 0,
            !final(self).save_in_flight,
            final(self).content == old(self).content,
            final(self).board_id == old(self).board_id,
            final(self).selected_object_id == old(self).selected_object_id,
            final(self).selected_connector_id == old(self).selected_connector_id,
            final(self).status_message == old(self).status_message,
            final(self).history() == old(self).history(),
    {
        self.dirty = false;
        self.save_debounce_ms = 0;
        self.save_in_flight = false;
    }

    /// Records that a save started.
    pub fn begin_save(&mut self)
        ensures
            final(self).save_in_flight,
            final(self).dirty == old(self).dirty,
            final(self).save_debounce_ms == old(self).save_debounce_ms,
            final(self).content == old(self).content,
            final(self).board_id == old(self).board_id,
            final(self).selected_object_id == old(self).selected_object_id,
            final(self).selected_connector_id == old(self).selected_connector_id,
            final(self).status_message == old(self).status_message,
            final(self).history() == old(self).history(),
    {
        self.save_in_flight = true;
    }

    fn push_undo_snapshot(&mut self, doc: &CanvasContent)
        requires
            old(self).wf(),
        ensures
            final(self).history() == bounded_push(old(self).history(), doc@),
            final(self).wf(),
            final(self).content == old(self).content,
            final(self).board_id == old(self).board_id,
            final(self).selected_object_id == old(self).selected_object_id,
            final(self).selected_connector_id == old(self).selected_connector_id,
            final(self).dirty == old(self).dirty,
            final(self).status_message == old(self).status_message,
            final(self).save_debounce_ms == old(self).save_debounce_ms,
            final(self).save_in_flight == old(self).save_in_flight,
    {
        let ghost h = self.history();
        self.undo_stack.push(doc.copy());
        assert(self.history() =~= h.push(doc@));
        if self.undo_stack.len() > UNDO_LIMIT {
            self.undo_stack.remove(0);
            assert(self.history() =~= h.push(doc@).skip(1));
        }
    }

    /// Restores the content saved before the last edit, marks the board edited and says
    /// `Undone`; with an empty history only says `Nothing to undo`.
    pub fn undo(&mut self)
        requires
            old(self).wf(),
        ensures
            final(self).wf(),
            old(self).history().len() == 0 ==> {
                &&& final(self).content == old(self).content
                &&& final(self).dirty == old(self).dirty
                &&& final(self).history() == old(self).history()
                &&& final(self).save_debounce_ms == old(self).save_debounce_ms
                &&& final(self).status_message matches Some((m, t)) && m@ == "Nothing to undo"@ && t == STATUS_MS
            },
            old(self).history().len() > 0 ==> {
                &&& final(self).history() == old(self).history().drop_last()
                &&& (old(self).content is Some ==> final(self).shown() == Some(old(self).history().last()))
                &&& (old(self).content is None ==> final(self).content is None)
                &&& final(self).dirty
                &&& final(self).save_debounce_ms == SAVE_DEBOUNCE_MS
                &&& final(self).status_message matches Some((m, t)) && m@ == "Undone"@ && t == STATUS_MS
            },
            final(self).board_id == old(self).board_id,
            final(self).selected_object_id == old(self).selected_object_id,
            final(self).selected_connector_id == old(self).selected_connector_id,
            final(self).save_in_flight == old(self).save_in_flight,
    {
        proof {
            reveal_strlit("Nothing to undo");
            reveal_strlit("Undone");
        }
        let ghost h = self.history();
        match self.undo_stack.pop() {
            None => {
                self.set_status("Nothing to undo");
            },
            Some(entry) => {
                assert(self.history() =~= h.drop_last());
                if self.content.is_some() {
                    self.content = Some(entry);
                }
                self.mark_dirty();
                self.set_status("Undone");
            },
        }
    }

    /// Connects card `from` to card `to` with a new `related_to` connector `id` (an
    /// earlier connector with that id is replaced), saving the content first for undo;
    /// the board is marked edited and `Connector created` shown. Nothing changes without a
    /// board, or when the two cards are the same.
    pub fn connect_cards(&mut self, from: &str, to: &str, id: String)
        requires
            old(self).wf(),
        ensures
            final(self).wf(),
            final(self).board_id == old(self).board_id,
            final(self).selected_object_id == old(self).selected_object_id,
            final(self).selected_connector_id == old(self).selected_connector_id,
            final(self).save_in_flight == old(self).save_in_flight,
            (old(self).content is None || from@ == to@) ==> {
                &&& final(self).shown() == old(self).shown()
                &&& final(self).history() == old(self).history()
                &&& final(self).dirty == old(self).dirty
                &&& final(self).save_debounce_ms == old(self).save_debounce_ms
                &&& final(self).status_message == old(self).status_message
            },
            from@ != to@ ==> (old(self).content matches Some(c) ==> {
                &&& final(self).shown() == Some(
                    ContentView {
                        connectors: connectors_without(c@.connectors, id@).push(
                            ConnView {
                                id: id@,
                                from_object_id: from@,
                                to_object_id: to@,
                                relation_intent: "related_to"@,
                                label: Seq::empty(),
                            },
                        ),
                        ..c@
                    },
                )
                &&& final(self).history() == bounded_push(old(self).history(), c@)
                &&& final(self).dirty
                &&& final(self).save_debounce_ms == SAVE_DEBOUNCE_MS
                &&& final(self).status_message matches Some((m, t)) && m@ == "Connector created"@ && t == STATUS_MS
            }),
    {
        if crate::text::str_eq(from, to) {
            return;
        }
        let doc = match self.content.take() {
            Some(d) => d,
            None => {
                return;
            },
        };
        self.push_undo_snapshot(&doc);
        let mut connectors = drop_connector(&doc.connectors, id.as_str());
        let ghost kept = connectors@.map_values(|k: CanvasConnector| k@);
        connectors.push(
            CanvasConnector {
                id,
                from_object_id: own(from),
                to_object_id: own(to),
                relation_intent: own("related_to"),
                label: String::new(),
            },
        );
        assert(connectors@.map_values(|k: CanvasConnector| k@) =~= kept.push(
            ConnView {
                id: connectors@.last().id@,
                from_object_id: from@,
                to_object_id: to@,
                relation_intent: "related_to"@,
                label: Seq::empty(),
            },
        ));
        self.content = Some(CanvasContent { cards: doc.cards, connectors });
        self.mark_dirty();
        self.set_status("Connector created");
    }

    /// Deletes the selected connector, else the selected card with every connector that
    /// touches it, saving the content first for undo; the selection is cleared. With
    /// nothing selected, or no board loaded, nothing changes.
    pub fn delete_selection(&mut self)
        requires
            old(self).wf(),
        ensures
            final(self).wf(),
            final(self).board_id == old(self).board_id,
            final(self).save_in_flight == old(self).save_in_flight,
            old(self).content is None ==> final(self).content is None && final(self).history()
                == old(self).history() && final(self).dirty == old(self).dirty
                && final(self).status_message == old(self).status_message
                && final(self).save_debounce_ms == old(self).save_debounce_ms,
            old(self).content matches Some(c) ==> match (
                old(self).selected_connector_id,
                old(self).selected_object_id,
            ) {
                (Some(k), _) => {
                    &&& final(self).shown() == Some(
                        ContentView { connectors: connectors_without(c@.connectors, k@), ..c@ },
                    )
                    &&& final(self).history() == bounded_push(old(self).history(), c@)
                    &&& final(self).selected_connector_id is None
                    &&& final(self).selected_object_id == old(self).selected_object_id
                    &&& final(self).dirty
                    &&& final(self).save_debounce_ms == SAVE_DEBOUNCE_MS
                    &&& final(self).status_message matches Some((m, t)) && m@ == "Connector deleted"@ && t == STATUS_MS
                },
                (None, Some(o)) => {
                    &&& final(self).shown() == Some(
                        ContentView {
                            cards: cards_without(c@.cards, o@),
                            connectors: connectors_off(c@.connectors, o@),
                        },
                    )
                    &&& final(self).history() == bounded_push(old(self).history(), c@)
                    &&& final(self).selected_object_id is None
                    &&& final(self).selected_connector_id is None
                    &&& final(self).dirty
                    &&& final(self).save_debounce_ms == SAVE_DEBOUNCE_MS
                    &&& final(self).status_message matches Some((m, t)) && m@ == "Card deleted"@ && t == STATUS_MS
                },
                (None, None) => {
                    &&& final(self).shown() == old(self).shown()
                    &&& final(self).history() == old(self).history()
                    &&& final(self).dirty == old(self).dirty
                    &&& final(self).save_debounce_ms == old(self).save_debounce_ms
                    &&& final(self).status_message == old(self).status_message
                },
            },
    {
        let doc = match self.content.take() {
            Some(d) => d,
            None => {
                return;
            },
        };
        if let Some(conn_id) = self.selected_connector_id.take() {
            self.push_undo_snapshot(&doc);
            let connectors = drop_connector(&doc.connectors, conn_id.as_str());
            self.content = Some(CanvasContent { cards: doc.cards, connectors });
            self.mark_dirty();
            self.set_status("Connector deleted");
            return;
        }
        let obj_id = match self.selected_object_id.take() {
            Some(o) => o,
            None => {
                self.content = Some(doc);
                return;
            },
        };
        self.push_undo_snapshot(&doc);
        let cards = drop_card(&doc.cards, obj_id.as_str());
        let connectors = drop_touching(&doc.connectors, obj_id.as_str());
        self.content = Some(CanvasContent { cards, connectors });
        self.mark_dirty();
        self.set_status("Card deleted");
    }
}

/// Undo right after an edit brings back the content from before it: the history an edit
/// leaves has that content on top and stays within its limit, and what lies below the
/// top is the earlier history (its oldest snapshot dropped when it was full).
pub proof fn lemma_undo_restores(history: Seq<ContentView>, before: ContentView)
    requires
        history.len() <= 50,
    ensures
        bounded_push(history, before).len() <= 50,
        bounded_push(history, before).len() > 0,
        bounded_push(history, before).last() == before,
        bounded_push(history, before).drop_last() == (if history.len() < 50 {
            history
        } else {
            history.skip(1)
        }),
{
    assert(history.push(before).drop_last() =~= history);
    if history.len() == 50 {
        assert(history.push(before).skip(1).drop_last() =~= history.skip(1));
    }
}

/// After a card is deleted no connector touches it, and every other connector is kept.
pub proof fn lemma_delete_card_detaches(ks: Seq<ConnView>, id: Seq<char>)
    ensures
        forall|i: int| 0 <= i < connectors_off(ks, id).len() ==> (#[trigger] connectors_off(ks, id)[i]).from_object_id != id
            && connectors_off(ks, id)[i].to_object_id != id,
        forall|i: int| 0 <= i < ks.len() && ks[i].from_object_id != id && ks[i].to_object_id != id
            ==> connectors_off(ks, id).contains(#[trigger] ks[i]),
{
    broadcast use vstd::seq_lib::group_filter_ensures;
    assert forall|i: int| 0 <= i < connectors_off(ks, id).len() implies (#[trigger] connectors_off(ks, id)[i]).from_object_id != id
        && connectors_off(ks, id)[i].to_object_id != id by {
        assert(connector_off(id)(ks.filter(connector_off(id))[i]));
    }
    assert forall|i: int| 0 <= i < ks.len() && ks[i].from_object_id != id && ks[i].to_object_id != id
        implies connectors_off(ks, id).contains(#[trigger] ks[i]) by {
        assert(connector_off(id)(ks[i]));
    }
}

/// Whether one of the cards shows the note with id `note_id`.
pub open spec fn shows_note(cards: Seq<CardView>, note_id: Seq<char>) -> bool {
    exists|i: int| 0 <= i < cards.len() && #[trigger] cards[i].note_id == Some(note_id)
}

/// The cards after refreshing them from each of `notes` in turn.
pub open spec fn synced_all(cards: Seq<CardView>, notes: Seq<WorkspaceNoteDocument>) -> Seq<CardView>
    decreases notes.len(),
{
    if notes.len() == 0 {
        cards
    } else {
        synced(synced_all(cards, notes.drop_last()), notes.last())
    }
}

/// Whether one of the cards shows one of `notes`.
pub open spec fn shows_any(cards: Seq<CardView>, notes: Seq<WorkspaceNoteDocument>) -> bool {
    exists|k: int| 0 <= k < notes.len() && shows_note(cards, #[trigger] notes[k].note_id@)
}

/// Refreshing keeps each card in its place with its note id.
proof fn lemma_synced_all_note_ids(cards: Seq<CardView>, notes: Seq<WorkspaceNoteDocument>)
    ensures
        synced_all(cards, notes).len() == cards.len(),
        forall|i: int| 0 <= i < cards.len() ==> (#[trigger] synced_all(cards, notes)[i]).note_id == cards[i].note_id,
    decreases notes.len(),
{
    if notes.len() > 0 {
        lemma_synced_all_note_ids(cards, notes.drop_last());
    }
}

impl CanvasEditState {
    /// Refreshes every card that shows `note` from it (title, summary, preview, tags) and,
    /// when one was refreshed, marks the board edited. Nothing changes without a board.
    pub fn sync_note_card_from_note(&mut self, note: &WorkspaceNoteDocument)
        requires
            !preview_panics(note.body_markdown@),
        ensures
            old(self).content is None ==> final(self).content is None && final(self).dirty == old(self).dirty
                && final(self).save_debounce_ms == old(self).save_debounce_ms,
            old(self).content matches Some(c) ==> {
                &&& final(self).shown() == Some(ContentView { cards: synced(c@.cards, *note), ..c@ })
                &&& final(self).dirty == (old(self).dirty || shows_note(c@.cards, note.note_id@))
                &&& final(self).save_debounce_ms == if shows_note(c@.cards, note.note_id@) {
                    SAVE_DEBOUNCE_MS
                } else {
                    old(self).save_debounce_ms
                }
            },
            final(self).board_id == old(self).board_id,
            final(self).selected_object_id == old(self).selected_object_id,
            final(self).selected_connector_id == old(self).selected_connector_id,
            final(self).status_message == old(self).status_message,
            final(self).save_in_flight == old(self).save_in_flight,
            final(self).history() == old(self).history(),
    {
        let mut doc = match self.content.take() {
            Some(d) => d,
            None => {
                return;
            },
        };
        let ghost start = doc@;
        let preview = build_markdown_preview(note.body_markdown.as_str());
        let ghost goal = synced(start.cards, *note);
        let mut changed = false;
        let mut j: usize = 0;
        while j < doc.cards.len()
            invariant
                j <= doc.cards@.len(),
                doc.cards@.len() == start.cards.len(),
                doc@.connectors == start.connectors,
                goal == synced(start.cards, *note),
                preview@ == markdown_preview(note.body_markdown@),
                forall|k: int| 0 <= k < j ==> #[trigger] doc.cards@[k]@ == goal[k],
                forall|k: int| j <= k < doc.cards@.len() ==> #[trigger] doc.cards@[k]@ == start.cards[k],
                changed == exists|i: int| 0 <= i < j && #[trigger] start.cards[i].note_id == Some(note.note_id@),
            decreases doc.cards@.len() - j,
        {
            assert(goal[j as int] == (if start.cards[j as int].note_id == Some(note.note_id@) {
                refreshed(start.cards[j as int], *note)
            } else {
                start.cards[j as int]
            }));
            let shows = match &doc.cards[j].note_id {
                Some(n) => crate::text::str_eq(n.as_str(), note.note_id.as_str()),
                None => false,
            };
            if shows {
                let mut c = copy_card(&doc.cards[j]);
                c.title = own(note.title.as_str());
                c.summary = match &note.summary {
                    Some(s) => own(s.as_str()),
                    None => String::new(),
                };
                c.markdown_preview = own(preview.as_str());
                c.tags = clone_strs(&note.tags);
                assert(c@ == goal[j as int]);
                doc.cards.set(j, c);
                changed = true;
            } else {
                assert(doc.cards@[j as int]@ == goal[j as int]);
            }
            j = j + 1;
        }
        assert(doc@.cards =~= goal);
        self.content = Some(doc);
        if changed {
            self.mark_dirty();
        }
    }

    /// Refreshes the cards of every note in turn: each card showing one of the notes
    /// takes the title, summary, preview and tags of the last of them; the board is marked
    /// edited when any card showed one of them. Nothing changes without a board.
    pub fn sync_all_note_cards(&mut self, notes: &Vec<WorkspaceNoteDocument>)
        requires
            forall|i: int| 0 <= i < notes@.len() ==> !preview_panics(#[trigger] notes@[i].body_markdown@),
        ensures
            old(self).content is None ==> final(self).content is None && final(self).dirty == old(self).dirty
                && final(self).save_debounce_ms == old(self).save_debounce_ms,
            old(self).content matches Some(c) ==> {
                &&& final(self).shown() == Some(ContentView { cards: synced_all(c@.cards, notes@), ..c@ })
                &&& final(self).dirty == (old(self).dirty || shows_any(c@.cards, notes@))
                &&& final(self).save_debounce_ms == if shows_any(c@.cards, notes@) {
                    SAVE_DEBOUNCE_MS
                } else {
                    old(self).save_debounce_ms
                }
            },
            final(self).board_id == old(self).board_id,
            final(self).selected_object_id == old(self).selected_object_id,
            final(self).selected_connector_id == old(self).selected_connector_id,
            final(self).status_message == old(self).status_message,
            final(self).save_in_flight == old(self).save_in_flight,
            final(self).history() == old(self).history(),
    {
        let ghost start = old(self).shown();
        let ghost dirty0 = old(self).dirty;
        let ghost debounce0 = old(self).save_debounce_ms;
        let mut i: usize = 0;
        proof {
            if let Some(c) = start {
                assert(notes@.take(0) =~= Seq::<WorkspaceNoteDocument>::empty());
                assert(c == ContentView { cards: synced_all(c.cards, notes@.take(0)), ..c });
            }
        }
        while i < notes.len()
            invariant
                i <= notes@.len(),
                forall|k: int| 0 <= k < notes@.len() ==> !preview_panics(#[trigger] notes@[k].body_markdown@),
                start is None ==> self.content is None && self.dirty == dirty0 && self.save_debounce_ms == debounce0,
                start matches Some(c) ==> {
                    &&& self.shown() == Some(ContentView { cards: synced_all(c.cards, notes@.take(i as int)), ..c })
                    &&& self.dirty == (dirty0 || shows_any(c.cards, notes@.take(i as int)))
                    &&& self.save_debounce_ms == if shows_any(c.cards, notes@.take(i as int)) {
                        SAVE_DEBOUNCE_MS
                    } else {
                        debounce0
                    }
                },
                self.board_id == old(self).board_id,
                self.selected_object_id == old(self).selected_object_id,
                self.selected_connector_id == old(self).selected_connector_id,
                self.status_message == old(self).status_message,
                self.save_in_flight == old(self).save_in_flight,
                self.history() == old(self).history(),
            decreases notes@.len() - i,
        {
            self.sync_note_card_from_note(&notes[i]);
            proof {
                if let Some(c) = start {
                    let pre = notes@.take(i as int);
                    let post = notes@.take(i + 1);
                    assert(post.drop_last() =~= pre);
                    assert(post.last() == notes@[i as int]);
                    let cur = synced_all(c.cards, pre);
                    lemma_synced_all_note_ids(c.cards, pre);
                    let nid = notes@[i as int].note_id@;
                    assert(shows_note(cur, nid) == shows_note(c.cards, nid)) by {
                        if shows_note(cur, nid) {
                            let j = choose|j: int| 0 <= j < cur.len() && #[trigger] cur[j].note_id == Some(nid);
                            assert(c.cards[j].note_id == Some(nid));
                        }
                        if shows_note(c.cards, nid) {
                            let j = choose|j: int| 0 <= j < c.cards.len() && #[trigger] c.cards[j].note_id == Some(nid);
                            assert(cur[j].note_id == Some(nid));
                        }
                    }
                    assert(shows_any(c.cards, post) == (shows_any(c.cards, pre) || shows_note(c.cards, nid))) by {
                        if shows_any(c.cards, post) {
                            let k = choose|k: int| 0 <= k < post.len() && shows_note(c.cards, #[trigger] post[k].note_id@);
                            if k < i {
                                assert(pre[k] == post[k]);
                            }
                        }
                        if shows_any(c.cards, pre) {
                            let k = choose|k: int| 0 <= k < pre.len() && shows_note(c.cards, #[trigger] pre[k].note_id@);
                            assert(post[k] == pre[k]);
                        }
                        if shows_note(c.cards, nid) {
                            assert(post[i as int] == notes@[i as int]);
                        }
                    }
                }
            }
            i = i + 1;
        }
        proof {
            assert(notes@.take(notes@.len() as int) =~= notes@);
        }
    }

    /// [`Self::add_note_card_at`] at the current time.
    pub fn add_note_card_to_canvas(&mut self, note: &WorkspaceNoteDocument)
        requires
            old(self).wf(),
            !preview_panics(note.body_markdown@),
        ensures
            final(self).wf(),
            old(self).content is None ==> final(self).content is None,
            old(self).content matches Some(c) ==> exists|now: i64|
                final(self).shown() == Some(
                    ContentView { cards: c@.cards.push(#[trigger] note_card_spec(*note, now)), ..c@ },
                ),
            final(self).board_id == old(self).board_id,
    {
        let now = crate::observability::now_millis();
        self.add_note_card_at(note, now);
    }

    /// Adds the card of `note` made at `now`, saving the content first for undo; the new
    /// card is selected, the board marked edited, and `Note card added` shown. Nothing
    /// changes without a board.
    pub fn add_note_card_at(&mut self, note: &WorkspaceNoteDocument, now: i64)
        requires
            old(self).wf(),
            !preview_panics(note.body_markdown@),
        ensures
            final(self).wf(),
            old(self).content is None ==> final(self).content is None && final(self).history()
                == old(self).history(),
            old(self).content matches Some(c) ==> {
                &&& final(self).shown() == Some(
                    ContentView { cards: c@.cards.push(note_card_spec(*note, now)), ..c@ },
                )
                &&& final(self).history() == bounded_push(old(self).history(), c@)
                &&& final(self).selected_object_id matches Some(s) && s@ == note_card_spec(*note, now).id
                &&& final(self).dirty
                &&& final(self).status_message matches Some((m, _)) && m@ == "Note card added"@
            },
            final(self).board_id == old(self).board_id,
            final(self).selected_connector_id == old(self).selected_connector_id,
            final(self).save_in_flight == old(self).save_in_flight,
    {
        proof {
            reveal_strlit("Note card added");
        }
        let mut doc = match self.content.take() {
            Some(d) => d,
            None => {
                return;
            },
        };
        self.push_undo_snapshot(&doc);
        let card = note_card(note, now);
        let selected = own(card.id.as_str());
        let ghost before = doc@;
        doc.cards.push(card);
        assert(doc@.cards =~= before.cards.push(note_card_spec(*note, now)));
        self.content = Some(doc);
        self.selected_object_id = Some(selected);
        self.mark_dirty();
        self.set_status("Note card added");
    }
}

fn hydrate_note_ids(cards: &mut Vec<CanvasCard>, rows: &Vec<WorkspaceBoardObject>)
    ensures
        final(cards)@.map_values(|c: CanvasCard| c@) == hydrated(
            old(cards)@.map_values(|c: CanvasCard| c@),
            rows@,
        ),
{
    let ghost start = cards@.map_values(|c: CanvasCard| c@);
    let mut i: usize = 0;
    assert(rows@.take(0) =~= Seq::<WorkspaceBoardObject>::empty());
    while i < rows.len()
        invariant
            i <= rows@.len(),
            cards@.map_values(|c: CanvasCard| c@) == hydrated(start, rows@.take(i as int)),
        decreases rows@.len() - i,
    {
        let row = &rows[i];
        let ghost prev = cards@.map_values(|c: CanvasCard| c@);
        let ghost next = prev.map_values(|c: CardView| hydrate_card(c, *row));
        assert(rows@.take(i + 1).drop_last() =~= rows@.take(i as int));
        assert(rows@.take(i + 1).last() == *row);
        let mut j: usize = 0;
        while j < cards.len()
            invariant
                j <= cards@.len(),
                cards@.len() == prev.len(),
                next == prev.map_values(|c: CardView| hydrate_card(c, *row)),
                forall|k: int| 0 <= k < j ==> #[trigger] cards@[k]@ == next[k],
                forall|k: int| j <= k < cards@.len() ==> #[trigger] cards@[k]@ == prev[k],
            decreases cards@.len() - j,
        {
            assert(next[j as int] == hydrate_card(prev[j as int], *row));
            if cards[j].note_id.is_none() && crate::text::str_eq(
                cards[j].id.as_str(),
                row.object_id.as_str(),
            ) {
                let mut c = copy_card(&cards[j]);
                c.note_id = clone_opt(&row.note_id);
                assert(c@ == next[j as int]);
                cards.set(j, c);
            } else {
                assert(cards@[j as int]@ == next[j as int]);
            }
            j = j + 1;
        }
        assert(cards@.map_values(|c: CanvasCard| c@) =~= next);
        i = i + 1;
    }
    assert(rows@.take(rows@.len() as int) =~= rows@);
}

fn drop_card(cards: &Vec<CanvasCard>, id: &str) -> (r: Vec<CanvasCard>)
    ensures
        r@.map_values(|c: CanvasCard| c@) == cards_without(cards@.map_values(|c: CanvasCard| c@), id@),
{
    let ghost all = cards@.map_values(|c: CanvasCard| c@);
    let mut out: Vec<CanvasCard> = Vec::new();
    let mut i: usize = 0;
    while i < cards.len()
        invariant
            i <= cards@.len(),
            all == cards@.map_values(|c: CanvasCard| c@),
            out@.map_values(|c: CanvasCard| c@) == cards_without(all.take(i as int), id@),
        decreases cards@.len() - i,
    {
        let ghost before = out@.map_values(|c: CanvasCard| c@);
        assert(all.take(i + 1).drop_last() =~= all.take(i as int));
        assert(all.take(i + 1).last() == cards@[i as int]@);
        proof {
            lemma_filter_push(all.take(i as int), card_kept(id@), cards@[i as int]@);
            assert(all.take(i as int).push(cards@[i as int]@) =~= all.take(i + 1));
        }
        if !crate::text::str_eq(cards[i].id.as_str(), id) {
            out.push(copy_card(&cards[i]));
            assert(out@.map_values(|c: CanvasCard| c@) =~= before.push(cards@[i as int]@));
        }
        i = i + 1;
    }
    assert(all.take(cards@.len() as int) =~= all);
    out
}

fn drop_connector(ks: &Vec<CanvasConnector>, id: &str) -> (r: Vec<CanvasConnector>)
    ensures
        r@.map_values(|k: CanvasConnector| k@) == connectors_without(
            ks@.map_values(|k: CanvasConnector| k@),
            id@,
        ),
{
    let ghost all = ks@.map_values(|k: CanvasConnector| k@);
    let mut out: Vec<CanvasConnector> = Vec::new();
    let mut i: usize = 0;
    while i < ks.len()
        invariant
            i <= ks@.len(),
            all == ks@.map_values(|k: CanvasConnector| k@),
            out@.map_values(|k: CanvasConnector| k@) == connectors_without(all.take(i as int), id@),
        decreases ks@.len() - i,
    {
        let ghost before = out@.map_values(|k: CanvasConnector| k@);
        proof {
            lemma_filter_push(all.take(i as int), connector_kept(id@), ks@[i as int]@);
            assert(all.take(i as int).push(ks@[i as int]@) =~= all.take(i + 1));
        }
        if !crate::text::str_eq(ks[i].id.as_str(), id) {
            out.push(copy_connector(&ks[i]));
            assert(out@.map_values(|k: CanvasConnector| k@) =~= before.push(ks@[i as int]@));
        }
        i = i + 1;
    }
    assert(all.take(ks@.len() as int) =~= all);
    out
}

fn drop_touching(ks: &Vec<CanvasConnector>, id: &str) -> (r: Vec<CanvasConnector>)
    ensures
        r@.map_values(|k: CanvasConnector| k@) == connectors_off(
            ks@.map_values(|k: CanvasConnector| k@),
            id@,
        ),
{
    let ghost all = ks@.map_values(|k: CanvasConnector| k@);
    let mut out: Vec<CanvasConnector> = Vec::new();
    let mut i: usize = 0;
    while i < ks.len()
        invariant
            i <= ks@.len(),
            all == ks@.map_values(|k: CanvasConnector| k@),
            out@.map_values(|k: CanvasConnector| k@) == connectors_off(all.take(i as int), id@),
        decreases ks@.len() - i,
    {
        let ghost before = out@.map_values(|k: CanvasConnector| k@);
        proof {
            lemma_filter_push(all.take(i as int), connector_off(id@), ks@[i as int]@);
            assert(all.take(i as int).push(ks@[i as int]@) =~= all.take(i + 1));
        }
        if !crate::text::str_eq(ks[i].from_object_id.as_str(), id) && !crate::text::str_eq(
            ks[i].to_object_id.as_str(),
            id,
        ) {
            out.push(copy_connector(&ks[i]));
            assert(out@.map_values(|k: CanvasConnector| k@) =~= before.push(ks@[i as int]@));
        }
        i = i + 1;
    }
    assert(all.take(ks@.len() as int) =~= all);
    out
}

} // verus!
