//! Sidebar state: note and board selection, the new-note and new-board drafts, the note
//! filter, and what a click or a confirmation turns into.
use vstd::prelude::*;

use crate::model::{opt_view, own, WorkspaceNoteDocument};
use crate::text::{chars_of, contains, contains_exec, to_lowercase, trim, trim_exec, unicode_lowercase};

verus! {

/// Mutable state of the sidebar.
#[derive(Debug)]
pub struct SidebarState {
    /// Search / filter text.
    pub search: String,
    /// Whether to show the new-note title input.
    pub show_new_note_input: bool,
    /// Draft title for a new note.
    pub new_note_title: String,
    /// Currently selected note id.
    pub selected_note_id: Option<String>,
    /// Currently selected board id.
    pub selected_board_id: Option<String>,
    /// Whether to show the new-board title input.
    pub show_new_board_input: bool,
    /// Draft title for a new board.
    pub new_board_title: String,
}

/// Actions produced by the sidebar.
#[derive(Debug)]
pub struct SidebarOutput {
    /// A note was clicked: load it into the editor.
    pub selected_note_id: Option<String>,
    /// The current note was deselected.
    pub deselected: bool,
    /// A note with this title is to be created.
    pub create_note_title: Option<String>,
    /// A board was clicked: show it on the canvas.
    pub selected_board_id: Option<String>,
    /// The current board was deselected.
    pub board_deselected: bool,
    /// A board with this title is to be created.
    pub create_board_title: Option<String>,
    /// The graph explorer was opened.
    pub open_graph: bool,
}

impl SidebarOutput {
    /// No action.
    pub fn new() -> (r: SidebarOutput)
        ensures
            r.selected_note_id is None,
            !r.deselected,
            r.create_note_title is None,
            r.selected_board_id is None,
            !r.board_deselected,
            r.create_board_title is None,
            !r.open_graph,
    {
        SidebarOutput {
            selected_note_id: None,
            deselected: false,
            create_note_title: None,
            selected_board_id: None,
            board_deselected: false,
            create_board_title: None,
            open_graph: false,
        }
    }
}

impl SidebarState {
    /// Empty search, no drafts, nothing selected.
    pub fn new() -> (r: SidebarState)
        ensures
            r.search@.len() == 0,
            !r.show_new_note_input,
            r.new_note_title@.len() == 0,
            r.selected_note_id is None,
            r.selected_board_id is None,
            !r.show_new_board_input,
            r.new_board_title@.len() == 0,
    {
        SidebarState {
            search: String::new(),
            show_new_note_input: false,
            new_note_title: String::new(),
            selected_note_id: None,
            selected_board_id: None,
            show_new_board_input: false,
            new_board_title: String::new(),
        }
    }

    /// Selects a note by id.
    pub fn select_note(&mut self, note_id: &str)
        ensures
            opt_view(final(self).selected_note_id) == Some(note_id@),
            final(self).search == old(self).search,
            final(self).show_new_note_input == old(self).show_new_note_input,
            final(self).new_note_title == old(self).new_note_title,
            final(self).selected_board_id == old(self).selected_board_id,
            final(self).show_new_board_input == old(self).show_new_board_input,
            final(self).new_board_title == old(self).new_board_title,
    {
        self.selected_note_id = Some(own(note_id));
    }

    /// Clears the note selection.
    pub fn deselect(&mut self)
        ensures
            *final(self) == (SidebarState { selected_note_id: None, ..*old(self) }),
    {
        self.selected_note_id = None;
    }

    /// Opens the new-note input with an empty draft and clears the note selection.
    pub fn start_new_note(&mut self)
        ensures
            final(self).show_new_note_input,
            final(self).new_note_title@.len() == 0,
            final(self).selected_note_id is None,
            final(self).search == old(self).search,
            final(self).selected_board_id == old(self).selected_board_id,
            final(self).show_new_board_input == old(self).show_new_board_input,
            final(self).new_board_title == old(self).new_board_title,
    {
        self.show_new_note_input = true;
        self.new_note_title = String::new();
        self.deselect();
    }

    /// Closes the new-note input and empties its draft.
    pub fn cancel_new_note(&mut self)
        ensures
            !final(self).show_new_note_input,
            final(self).new_note_title@.len() == 0,
            final(self).search == old(self).search,
            final(self).selected_note_id == old(self).selected_note_id,
            final(self).selected_board_id == old(self).selected_board_id,
            final(self).show_new_board_input == old(self).show_new_board_input,
            final(self).new_board_title == old(self).new_board_title,
    {
        self.show_new_note_input = false;
        self.new_note_title = String::new();
    }

    /// Selects a board by id.
    pub fn select_board(&mut self, board_id: &str)
        ensures
            opt_view(final(self).selected_board_id) == Some(board_id@),
            final(self).search == old(self).search,
            final(self).show_new_note_input == old(self).show_new_note_input,
            final(self).new_note_title == old(self).new_note_title,
            final(self).selected_note_id == old(self).selected_note_id,
            final(self).show_new_board_input == old(self).show_new_board_input,
            final(self).new_board_title == old(self).new_board_title,
    {
        self.selected_board_id = Some(own(board_id));
    }

    /// Clears the board selection.
    pub fn deselect_board(&mut self)
        ensures
            *final(self) == (SidebarState { selected_board_id: None, ..*old(self) }),
    {
        self.selected_board_id = None;
    }

    /// Opens the new-board input with an empty draft.
    pub fn start_new_board(&mut self)
        ensures
            final(self).show_new_board_input,
            final(self).new_board_title@.len() == 0,
            final(self).search == old(self).search,
            final(self).show_new_note_input == old(self).show_new_note_input,
            final(self).new_note_title == old(self).new_note_title,
            final(self).selected_note_id == old(self).selected_note_id,
            final(self).selected_board_id == old(self).selected_board_id,
    {
        self.show_new_board_input = true;
        self.new_board_title = String::new();
    }

    /// Closes the new-board input and empties its draft.
    pub fn cancel_new_board(&mut self)
        ensures
            !final(self).show_new_board_input,
            final(self).new_board_title@.len() == 0,
            final(self).search == old(self).search,
            final(self).show_new_note_input == old(self).show_new_note_input,
            final(self).new_note_title == old(self).new_note_title,
            final(self).selected_note_id == old(self).selected_note_id,
            final(self).selected_board_id == old(self).selected_board_id,
    {
        self.show_new_board_input = false;
        self.new_board_title = String::new();
    }

    /// Confirms the new-note draft: asks for a note titled by the draft (`Untitled Note`
    /// when it is blank) and closes the input.
    pub fn confirm_new_note(&mut self, out: &mut SidebarOutput)
        ensures
            opt_view(final(out).create_note_title) == Some(
                draft_title(old(self).new_note_title@, "Untitled Note"@),
            ),
            !final(self).show_new_note_input,
            final(self).new_note_title@.len() == 0,
            *final(self) == (SidebarState {
                show_new_note_input: false,
                new_note_title: final(self).new_note_title,
                ..*old(self)
            }),
            *final(out) == (SidebarOutput { create_note_title: final(out).create_note_title, ..*old(out) }),
    {
        out.create_note_title = Some(draft_or(self.new_note_title.as_str(), "Untitled Note"));
        self.cancel_new_note();
    }

    /// Confirms the new-board draft: asks for a board titled by the draft (`Untitled
    /// Board` when it is blank) and closes the input.
    pub fn confirm_new_board(&mut self, out: &mut SidebarOutput)
        ensures
            opt_view(final(out).create_board_title) == Some(
                draft_title(old(self).new_board_title@, "Untitled Board"@),
            ),
            !final(self).show_new_board_input,
            final(self).new_board_title@.len() == 0,
            *final(self) == (SidebarState {
                show_new_board_input: false,
                new_board_title: final(self).new_board_title,
                ..*old(self)
            }),
            *final(out) == (SidebarOutput { create_board_title: final(out).create_board_title, ..*old(out) }),
    {
        out.create_board_title = Some(draft_or(self.new_board_title.as_str(), "Untitled Board"));
        self.cancel_new_board();
    }

    /// A click on a note: selects it and reports it, or, when it was already selected,
    /// deselects it and reports that.
    pub fn click_note(&mut self, out: &mut SidebarOutput, note_id: &str)
        ensures
            opt_view(old(self).selected_note_id) == Some(note_id@) ==> (final(self).selected_note_id is None) && final(out).deselected && final(out).selected_note_id
                == old(out).selected_note_id,
            opt_view(old(self).selected_note_id) != Some(note_id@) ==> opt_view(
                final(self).selected_note_id,
            ) == Some(note_id@) && opt_view(final(out).selected_note_id) == Some(note_id@)
                && final(out).deselected == old(out).deselected,
            final(self).selected_board_id == old(self).selected_board_id,
            *final(self) == (SidebarState { selected_note_id: final(self).selected_note_id, ..*old(self) }),
            opt_view(old(self).selected_note_id) == Some(note_id@) ==> *final(out) == (SidebarOutput {
                deselected: true,
                ..*old(out)
            }),
            opt_view(old(self).selected_note_id) != Some(note_id@) ==> *final(out) == (SidebarOutput {
                selected_note_id: final(out).selected_note_id,
                ..*old(out)
            }),
    {
        let selected = match &self.selected_note_id {
            Some(id) => crate::text::str_eq(id.as_str(), note_id),
            None => false,
        };
        if selected {
            self.deselect();
            out.deselected = true;
        } else {
            self.select_note(note_id);
            out.selected_note_id = Some(own(note_id));
        }
    }

    /// A click on a board: selects it, reports it and clears the note selection, or, when
    /// it was already selected, deselects it and reports that.
    pub fn click_board(&mut self, out: &mut SidebarOutput, board_id: &str)
        ensures
            opt_view(old(self).selected_board_id) == Some(board_id@) ==> (final(self).selected_board_id is None) && final(out).board_deselected && final(self).selected_note_id == old(self).selected_note_id && final(out).selected_board_id
                == old(out).selected_board_id,
            opt_view(old(self).selected_board_id) != Some(board_id@) ==> opt_view(
                final(self).selected_board_id,
            ) == Some(board_id@) && opt_view(final(out).selected_board_id) == Some(board_id@)
                && (final(self).selected_note_id is None) && final(out).board_deselected == old(out).board_deselected,
            *final(self) == (SidebarState {
                selected_note_id: final(self).selected_note_id,
                selected_board_id: final(self).selected_board_id,
                ..*old(self)
            }),
            opt_view(old(self).selected_board_id) == Some(board_id@) ==> *final(out) == (SidebarOutput {
                board_deselected: true,
                ..*old(out)
            }),
            opt_view(old(self).selected_board_id) != Some(board_id@) ==> *final(out) == (SidebarOutput {
                selected_board_id: final(out).selected_board_id,
                ..*old(out)
            }),
    {
        let selected = match &self.selected_board_id {
            Some(id) => crate::text::str_eq(id.as_str(), board_id),
            None => false,
        };
        if selected {
            self.deselect_board();
            out.board_deselected = true;
        } else {
            self.select_board(board_id);
            out.selected_board_id = Some(own(board_id));
            self.deselect();
        }
    }
}

/// The title a draft stands for: the draft itself, or `default` when it is blank.
pub open spec fn draft_title(draft: Seq<char>, default: Seq<char>) -> Seq<char> {
    if trim(draft).len() == 0 {
        default
    } else {
        draft
    }
}

/// The title a draft stands for.
pub fn draft_or(draft: &str, default: &str) -> (r: String)
    ensures
        r@ == draft_title(draft@, default@),
{
    if trim_exec(chars_of(draft).as_slice()).len() == 0 {
        own(default)
    } else {
        own(draft)
    }
}

/// Whether a note passes the sidebar filter (already lower-cased): an empty filter passes
/// everything; otherwise the lower-cased title, a lower-cased tag, or the lower-cased body
/// must contain it.
pub open spec fn passes_filter(n: WorkspaceNoteDocument, filter: Seq<char>) -> bool {
    ||| filter.len() == 0
    ||| contains(unicode_lowercase(n.title@), filter)
    ||| exists|i: int|
        0 <= i < n.tags@.len() && contains(unicode_lowercase(#[trigger] n.tags@[i]@), filter)
    ||| contains(unicode_lowercase(n.body_markdown@), filter)
}

fn lower_contains(s: &str, filter: &Vec<char>) -> (r: bool)
    ensures
        r == contains(unicode_lowercase(s@), filter@),
{
    let l = to_lowercase(s);
    contains_exec(chars_of(l.as_str()).as_slice(), filter.as_slice())
}

fn passes_filter_exec(n: &WorkspaceNoteDocument, filter: &Vec<char>) -> (r: bool)
    ensures
        r == passes_filter(*n, filter@),
{
    if filter.len() == 0 {
        return true;
    }
    if lower_contains(n.title.as_str(), filter) {
        return true;
    }
    let mut i: usize = 0;
    while i < n.tags.len()
        invariant
            i <= n.tags@.len(),
            forall|k: int| 0 <= k < i ==> !contains(unicode_lowercase(#[trigger] n.tags@[k]@), filter@),
        decreases n.tags@.len() - i,
    {
        if lower_contains(n.tags[i].as_str(), filter) {
            return true;
        }
        i = i + 1;
    }
    lower_contains(n.body_markdown.as_str(), filter)
}

/// Positions, in order, of the notes that pass the filter `search` (lower-cased first).
pub fn filter_notes(notes: &Vec<WorkspaceNoteDocument>, search: &str) -> (r: Vec<usize>)
    ensures
        forall|k: int| 0 <= k < r@.len() ==> #[trigger] r@[k] < notes@.len(),
        forall|a: int, b: int| 0 <= a < b < r@.len() ==> r@[a] < r@[b],
        forall|i: int|
            0 <= i < notes@.len() ==> (r@.contains(i as usize) <==> passes_filter(
                #[trigger] notes@[i],
                unicode_lowercase(search@),
            )),
{
    let f = chars_of(to_lowercase(search).as_str());
    let mut r: Vec<usize> = Vec::new();
    let mut i: usize = 0;
    while i < notes.len()
        invariant
            i <= notes@.len(),
            f@ == unicode_lowercase(search@),
            forall|k: int| 0 <= k < r@.len() ==> #[trigger] r@[k] < i,
            forall|a: int, b: int| 0 <= a < b < r@.len() ==> r@[a] < r@[b],
            forall|j: int|
                0 <= j < i ==> (r@.contains(j as usize) <==> passes_filter(
                    #[trigger] notes@[j],
                    f@,
                )),
        decreases notes@.len() - i,
    {
        if passes_filter_exec(&notes[i], &f) {
            let ghost before = r@;
            r.push(i);
            assert forall|j: int| 0 <= j < i + 1 implies (r@.contains(j as usize) <==> passes_filter(
                #[trigger] notes@[j],
                f@,
            )) by {
                if j < i {
                    if before.contains(j as usize) {
                        let k = choose|k: int| 0 <= k < before.len() && before[k] == j as usize;
                        assert(r@[k] == j as usize);
                    }
                    if r@.contains(j as usize) {
                        let k = choose|k: int| 0 <= k < r@.len() && r@[k] == j as usize;
                        if k < before.len() {
                            assert(before[k] == j as usize);
                        }
                    }
                } else {
                    assert(r@[r@.len() - 1] == i);
                }
            }
        } else {
            assert forall|j: int| 0 <= j < i + 1 implies (r@.contains(j as usize) <==> passes_filter(
                #[trigger] notes@[j],
                f@,
            )) by {
                if j == i {
                    if r@.contains(j as usize) {
                        let k = choose|k: int| 0 <= k < r@.len() && r@[k] == j as usize;
                    }
                }
            }
        }
        i = i + 1;
    }
    r
}

} // verus!
