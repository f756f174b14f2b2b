//! Note editor state: the drafts of a loaded note, the dirty flag, tag parsing, the
//! history panel, the status message, and the requests the editor's buttons make.
//! Times are in milliseconds.
use vstd::prelude::*;

use crate::model::{opt_view, own, same_note, strs_view, NoteHistoryItem, WorkspaceNoteDocument};
use crate::preview::{byte_len, is_char_boundary, take_bytes};
use crate::text::{chars_of, string_of, trim, trim_exec, trim_start};

verus! {

/// Pieces of `s` between the separators `c` (as `str::split`): one more piece than
/// there are separators.
pub open spec fn split_on(s: Seq<char>, c: char) -> Seq<Seq<char>>
    decreases s.len(),
{
    if s.len() == 0 {
        seq![Seq::<char>::empty()]
    } else {
        let p = split_on(s.drop_last(), c);
        if s.last() == c {
            p.push(Seq::<char>::empty())
        } else {
            p.update(p.len() - 1, p.last().push(s.last()))
        }
    }
}

proof fn lemma_split_on_nonempty(s: Seq<char>, c: char)
    ensures
        split_on(s, c).len() >= 1,
    decreases s.len(),
{
    if s.len() > 0 {
        lemma_split_on_nonempty(s.drop_last(), c);
    }
}

/// The trimmed pieces that are not blank, in order.
pub open spec fn tag_list(ps: Seq<Seq<char>>) -> Seq<Seq<char>>
    decreases ps.len(),
{
    if ps.len() == 0 {
        Seq::empty()
    } else {
        let r = tag_list(ps.drop_last());
        if trim(ps.last()).len() == 0 {
            r
        } else {
            r.push(trim(ps.last()))
        }
    }
}

/// The tags of a comma-separated draft: each piece trimmed, blank pieces dropped.
pub open spec fn parse_tags_spec(draft: Seq<char>) -> Seq<Seq<char>> {
    tag_list(split_on(draft, ','))
}

/// `ws` joined with `sep`.
pub open spec fn joined(ws: Seq<Seq<char>>, sep: Seq<char>) -> Seq<char>
    decreases ws.len(),
{
    if ws.len() == 0 {
        Seq::empty()
    } else if ws.len() == 1 {
        ws[0]
    } else {
        joined(ws.drop_last(), sep) + sep + ws.last()
    }
}

proof fn lemma_split_on_append_plain(x: Seq<char>, y: Seq<char>, c: char)
    requires
        !y.contains(c),
    ensures
        split_on(x + y, c) == split_on(x, c).update(
            split_on(x, c).len() - 1,
            split_on(x, c).last() + y,
        ),
    decreases y.len(),
{
    lemma_split_on_nonempty(x, c);
    if y.len() == 0 {
        assert(x + y =~= x);
        assert(split_on(x, c).last() + y =~= split_on(x, c).last());
        assert(split_on(x, c).update(split_on(x, c).len() - 1, split_on(x, c).last())
            =~= split_on(x, c));
    } else {
        let y0 = y.drop_last();
        assert(!y0.contains(c)) by {
            if y0.contains(c) {
                let k = choose|k: int| 0 <= k < y0.len() && y0[k] == c;
                assert(y[k] == c);
            }
        }
        lemma_split_on_append_plain(x, y0, c);
        assert((x + y).drop_last() =~= x + y0);
        assert((x + y).last() == y.last());
        assert(y.last() != c) by {
            assert(y[y.len() - 1] == y.last());
        }
        let p = split_on(x, c);
        let q = p.update(p.len() - 1, p.last() + y0);
        assert(q.last() == p.last() + y0);
        assert((p.last() + y0).push(y.last()) =~= p.last() + y);
        assert(q.update(q.len() - 1, q.last().push(y.last())) =~= p.update(p.len() - 1, p.last() + y));
    }
}

proof fn lemma_trim_space_prefix(t: Seq<char>)
    requires
        trim(t) == t,
        t.len() > 0,
    ensures
        trim(seq![' '] + t) == t,
{
    let s = seq![' '] + t;
    assert(s.drop_first() =~= t);
    assert(crate::text::is_ws(' '));
    assert(trim_start(s) == trim_start(t));
}

proof fn lemma_parse_joined(ts: Seq<Seq<char>>)
    requires
        forall|i: int| 0 <= i < ts.len() ==> trim(#[trigger] ts[i]) == ts[i] && ts[i].len() > 0
            && !ts[i].contains(','),
    ensures
        split_on(joined(ts, ", "@), ',').len() == if ts.len() == 0 {
            1
        } else {
            ts.len()
        },
        tag_list(split_on(joined(ts, ", "@), ',')) == ts,
    decreases ts.len(),
{
    reveal_strlit(", ");
    if ts.len() == 0 {
        assert(split_on(Seq::<char>::empty(), ',') =~= seq![Seq::<char>::empty()]);
        assert(seq![Seq::<char>::empty()].drop_last() =~= Seq::<Seq<char>>::empty());
        assert(trim(Seq::<char>::empty()) =~= Seq::<char>::empty());
        assert(joined(ts, ", "@) == Seq::<char>::empty());
        let ps = seq![Seq::<char>::empty()];
        assert(tag_list(ps) == tag_list(ps.drop_last()));
        assert(tag_list(Seq::<Seq<char>>::empty()) == Seq::<Seq<char>>::empty());
        assert(ts =~= Seq::<Seq<char>>::empty());
    } else if ts.len() == 1 {
        let t = ts[0];
        lemma_split_on_append_plain(Seq::<char>::empty(), t, ',');
        assert(Seq::<char>::empty() + t =~= t);
        assert(split_on(Seq::<char>::empty(), ',') =~= seq![Seq::<char>::empty()]);
        let ps = split_on(t, ',');
        assert(ps =~= seq![t]);
        assert(ps.drop_last() =~= Seq::<Seq<char>>::empty());
        assert(tag_list(Seq::<Seq<char>>::empty()) == Seq::<Seq<char>>::empty());
        assert(trim(ps.last()) == t);
        assert(tag_list(ps) == tag_list(ps.drop_last()).push(trim(ps.last())));
        assert(tag_list(ps) =~= seq![t]);
        assert(ts =~= seq![t]);
    } else {
        let pre = ts.drop_last();
        let t = ts.last();
        assert(forall|i: int| 0 <= i < pre.len() ==> #[trigger] pre[i] == ts[i]);
        lemma_parse_joined(pre);
        let j = joined(pre, ", "@);
        assert(joined(ts, ", "@) == j + ", "@ + t);
        let jc = j.push(',');
        assert(j + ", "@ + t =~= jc + (seq![' '] + t));
        let st = seq![' '] + t;
        assert(!st.contains(',')) by {
            if st.contains(',') {
                let k = choose|k: int| 0 <= k < st.len() && st[k] == ',';
                assert(t[k - 1] == ',');
            }
        }
        lemma_split_on_append_plain(jc, st, ',');
        assert(jc.drop_last() =~= j);
        assert(jc.last() == ',');
        let p = split_on(j, ',');
        assert(split_on(jc, ',') == p.push(Seq::<char>::empty()));
        let q = p.push(Seq::<char>::empty());
        let r = q.update(q.len() - 1, q.last() + st);
        assert(q.last() + st =~= st);
        assert(r =~= p.push(st));
        assert(r.drop_last() =~= p);
        lemma_trim_space_prefix(t);
        assert(r.last() == st);
        assert(tag_list(r) == tag_list(r.drop_last()).push(trim(r.last())));
        assert(tag_list(r) == tag_list(p).push(t));
        assert(pre.push(t) =~= ts);
    }
}

/// A loaded note shows no changes: its tags written out as the editor shows them
/// (joined with `, `) read back as the same tags, so the drafts of a freshly loaded note
/// never count as edits, as long as each tag is non-blank, has no surrounding white
/// space and holds no comma.
pub proof fn lemma_loaded_note_is_clean(note: WorkspaceNoteDocument)
    requires
        forall|i: int| 0 <= i < note.tags@.len() ==> trim(#[trigger] note.tags@[i]@)
            == note.tags@[i]@ && note.tags@[i]@.len() > 0 && !note.tags@[i]@.contains(','),
    ensures
        parse_tags_spec(joined(strs_view(note.tags@), ", "@)) == strs_view(note.tags@),
        !drafts_differ(
            note,
            note.title@,
            joined(strs_view(note.tags@), ", "@),
            note.body_markdown@,
        ),
{
    let ts = strs_view(note.tags@);
    assert forall|i: int| 0 <= i < ts.len() implies trim(#[trigger] ts[i]) == ts[i] && ts[i].len()
        > 0 && !ts[i].contains(',') by {
        assert(ts[i] == note.tags@[i]@);
    }
    lemma_parse_joined(ts);
}

/// Splits a comma-separated draft into trimmed, non-blank tags.
pub fn parse_tag_list(draft: &str) -> (r: Vec<String>)
    ensures
        strs_view(r@) == parse_tags_spec(draft@),
{
    let v = chars_of(draft);
    let mut out: Vec<String> = Vec::new();
    let mut cur: Vec<char> = Vec::new();
    let ghost mut done: Seq<Seq<char>> = Seq::empty();
    let mut i: usize = 0;
    assert(v@.take(0) =~= Seq::<char>::empty());
    while i < v.len()
        invariant
            i <= v@.len(),
            v@ == draft@,
            split_on(v@.take(i as int), ',') == done.push(cur@),
            strs_view(out@) == tag_list(done),
        decreases v@.len() - i,
    {
        let c = v[i];
        assert(v@.take(i + 1).drop_last() =~= v@.take(i as int));
        assert(v@.take(i + 1).last() == c);
        if c == ',' {
            let t = trim_exec(cur.as_slice());
            proof {
                assert(done.push(cur@).drop_last() =~= done);
            }
            if t.len() != 0 {
                let ghost before = strs_view(out@);
                out.push(string_of(&t));
                assert(strs_view(out@) =~= before.push(t@));
            }
            proof {
                done = done.push(cur@);
            }
            cur = Vec::new();
            assert(split_on(v@.take(i + 1), ',') =~= done.push(cur@));
        } else {
            let ghost old_cur = cur@;
            cur.push(c);
            assert(split_on(v@.take(i + 1), ',') =~= done.push(cur@));
        }
        i = i + 1;
    }
    assert(v@.take(v@.len() as int) =~= v@);
    let t = trim_exec(cur.as_slice());
    assert(done.push(cur@).drop_last() =~= done);
    if t.len() != 0 {
        let ghost before = strs_view(out@);
        out.push(string_of(&t));
        assert(strs_view(out@) =~= before.push(t@));
    }
    out
}

/// The strings of `v` joined with `, `.
pub fn join_comma(v: &Vec<String>) -> (r: String)
    ensures
        r@ == joined(strs_view(v@), ", "@),
{
    let mut r = String::new();
    let mut i: usize = 0;
    proof {
        reveal_strlit(", ");
    }
    while i < v.len()
        invariant
            i <= v@.len(),
            r@ == joined(strs_view(v@).take(i as int), ", "@),
        decreases v@.len() - i,
    {
        let ghost ws = strs_view(v@).take(i + 1);
        assert(ws.drop_last() =~= strs_view(v@).take(i as int));
        assert(ws.last() == v@[i as int]@);
        if i > 0 {
            r.append(", ");
        } else {
            assert(r@ =~= Seq::<char>::empty());
        }
        r.append(v[i].as_str());
        i = i + 1;
    }
    assert(strs_view(v@).take(v@.len() as int) =~= strs_view(v@));
    r
}

/// Whether two lists of strings hold the same strings in the same order.
pub fn strs_eq(a: &Vec<String>, b: &Vec<String>) -> (r: bool)
    ensures
        r == (strs_view(a@) == strs_view(b@)),
{
    if a.len() != b.len() {
        assert(strs_view(a@).len() != strs_view(b@).len());
        return false;
    }
    let mut i: usize = 0;
    while i < a.len()
        invariant
            i <= a@.len(),
            a@.len() == b@.len(),
            forall|k: int| 0 <= k < i ==> a@[k]@ == b@[k]@,
        decreases a@.len() - i,
    {
        if !crate::text::str_eq(a[i].as_str(), b[i].as_str()) {
            assert(strs_view(a@)[i as int] != strs_view(b@)[i as int]);
            return false;
        }
        i = i + 1;
    }
    assert(strs_view(a@) =~= strs_view(b@));
    true
}

/// A request to save a note.
#[derive(Debug, Clone)]
pub struct SaveRequest {
    pub note_id: String,
    pub title: String,
    pub body_markdown: String,
    pub tags: Vec<String>,
}

/// Actions produced by the editor.
#[derive(Debug)]
pub struct EditorOutput {
    /// Save was clicked with unsaved changes.
    pub save_note: Option<SaveRequest>,
    /// History was opened: fetch the history of this note.
    pub fetch_history: Option<String>,
    /// Revert was clicked: `(note_id, revision)`.
    pub revert_request: Option<(String, String)>,
}

impl EditorOutput {
    /// No action.
    pub fn new() -> (r: EditorOutput)
        ensures
            r.save_note is None,
            r.fetch_history is None,
            r.revert_request is None,
    {
        EditorOutput { save_note: None, fetch_history: None, revert_request: None }
    }
}

/// How long a status message stays, in milliseconds.
pub const STATUS_MILLIS: i64 = 3000;

/// A status message after `dt` more milliseconds: gone once its time is out, else with
/// `dt` less left.
pub open spec fn status_after(s: Option<(String, i64)>, dt: int) -> Option<(String, i64)> {
    match s {
        Some((m, t)) => if t - dt <= 0 {
            None
        } else {
            Some((m, (t - dt) as i64))
        },
        None => None,
    }
}

/// Mutable state of the note editor.
#[derive(Debug)]
pub struct EditorState {
    /// The loaded note.
    pub note: Option<WorkspaceNoteDocument>,
    /// Whether the drafts differ from the loaded note.
    pub dirty: bool,
    /// Draft title.
    pub draft_title: String,
    /// Draft tags, comma-separated.
    pub draft_tags: String,
    /// Draft body (markdown).
    pub draft_body: String,
    /// Whether the history panel is shown.
    pub show_history: bool,
    /// History entries of the loaded note.
    pub history: Vec<NoteHistoryItem>,
    /// Status message and the milliseconds it has left.
    pub status_message: Option<(String, i64)>,
}

/// Whether the drafts differ from `note`: another title, other parsed tags, or another
/// body.
pub open spec fn drafts_differ(
    note: WorkspaceNoteDocument,
    title: Seq<char>,
    tags: Seq<char>,
    body: Seq<char>,
) -> bool {
    title != note.title@ || parse_tags_spec(tags) != strs_view(note.tags@) || body
        != note.body_markdown@
}

impl EditorState {
    /// No note loaded.
    pub fn new() -> (r: EditorState)
        ensures
            r.note is None,
            !r.dirty,
            r.draft_title@.len() == 0,
            r.draft_tags@.len() == 0,
            r.draft_body@.len() == 0,
            !r.show_history,
            r.history@.len() == 0,
            r.status_message is None,
    {
        EditorState {
            note: None,
            dirty: false,
            draft_title: String::new(),
            draft_tags: String::new(),
            draft_body: String::new(),
            show_history: false,
            history: Vec::new(),
            status_message: None,
        }
    }

    /// Loads a note: drafts from its title, `, `-joined tags and body; clean; history
    /// closed and emptied.
    pub fn load_note(&mut self, note: &WorkspaceNoteDocument)
        ensures
            final(self).note matches Some(n) && same_note(n, *note),
            final(self).draft_title@ == note.title@,
            final(self).draft_tags@ == joined(strs_view(note.tags@), ", "@),
            final(self).draft_body@ == note.body_markdown@,
            !final(self).dirty,
            !final(self).show_history,
            final(self).history@.len() == 0,
            final(self).status_message == old(self).status_message,
    {
        self.note = Some(note.copy());
        self.draft_title = own(note.title.as_str());
        self.draft_tags = join_comma(&note.tags);
        self.draft_body = own(note.body_markdown.as_str());
        self.dirty = false;
        self.show_history = false;
        self.history = Vec::new();
    }

    /// Unloads the note and clears the drafts and history.
    pub fn unload(&mut self)
        ensures
            final(self).note is None,
            final(self).draft_title@.len() == 0,
            final(self).draft_tags@.len() == 0,
            final(self).draft_body@.len() == 0,
            !final(self).dirty,
            !final(self).show_history,
            final(self).history@.len() == 0,
            final(self).status_message == old(self).status_message,
    {
        self.note = None;
        self.draft_title = String::new();
        self.draft_tags = String::new();
        self.draft_body = String::new();
        self.dirty = false;
        self.show_history = false;
        self.history = Vec::new();
    }

    /// Recomputes the dirty flag against the loaded note (unchanged when none is loaded).
    pub fn check_dirty(&mut self)
        ensures
            final(self).dirty == match old(self).note {
                Some(n) => drafts_differ(
                    n,
                    old(self).draft_title@,
                    old(self).draft_tags@,
                    old(self).draft_body@,
                ),
                None => old(self).dirty,
            },
            final(self).note == old(self).note,
            final(self).draft_title == old(self).draft_title,
            final(self).draft_tags == old(self).draft_tags,
            final(self).draft_body == old(self).draft_body,
            final(self).show_history == old(self).show_history,
            final(self).history == old(self).history,
            final(self).status_message == old(self).status_message,
    {
        let d = match &self.note {
            Some(n) => {
                let tags = parse_tag_list(self.draft_tags.as_str());
                !crate::text::str_eq(self.draft_title.as_str(), n.title.as_str()) || !strs_eq(
                    &tags,
                    &n.tags,
                ) || !crate::text::str_eq(self.draft_body.as_str(), n.body_markdown.as_str())
            },
            None => self.dirty,
        };
        self.dirty = d;
    }

    /// The tags of the tag draft.
    pub fn parse_tags(&self) -> (r: Vec<String>)
        ensures
            strs_view(r@) == parse_tags_spec(self.draft_tags@),
    {
        parse_tag_list(self.draft_tags.as_str())
    }

    /// Shows a status message for three seconds.
    pub fn set_status(&mut self, msg: String)
        ensures
            final(self).status_message matches Some((m, t)) && m == msg && t == STATUS_MILLIS,
            final(self).note == old(self).note,
            final(self).dirty == old(self).dirty,
    {
        self.status_message = Some((msg, STATUS_MILLIS));
    }

    /// Advances the status timer by `dt` milliseconds; the message goes once none is left.
    pub fn tick_status(&mut self, dt: i64)
        requires
            0 <= dt,
        ensures
            match old(self).status_message {
                Some((m, t)) => if t - dt <= 0 {
                    final(self).status_message is None
                } else {
                    final(self).status_message == Some((m, (t - dt) as i64))
                },
                None => final(self).status_message is None,
            },
            final(self).note == old(self).note,
            final(self).dirty == old(self).dirty,
            *final(self) == (EditorState { status_message: status_after(old(self).status_message, dt as int), ..*old(self) }),
    {
        match self.status_message.take() {
            Some((m, t)) => {
                let left: i64 = if t < i64::MIN + dt {
                    i64::MIN
                } else {
                    t - dt
                };
                if t < i64::MIN + dt || left <= 0 {
                    self.status_message = None;
                } else {
                    self.status_message = Some((m, left));
                }
            },
            None => {},
        }
    }

    /// The History button: toggles the panel and, when it opens, asks for the history of
    /// the loaded note.
    pub fn toggle_history(&mut self, out: &mut EditorOutput)
        ensures
            final(self).show_history == !old(self).show_history,
            (final(self).show_history && old(self).note is Some) ==> opt_view(
                final(out).fetch_history,
            ) == Some(old(self).note->Some_0.note_id@),
            !(final(self).show_history && old(self).note is Some) ==> final(out).fetch_history
                == old(out).fetch_history,
            final(out).save_note == old(out).save_note,
            final(out).revert_request == old(out).revert_request,
            final(self).note == old(self).note,
    {
        self.show_history = !self.show_history;
        if self.show_history {
            match &self.note {
                Some(n) => {
                    out.fetch_history = Some(own(n.note_id.as_str()));
                },
                None => {},
            }
        }
    }

    /// The Save button: with a loaded note and unsaved changes, asks to save the drafts.
    pub fn click_save(&self, out: &mut EditorOutput)
        ensures
            (self.dirty && self.note is Some) ==> (final(out).save_note matches Some(s) && s.note_id@
                == self.note->Some_0.note_id@ && s.title@ == self.draft_title@ && s.body_markdown@
                == self.draft_body@ && strs_view(s.tags@) == parse_tags_spec(self.draft_tags@)),
            !(self.dirty && self.note is Some) ==> final(out).save_note == old(out).save_note,
            final(out).fetch_history == old(out).fetch_history,
            final(out).revert_request == old(out).revert_request,
    {
        if self.dirty {
            match &self.note {
                Some(n) => {
                    out.save_note = Some(
                        SaveRequest {
                            note_id: own(n.note_id.as_str()),
                            title: own(self.draft_title.as_str()),
                            body_markdown: own(self.draft_body.as_str()),
                            tags: self.parse_tags(),
                        },
                    );
                },
                None => {},
            }
        }
    }

    /// A Revert button of a history entry: asks to revert the loaded note to `sha`.
    pub fn click_revert(&self, out: &mut EditorOutput, sha: &str)
        ensures
            self.note is Some ==> (final(out).revert_request matches Some((id, s)) && id@
                == self.note->Some_0.note_id@ && s@ == sha@),
            self.note is None ==> final(out).revert_request == old(out).revert_request,
            final(out).save_note == old(out).save_note,
            final(out).fetch_history == old(out).fetch_history,
    {
        match &self.note {
            Some(n) => {
                out.revert_request = Some((own(n.note_id.as_str()), own(sha)));
            },
            None => {},
        }
    }
}

/// The shown part of a commit sha: its first 7 bytes when longer.
pub fn short_sha(sha: &str) -> (r: String)
    requires
        byte_len(sha@) > 7 ==> is_char_boundary(sha@, 7),
    ensures
        byte_len(sha@) > 7 ==> byte_len(r@) == 7 && sha@.take(r@.len() as int) == r@,
        byte_len(sha@) <= 7 ==> r@ == sha@,
{
    let v = chars_of(sha);
    if crate::preview::byte_len_exceeds(&v, 7) {
        let t = take_bytes(&v, 7);
        string_of(&t)
    } else {
        own(sha)
    }
}

} // verus!
