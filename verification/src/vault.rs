//! Layout of the workspace store and markdown vault: directory and file paths, vault file
//! names `slug--note_id.md`, title slugs, and the frontmatter of vault notes.
use vstd::prelude::*;
use vstd::hash_map::StringHashMap;

use crate::model::{cat, cat3, own, strs_view, WorkspaceNoteDocument};
use crate::preview::{replace_all, replace_all_exec};
use crate::text::{
    chars_of, ends_with, ends_with_exec, find, find_exec, is_alphanumeric, lemma_find,
    lines, lines_exec, occurs_at, occurs_at_exec, string_of, sub_vec, to_lowercase, trim,
    trim_exec, trim_start, trim_start_exec, unicode_alphanumeric, unicode_lowercase, views,
    starts_with, starts_with_exec,
};

verus! {

/// `q` appended to the path `p` as `Path::join` does on Unix: an absolute `q` replaces
/// `p`; otherwise a `/` separates them unless `p` is empty or already ends with one.
pub open spec fn join_path(p: Seq<char>, q: Seq<char>) -> Seq<char> {
    if q.len() > 0 && q[0] == '/' {
        q
    } else if p.len() == 0 || p.last() == '/' {
        p + q
    } else {
        p + seq!['/'] + q
    }
}

/// The path `p` joined with `q` (Unix `Path::join`).
pub fn join(p: &str, q: &str) -> (r: String)
    ensures
        r@ == join_path(p@, q@),
{
    let pv = chars_of(p);
    let qv = chars_of(q);
    proof {
        reveal_strlit("/");
    }
    if qv.len() > 0 && qv[0] == '/' {
        own(q)
    } else if pv.len() == 0 || pv[pv.len() - 1] == '/' {
        cat(p, q)
    } else {
        cat3(p, "/", q)
    }
}

pub open spec fn store_dir_spec(root: Seq<char>, ws: Seq<char>) -> Seq<char> {
    join_path(root, ws)
}

pub open spec fn notes_dir_spec(root: Seq<char>, ws: Seq<char>) -> Seq<char> {
    join_path(store_dir_spec(root, ws), "notes"@)
}

pub open spec fn boards_dir_spec(root: Seq<char>, ws: Seq<char>) -> Seq<char> {
    join_path(store_dir_spec(root, ws), "boards"@)
}

pub open spec fn ingests_dir_spec(root: Seq<char>, ws: Seq<char>) -> Seq<char> {
    join_path(store_dir_spec(root, ws), "ingests"@)
}

pub open spec fn vault_notes_dir_spec(root: Seq<char>, ws: Seq<char>) -> Seq<char> {
    join_path(join_path(root, ws), "notes"@)
}

/// The store directory of a workspace.
pub fn store_dir(store_root: &str, workspace_id: &str) -> (r: String)
    ensures
        r@ == store_dir_spec(store_root@, workspace_id@),
{
    join(store_root, workspace_id)
}

/// The notes directory of a workspace store.
pub fn notes_dir(store_root: &str, workspace_id: &str) -> (r: String)
    ensures
        r@ == notes_dir_spec(store_root@, workspace_id@),
{
    join(store_dir(store_root, workspace_id).as_str(), "notes")
}

/// The boards directory of a workspace store.
pub fn boards_dir(store_root: &str, workspace_id: &str) -> (r: String)
    ensures
        r@ == boards_dir_spec(store_root@, workspace_id@),
{
    join(store_dir(store_root, workspace_id).as_str(), "boards")
}

/// The ingests directory of a workspace store.
pub fn ingests_dir(store_root: &str, workspace_id: &str) -> (r: String)
    ensures
        r@ == ingests_dir_spec(store_root@, workspace_id@),
{
    join(store_dir(store_root, workspace_id).as_str(), "ingests")
}

/// The vault directory of a workspace.
pub fn vault_dir(vault_root: &str, workspace_id: &str) -> (r: String)
    ensures
        r@ == join_path(vault_root@, workspace_id@),
{
    join(vault_root, workspace_id)
}

/// The notes directory of a workspace vault.
pub fn vault_notes_dir(vault_root: &str, workspace_id: &str) -> (r: String)
    ensures
        r@ == vault_notes_dir_spec(vault_root@, workspace_id@),
{
    join(vault_dir(vault_root, workspace_id).as_str(), "notes")
}

/// The JSON file of a note in the store.
pub fn note_json_path(store_root: &str, workspace_id: &str, note_id: &str) -> (r: String)
    ensures
        r@ == join_path(notes_dir_spec(store_root@, workspace_id@), note_id@ + ".json"@),
{
    let name = cat(note_id, ".json");
    join(notes_dir(store_root, workspace_id).as_str(), name.as_str())
}

/// The JSON file of a board in the store.
pub fn board_json_path(store_root: &str, workspace_id: &str, board_id: &str) -> (r: String)
    ensures
        r@ == join_path(boards_dir_spec(store_root@, workspace_id@), board_id@ + ".json"@),
{
    let name = cat(board_id, ".json");
    join(boards_dir(store_root, workspace_id).as_str(), name.as_str())
}

/// The vault file name of a note.
pub open spec fn vault_file_name(slug: Seq<char>, note_id: Seq<char>) -> Seq<char> {
    slug + "--"@ + note_id + ".md"@
}

/// The markdown file of a note in the vault.
pub fn note_vault_path(vault_root: &str, workspace_id: &str, slug: &str, note_id: &str) -> (r:
    String)
    ensures
        r@ == join_path(vault_notes_dir_spec(vault_root@, workspace_id@), vault_file_name(slug@, note_id@)),
{
    let mut name = cat3(slug, "--", note_id);
    name.append(".md");
    join(vault_notes_dir(vault_root, workspace_id).as_str(), name.as_str())
}

/// The path of a note's markdown file relative to its workspace vault.
pub fn note_relative_path(slug: &str, note_id: &str) -> (r: String)
    ensures
        r@ == "notes/"@ + vault_file_name(slug@, note_id@),
{
    let mut r = cat3("notes/", slug, "--");
    r.append(note_id);
    r.append(".md");
    r
}

/// Last index where `p` occurs in `s` at or before `i`.
pub open spec fn rfind_to(s: Seq<char>, p: Seq<char>, i: int) -> Option<int>
    decreases i + 1,
{
    if i < 0 {
        None
    } else if occurs_at(s, p, i) {
        Some(i)
    } else {
        rfind_to(s, p, i - 1)
    }
}

/// Last index where `p` occurs in `s`.
pub open spec fn rfind(s: Seq<char>, p: Seq<char>) -> Option<int> {
    rfind_to(s, p, s.len() - p.len())
}

pub proof fn lemma_rfind_to(s: Seq<char>, p: Seq<char>, i: int)
    ensures
        rfind_to(s, p, i) matches Some(k) ==> 0 <= k <= i && occurs_at(s, p, k),
    decreases i + 1,
{
    if i >= 0 && !occurs_at(s, p, i) {
        lemma_rfind_to(s, p, i - 1);
    }
}

/// `(slug, note_id)` of a vault file name `slug--note_id.md`, split at the last `--`.
pub open spec fn vault_name_parts(name: Seq<char>) -> Option<(Seq<char>, Seq<char>)> {
    if !ends_with(name, ".md"@) {
        None
    } else {
        let stem = name.take(name.len() - 3);
        match rfind(stem, "--"@) {
            Some(k) => Some((stem.take(k), stem.skip(k + 2))),
            None => None,
        }
    }
}

/// The file name of a note in the vault reads back as its slug and id whenever the id
/// neither holds `--` nor starts with `-` (a UUID never does): the last `--` of the name
/// is the one placed between them.
pub proof fn lemma_vault_name_round_trip(slug: Seq<char>, note_id: Seq<char>)
    requires
        forall|i: int| !#[trigger] occurs_at(note_id, "--"@, i),
        note_id.len() == 0 || note_id[0] != '-',
    ensures
        vault_name_parts(vault_file_name(slug, note_id)) == Some((slug, note_id)),
{
    reveal_strlit(".md");
    reveal_strlit("--");
    let name = vault_file_name(slug, note_id);
    let stem = slug + "--"@ + note_id;
    assert(name =~= stem + ".md"@);
    assert(name.subrange(name.len() - 3, name.len() as int) =~= ".md"@);
    assert(name.take(name.len() - 3) =~= stem);
    let k0 = slug.len() as int;
    assert(stem.subrange(k0, k0 + 2) =~= "--"@);
    assert forall|k: int| k0 < k <= stem.len() - 2 implies !occurs_at(stem, "--"@, k) by {
        if occurs_at(stem, "--"@, k) {
            assert(stem.subrange(k, k + 2)[0] == stem[k]);
            assert(stem.subrange(k, k + 2)[1] == stem[k + 1]);
            if k == k0 + 1 {
                assert(stem[k + 1] == note_id[0]);
            } else {
                assert(note_id.subrange(k - k0 - 2, k - k0) =~= stem.subrange(k, k + 2));
                assert(occurs_at(note_id, "--"@, k - k0 - 2));
            }
        }
    }
    lemma_rfind_to_last(stem, "--"@, k0, stem.len() - 2);
    assert(stem.take(k0) =~= slug);
    assert(stem.skip(k0 + 2) =~= note_id);
}

proof fn lemma_rfind_to_last(s: Seq<char>, p: Seq<char>, k0: int, i: int)
    requires
        0 <= k0 <= i,
        occurs_at(s, p, k0),
        forall|k: int| k0 < k <= i ==> !occurs_at(s, p, k),
    ensures
        rfind_to(s, p, i) == Some(k0),
    decreases i - k0,
{
    if i > k0 {
        lemma_rfind_to_last(s, p, k0, i - 1);
    }
}

/// Parses a vault file name `slug--note_id.md` into `(slug, note_id)`.
pub fn parse_vault_filename(name: &str) -> (r: Option<(String, String)>)
    ensures
        match r {
            Some((a, b)) => vault_name_parts(name@) == Some((a@, b@)),
            None => vault_name_parts(name@) is None,
        },
{
    let v = chars_of(name);
    let md = chars_of(".md");
    proof {
        reveal_strlit(".md");
        reveal_strlit("--");
    }
    if !ends_with_exec(&v, &md) {
        return None;
    }
    let stem = sub_vec(&v, 0, v.len() - 3);
    assert(stem@ =~= name@.take(name@.len() - 3));
    let sep = chars_of("--");
    assert(sep@ =~= seq!['-', '-']);
    let n = stem.len();
    if n < 2 {
        proof {
            lemma_rfind_to(stem@, sep@, stem@.len() - 2);
        }
        return None;
    }
    let mut i: usize = n - 2;
    loop
        invariant
            n == stem@.len(),
            i + 2 <= n,
            stem@ == name@.take(name@.len() - 3),
            ends_with(name@, ".md"@),
            sep@ == "--"@,
            sep@ == seq!['-', '-'],
            rfind(stem@, sep@) == rfind_to(stem@, sep@, i as int),
        decreases i,
    {
        if occurs_at_exec(&stem, &sep, i) {
            let slug = sub_vec(&stem, 0, i);
            let id = sub_vec(&stem, i + 2, n);
            return Some((string_of(&slug), string_of(&id)));
        }
        if i == 0 {
            assert(rfind_to(stem@, sep@, -1) is None);
            return None;
        }
        i = i - 1;
    }
}

/// The slug of a title: lower-cased, characters other than alphanumerics and spaces
/// dropped, spaces turned into `-`, each `--` (scanned from the left) turned into `-`, and
/// `-` trimmed at both ends.
pub open spec fn slug_spec(title: Seq<char>) -> Seq<char> {
    trim_dashes(replace_all(slug_chars(unicode_lowercase(title)), "--"@, "-"@))
}

/// `s` with characters other than alphanumerics and spaces dropped and spaces turned into
/// `-`.
pub open spec fn slug_chars(s: Seq<char>) -> Seq<char>
    decreases s.len(),
{
    if s.len() == 0 {
        Seq::<char>::empty()
    } else {
        let prev = slug_chars(s.drop_last());
        let c = s.last();
        if c == ' ' {
            prev.push('-')
        } else if unicode_alphanumeric(c) {
            prev.push(c)
        } else {
            prev
        }
    }
}

/// `s` with leading and trailing `-` removed.
pub open spec fn trim_dashes(s: Seq<char>) -> Seq<char> {
    trim_dashes_end(trim_dashes_start(s))
}

pub open spec fn trim_dashes_start(s: Seq<char>) -> Seq<char>
    decreases s.len(),
{
    if s.len() > 0 && s[0] == '-' {
        trim_dashes_start(s.drop_first())
    } else {
        s
    }
}

pub open spec fn trim_dashes_end(s: Seq<char>) -> Seq<char>
    decreases s.len(),
{
    if s.len() > 0 && s.last() == '-' {
        trim_dashes_end(s.drop_last())
    } else {
        s
    }
}

/// `s` with leading and trailing copies of `c` removed.
pub open spec fn trim_char(s: Seq<char>, c: char) -> Seq<char> {
    trim_char_end(trim_char_start(s, c), c)
}

pub open spec fn trim_char_start(s: Seq<char>, c: char) -> Seq<char>
    decreases s.len(),
{
    if s.len() > 0 && s[0] == c {
        trim_char_start(s.drop_first(), c)
    } else {
        s
    }
}

pub open spec fn trim_char_end(s: Seq<char>, c: char) -> Seq<char>
    decreases s.len(),
{
    if s.len() > 0 && s.last() == c {
        trim_char_end(s.drop_last(), c)
    } else {
        s
    }
}

/// `s` with leading and trailing `c` removed (as `str::trim_matches` with a character).
pub fn trim_char_exec(s: &Vec<char>, c: char) -> (r: Vec<char>)
    ensures
        r@ == trim_char(s@, c),
{
    let n = s.len();
    let mut i: usize = 0;
    assert(s@.subrange(0, n as int) =~= s@);
    while i < n && s[i] == c
        invariant
            n == s@.len(),
            i <= n,
            trim_char_start(s@, c) == trim_char_start(s@.subrange(i as int, n as int), c),
        decreases n - i,
    {
        assert(s@.subrange(i as int, n as int).drop_first() =~= s@.subrange(i + 1, n as int));
        i = i + 1;
    }
    let t = sub_vec(s, i, n);
    let mut j: usize = t.len();
    assert(t@.subrange(0, j as int) =~= t@);
    while j > 0 && t[j - 1] == c
        invariant
            j <= t@.len(),
            trim_char_end(t@, c) == trim_char_end(t@.subrange(0, j as int), c),
        decreases j,
    {
        assert(t@.subrange(0, j as int).drop_last() =~= t@.subrange(0, j - 1));
        j = j - 1;
    }
    sub_vec(&t, 0, j)
}

proof fn lemma_trim_dashes(s: Seq<char>)
    ensures
        trim_dashes_start(s) == trim_char_start(s, '-'),
        trim_dashes_end(s) == trim_char_end(s, '-'),
    decreases s.len(),
{
    if s.len() > 0 {
        lemma_trim_dashes(s.drop_first());
        lemma_trim_dashes(s.drop_last());
    }
}

proof fn lemma_slug_chars_concat(a: Seq<char>, b: Seq<char>)
    ensures
        slug_chars(a + b) == slug_chars(a) + slug_chars(b),
    decreases b.len(),
{
    if b.len() == 0 {
        assert(a + b =~= a);
        assert(slug_chars(a) + slug_chars(b) =~= slug_chars(a));
    } else {
        assert((a + b).drop_last() =~= a + b.drop_last());
        assert((a + b).last() == b.last());
        lemma_slug_chars_concat(a, b.drop_last());
        let c = b.last();
        if c == ' ' {
            assert(slug_chars(a + b) =~= slug_chars(a) + slug_chars(b));
        } else if unicode_alphanumeric(c) {
            assert(slug_chars(a + b) =~= slug_chars(a) + slug_chars(b));
        }
    }
}

/// Letters and digits other than a space or `-`.
pub open spec fn plain_word(w: Seq<char>) -> bool {
    forall|i: int| 0 <= i < w.len() ==> unicode_alphanumeric(#[trigger] w[i]) && w[i] != ' ' && w[i] != '-'
}

/// Characters a slug drops: neither alphanumeric nor a space.
pub open spec fn dropped_chars(d: Seq<char>) -> bool {
    forall|i: int| 0 <= i < d.len() ==> !unicode_alphanumeric(#[trigger] d[i]) && d[i] != ' '
}

proof fn lemma_slug_chars_word(w: Seq<char>)
    requires
        plain_word(w),
    ensures
        slug_chars(w) == w,
    decreases w.len(),
{
    if w.len() > 0 {
        lemma_slug_chars_word(w.drop_last());
        assert(w.drop_last().push(w.last()) =~= w);
    }
}

proof fn lemma_slug_chars_dropped(d: Seq<char>)
    requires
        dropped_chars(d),
    ensures
        slug_chars(d) == Seq::<char>::empty(),
    decreases d.len(),
{
    if d.len() > 0 {
        lemma_slug_chars_dropped(d.drop_last());
    }
}

proof fn lemma_no_double_dash(w: Seq<char>)
    requires
        plain_word(w),
    ensures
        replace_all(w, "--"@, "-"@) == w,
{
    reveal_strlit("--");
    lemma_find(w, "--"@);
    if find(w, "--"@) is Some {
        let k = find(w, "--"@)->Some_0;
        assert(w.subrange(k, k + 2)[0] == w[k]);
    }
}

proof fn lemma_collapse_double_dash(w1: Seq<char>, w2: Seq<char>)
    requires
        plain_word(w1),
        plain_word(w2),
    ensures
        replace_all(w1 + "--"@ + w2, "--"@, "-"@) == w1 + "-"@ + w2,
{
    reveal_strlit("--");
    reveal_strlit("-");
    let s = w1 + "--"@ + w2;
    let n = w1.len() as int;
    assert(s.subrange(n, n + 2) =~= "--"@);
    assert(occurs_at(s, "--"@, n));
    lemma_find(s, "--"@);
    let k = find(s, "--"@)->Some_0;
    if k < n {
        assert(s.subrange(k, k + 2)[0] == s[k]);
        assert(s[k] == w1[k]);
    }
    assert(k == n);
    assert(s.take(k) =~= w1);
    assert(s.skip(k + 2) =~= w2);
    lemma_no_double_dash(w2);
    assert(s.take(k) + "-"@ + replace_all(s.skip(k + 2), "--"@, "-"@) =~= w1 + "-"@ + w2);
}

/// Two words of letters and digits separated by a space, any run of characters a slug
/// drops (none, or such as `&`), and a space give the two words joined by one `-`: the
/// `--` the two spaces leave is collapsed. So `Rust & Go` and `Rust  Go` both give
/// `rust-go` (the title's lower-cased form is given as `w1`, the dropped run and `w2`).
pub proof fn lemma_slug_joins_words(title: Seq<char>, w1: Seq<char>, d: Seq<char>, w2: Seq<char>)
    requires
        unicode_lowercase(title) == w1 + " "@ + d + " "@ + w2,
        w1.len() > 0,
        w2.len() > 0,
        plain_word(w1),
        plain_word(w2),
        dropped_chars(d),
    ensures
        slug_spec(title) == w1 + "-"@ + w2,
{
    reveal_strlit(" ");
    reveal_strlit("-");
    reveal_strlit("--");
    let sp = " "@;
    lemma_slug_chars_concat(w1 + sp + d + sp, w2);
    lemma_slug_chars_concat(w1 + sp + d, sp);
    lemma_slug_chars_concat(w1 + sp, d);
    lemma_slug_chars_concat(w1, sp);
    lemma_slug_chars_word(w1);
    lemma_slug_chars_word(w2);
    lemma_slug_chars_dropped(d);
    assert(sp.len() == 1 && sp.last() == ' ');
    assert(sp.drop_last() =~= Seq::<char>::empty());
    assert(slug_chars(Seq::<char>::empty()) =~= Seq::<char>::empty());
    assert(slug_chars(sp) =~= slug_chars(Seq::<char>::empty()).push('-'));
    assert(slug_chars(sp) =~= "-"@);
    assert(slug_chars(unicode_lowercase(title)) =~= w1 + "--"@ + w2);
    lemma_collapse_double_dash(w1, w2);
    let j = w1 + "-"@ + w2;
    assert(j[0] == w1[0]);
    assert(j.last() == w2.last());
    assert(trim_dashes_start(j) == j);
    assert(trim_dashes_end(j) == j);
}

/// Turns a title into a URL-friendly slug.
pub fn slugify(title: &str) -> (r: String)
    ensures
        r@ == slug_spec(title@),
{
    let lower = to_lowercase(title);
    let lv = chars_of(lower.as_str());
    let mut kept: Vec<char> = Vec::new();
    let mut i: usize = 0;
    while i < lv.len()
        invariant
            i <= lv@.len(),
            kept@ == slug_chars(lv@.take(i as int)),
        decreases lv@.len() - i,
    {
        let c = lv[i];
        assert(lv@.take(i + 1).drop_last() =~= lv@.take(i as int));
        assert(lv@.take(i + 1).last() == c);
        if c == ' ' {
            kept.push('-');
        } else if is_alphanumeric(c) {
            kept.push(c);
        }
        i = i + 1;
    }
    assert(lv@.take(lv@.len() as int) =~= lv@);
    let dd = chars_of("--");
    let d = chars_of("-");
    proof {
        reveal_strlit("--");
    }
    let collapsed = replace_all_exec(&kept, &dd, &d);
    proof {
        lemma_trim_dashes(collapsed@);
        lemma_trim_dashes(trim_dashes_start(collapsed@));
    }
    string_of(&trim_char_exec(&collapsed, '-'))
}

/// Frontmatter entries of `block`: for each line, trimmed and non-empty, holding a `:`,
/// the trimmed text before the first `:` maps to the trimmed text after it; later lines
/// replace earlier ones with the same key.
pub open spec fn frontmatter_entries(acc: Map<Seq<char>, Seq<char>>, ls: Seq<Seq<char>>) -> Map<
    Seq<char>,
    Seq<char>,
>
    decreases ls.len(),
{
    if ls.len() == 0 {
        acc
    } else {
        let prev = frontmatter_entries(acc, ls.drop_last());
        let line = trim(ls.last());
        match find(line, ":"@) {
            Some(k) => if line.len() > 0 {
                prev.insert(trim(line.take(k)), trim(line.skip(k + 1)))
            } else {
                prev
            },
            None => prev,
        }
    }
}

/// The frontmatter of `content` and its body: a `---` line, entries, and a `\n---`
/// delimiter, the body being what follows the delimiter with leading white space removed.
/// Without both delimiters there is no frontmatter and the body is the whole content.
pub open spec fn frontmatter_spec(content: Seq<char>) -> (Map<Seq<char>, Seq<char>>, Seq<char>) {
    if !starts_with(content, "---\n"@) && !starts_with(content, "---\r\n"@) {
        (Map::empty(), content)
    } else {
        let after = content.skip(3);
        match find(after, "\n---"@) {
            Some(end) => (
                frontmatter_entries(Map::empty(), lines(after.take(end))),
                trim_start(after.skip(end + 4)),
            ),
            None => (Map::empty(), content),
        }
    }
}

pub open spec fn map_view(m: Map<Seq<char>, String>) -> Map<Seq<char>, Seq<char>> {
    m.map_values(|v: String| v@)
}

/// Parses frontmatter whose values are JSON literals after `key:`.
pub fn parse_frontmatter(content: &str) -> (r: Result<(StringHashMap<String>, String), String>)
    ensures
        match r {
            Ok((m, body)) => (map_view(m@), body@) == frontmatter_spec(content@),
            Err(_) => false,
        },
{
    let mut map: StringHashMap<String> = StringHashMap::new();
    let v = chars_of(content);
    let open1 = chars_of("---\n");
    let open2 = chars_of("---\r\n");
    proof {
        reveal_strlit("---\n");
        reveal_strlit("---\r\n");
        reveal_strlit("\n---");
        reveal_strlit(":");
    }
    assert(map_view(map@) =~= Map::<Seq<char>, Seq<char>>::empty());
    if !starts_with_exec(&v, &open1) && !starts_with_exec(&v, &open2) {
        return Ok((map, string_of(&v)));
    }
    let after = sub_vec(&v, 3, v.len());
    assert(after@ =~= v@.skip(3));
    let close = chars_of("\n---");
    proof {
        lemma_find(after@, close@);
    }
    let end = match find_exec(&after, &close) {
        Some(e) => e,
        None => {
            return Ok((map, string_of(&v)));
        },
    };
    let block = sub_vec(&after, 0, end);
    let rest = sub_vec(&after, end + 4, after.len());
    assert(rest@ =~= after@.skip(end + 4));
    let body = trim_start_exec(&rest);
    let ls = lines_exec(&block);
    let ghost lv = views(ls@);
    let colon = chars_of(":");
    assert(colon@ =~= seq![':']);
    let mut i: usize = 0;
    assert(lv.take(0) =~= Seq::<Seq<char>>::empty());
    while i < ls.len()
        invariant
            i <= ls@.len(),
            lv == views(ls@),
            colon@ == ":"@,
            colon@.len() == 1,
            map_view(map@) == frontmatter_entries(Map::empty(), lv.take(i as int)),
        decreases ls@.len() - i,
    {
        assert(lv.take(i + 1).drop_last() =~= lv.take(i as int));
        assert(lv.take(i + 1).last() == ls@[i as int]@);
        let line = trim_exec(&ls[i]);
        proof {
            lemma_find(line@, colon@);
        }
        if line.len() > 0 {
            match find_exec(&line, &colon) {
                Some(k) => {
                    assert(colon@.len() == 1);
                    let key = trim_exec(&sub_vec(&line, 0, k));
                    let value = trim_exec(&sub_vec(&line, k + 1, line.len()));
                    let ghost before = map_view(map@);
                    let vs = string_of(&value);
                    map.insert(string_of(&key), vs);
                    assert(map_view(map@) =~= before.insert(key@, value@));
                },
                None => {},
            }
        }
        i = i + 1;
    }
    assert(lv.take(lv.len() as int) =~= lv);
    Ok((map, string_of(&body)))
}

/// The JSON text of a list of strings, as `serde_json::to_string` writes it.
pub uninterp spec fn json_string_list(items: Seq<Seq<char>>) -> Seq<char>;

/// JSON array text on one line: `[`, then the items, then `]`, with no line break.
pub open spec fn one_line_json_array(t: Seq<char>) -> bool {
    &&& t.len() >= 2
    &&& t[0] == '['
    &&& t.last() == ']'
    &&& forall|i: int| 0 <= i < t.len() ==> t[i] != '\n'
}

/// Calls `serde_json::to_string` on a list of strings. Serializing a `Vec<String>` cannot
/// fail, so the result is the JSON array text, a function of the items alone. The compact
/// writer opens the array with `[`, closes it with `]`, puts no white space between
/// tokens, and writes a line break inside a string as the escape `\n`, so the text is on
/// one line.
#[verifier::external_body]
fn to_json_string_list(items: &Vec<String>) -> (r: String)
    ensures
        r@ == json_string_list(strs_view(items@)),
        one_line_json_array(r@),
{
    serde_json::to_string(items).unwrap_or_else(|_| String::from("[]"))
}

/// The strings of a JSON array text, or none when the text is not one.
pub uninterp spec fn json_parse_string_list(text: Seq<char>) -> Option<Seq<Seq<char>>>;

/// Calls `serde_json::from_str::<Vec<String>>`; the outcome is a function of the text.
#[verifier::external_body]
fn from_json_string_list(text: &str) -> (r: Option<Vec<String>>)
    ensures
        match r {
            Some(v) => json_parse_string_list(text@) == Some(strs_view(v@)),
            None => json_parse_string_list(text@) is None,
        },
{
    serde_json::from_str::<Vec<String>>(text).ok()
}

/// `"s"` with each `"` in `s` preceded by `\`.
pub open spec fn quote_escaped(s: Seq<char>) -> Seq<char> {
    "\""@ + crate::text::replace_char(s, '"', "\\\""@) + "\""@
}

fn quote_escaped_exec(s: &str) -> (r: String)
    ensures
        r@ == quote_escaped(s@),
{
    let esc = crate::text::replace_char_exec(&chars_of(s), '"', &chars_of("\\\""));
    let body = string_of(&esc);
    cat3("\"", body.as_str(), "\"")
}

/// A JSON-ish literal for an optional value: `"value"` or `null`.
pub open spec fn opt_quoted(o: Option<Seq<char>>, escape: bool) -> Seq<char> {
    match o {
        Some(s) => if escape {
            quote_escaped(s)
        } else {
            "\""@ + s + "\""@
        },
        None => "null"@,
    }
}

/// The vault markdown of a note: frontmatter lines for id, workspace, project, title,
/// summary, tags, entity hints, source and graph status, a blank line, then the body.
pub open spec fn frontmatter_text(note: WorkspaceNoteDocument) -> Seq<char> {
    "---\nnote_id: \""@ + note.note_id@ + "\"\nworkspace_id: \""@ + note.workspace_id@
        + "\"\nproject_id: "@ + opt_quoted(crate::model::opt_view(note.project_id), false)
        + "\ntitle: "@ + quote_escaped(note.title@) + "\nsummary: "@ + opt_quoted(
        crate::model::opt_view(note.summary),
        true,
    ) + "\ntags: "@ + json_string_list(strs_view(note.tags@)) + "\nentity_hints: "@
        + json_string_list(strs_view(note.entity_hints@)) + "\nsource: \""@ + note.source@
        + "\"\ngraph_status: \""@ + note.graph_status@ + "\"\n---\n\n"@ + note.body_markdown@
}

fn opt_quoted_exec(o: &Option<String>, escape: bool) -> (r: String)
    ensures
        r@ == opt_quoted(crate::model::opt_view(*o), escape),
{
    match o {
        Some(s) => if escape {
            quote_escaped_exec(s.as_str())
        } else {
            cat3("\"", s.as_str(), "\"")
        },
        None => own("null"),
    }
}

/// Builds the vault markdown (frontmatter and body) of a note.
pub fn build_frontmatter(note: &WorkspaceNoteDocument) -> (r: String)
    ensures
        r@ == frontmatter_text(*note),
        one_line_json_array(json_string_list(strs_view(note.tags@))),
        one_line_json_array(json_string_list(strs_view(note.entity_hints@))),
{
    let mut r = String::from_str("---\nnote_id: \"");
    r.append(note.note_id.as_str());
    r.append("\"\nworkspace_id: \"");
    r.append(note.workspace_id.as_str());
    r.append("\"\nproject_id: ");
    r.append(opt_quoted_exec(&note.project_id, false).as_str());
    r.append("\ntitle: ");
    r.append(quote_escaped_exec(note.title.as_str()).as_str());
    r.append("\nsummary: ");
    r.append(opt_quoted_exec(&note.summary, true).as_str());
    r.append("\ntags: ");
    r.append(to_json_string_list(&note.tags).as_str());
    r.append("\nentity_hints: ");
    r.append(to_json_string_list(&note.entity_hints).as_str());
    r.append("\nsource: \"");
    r.append(note.source.as_str());
    r.append("\"\ngraph_status: \"");
    r.append(note.graph_status.as_str());
    r.append("\"\n---\n\n");
    r.append(note.body_markdown.as_str());
    r
}

/// A frontmatter value that may be `null`: absent for a missing key or `null`, else the
/// value with surrounding `"` removed.
pub open spec fn fm_nullable(fm: Map<Seq<char>, Seq<char>>, key: Seq<char>) -> Option<Seq<char>> {
    if fm.contains_key(key) && fm[key] != "null"@ {
        Some(trim_char(fm[key], '"'))
    } else {
        None
    }
}

/// A frontmatter text value with surrounding `"` removed, or `default` when missing.
pub open spec fn fm_text(fm: Map<Seq<char>, Seq<char>>, key: Seq<char>, default: Seq<char>) -> Seq<
    char,
> {
    if fm.contains_key(key) {
        trim_char(fm[key], '"')
    } else {
        default
    }
}

/// A frontmatter list value parsed as JSON, or empty when missing or not a list.
pub open spec fn fm_list(fm: Map<Seq<char>, Seq<char>>, key: Seq<char>) -> Seq<Seq<char>> {
    if fm.contains_key(key) {
        match json_parse_string_list(fm[key]) {
            Some(v) => v,
            None => Seq::<Seq<char>>::empty(),
        }
    } else {
        Seq::<Seq<char>>::empty()
    }
}

fn fm_nullable_exec(fm: &StringHashMap<String>, key: &str) -> (r: Option<String>)
    ensures
        crate::model::opt_view(r) == fm_nullable(map_view(fm@), key@),
{
    match fm.get(key) {
        Some(v) => {
            let null = own("null");
            if *v == null {
                None
            } else {
                Some(string_of(&trim_char_exec(&chars_of(v.as_str()), '"')))
            }
        },
        None => None,
    }
}

fn fm_text_exec(fm: &StringHashMap<String>, key: &str, default: &str) -> (r: String)
    ensures
        r@ == fm_text(map_view(fm@), key@, default@),
{
    match fm.get(key) {
        Some(v) => string_of(&trim_char_exec(&chars_of(v.as_str()), '"')),
        None => own(default),
    }
}

fn fm_list_exec(fm: &StringHashMap<String>, key: &str) -> (r: Vec<String>)
    ensures
        strs_view(r@) == fm_list(map_view(fm@), key@),
{
    match fm.get(key) {
        Some(v) => match from_json_string_list(v.as_str()) {
            Some(list) => list,
            None => {
                let e: Vec<String> = Vec::new();
                assert(strs_view(e@) =~= Seq::<Seq<char>>::empty());
                e
            },
        },
        None => {
            let e: Vec<String> = Vec::new();
            assert(strs_view(e@) =~= Seq::<Seq<char>>::empty());
            e
        },
    }
}

/// The note a vault file describes: its frontmatter fields (`null` and missing optional
/// fields absent, text fields unquoted, `tags` and `entity_hints` parsed as JSON lists,
/// `source` defaulting to `user` and `graph_status` to `not_ingested`), the given body,
/// ids, slug and path, and `now` as both timestamps.
pub open spec fn note_from_fm_spec(
    r: WorkspaceNoteDocument,
    fm: Map<Seq<char>, Seq<char>>,
    body: Seq<char>,
    note_id: Seq<char>,
    workspace_id: Seq<char>,
    slug: Seq<char>,
    markdown_path: Option<Seq<char>>,
    now: i64,
) -> bool {
    &&& r.note_id@ == note_id
    &&& r.workspace_id@ == workspace_id
    &&& crate::model::opt_view(r.project_id) == fm_nullable(fm, "project_id"@)
    &&& r.slug@ == slug
    &&& r.title@ == fm_text(fm, "title"@, Seq::<char>::empty())
    &&& r.body_markdown@ == body
    &&& crate::model::opt_view(r.summary) == fm_nullable(fm, "summary"@)
    &&& strs_view(r.tags@) == fm_list(fm, "tags"@)
    &&& strs_view(r.entity_hints@) == fm_list(fm, "entity_hints"@)
    &&& r.source@ == fm_text(fm, "source"@, "user"@)
    &&& r.created_at == now
    &&& r.updated_at == now
    &&& r.archived_at is None
    &&& r.graph_status@ == fm_text(fm, "graph_status"@, "not_ingested"@)
    &&& crate::model::opt_view(r.markdown_path) == markdown_path
    &&& r.git_revision is None
}

/// Rebuilds a note from the parsed frontmatter and body of its vault file.
pub fn note_from_frontmatter(
    fm: &StringHashMap<String>,
    body: String,
    note_id: &str,
    workspace_id: &str,
    slug: String,
    markdown_path: Option<String>,
    now: i64,
) -> (r: WorkspaceNoteDocument)
    ensures
        note_from_fm_spec(
            r,
            map_view(fm@),
            body@,
            note_id@,
            workspace_id@,
            slug@,
            crate::model::opt_view(markdown_path),
            now,
        ),
{
    proof {
        reveal_strlit("");
        assert(""@ =~= Seq::<char>::empty());
    }
    WorkspaceNoteDocument {
        note_id: own(note_id),
        workspace_id: own(workspace_id),
        project_id: fm_nullable_exec(fm, "project_id"),
        slug,
        title: fm_text_exec(fm, "title", ""),
        body_markdown: body,
        summary: fm_nullable_exec(fm, "summary"),
        tags: fm_list_exec(fm, "tags"),
        entity_hints: fm_list_exec(fm, "entity_hints"),
        source: fm_text_exec(fm, "source", "user"),
        created_at: now,
        updated_at: now,
        archived_at: None,
        graph_status: fm_text_exec(fm, "graph_status", "not_ingested"),
        markdown_path,
        git_revision: None,
    }
}

/// The slug of a note found by its vault file: that of its frontmatter title as written,
/// or empty when the frontmatter has no title.
pub open spec fn fm_slug(fm: Map<Seq<char>, Seq<char>>) -> Seq<char> {
    if fm.contains_key("title"@) {
        slug_spec(fm["title"@])
    } else {
        Seq::<char>::empty()
    }
}

/// The slug of a note found by its vault file, from its parsed frontmatter.
pub fn frontmatter_slug(fm: &StringHashMap<String>) -> (r: String)
    ensures
        r@ == fm_slug(map_view(fm@)),
{
    match fm.get("title") {
        Some(t) => slugify(t.as_str()),
        None => String::new(),
    }
}

/// No line break in `s`.
pub open spec fn single_line(s: Seq<char>) -> bool {
    forall|i: int| 0 <= i < s.len() ==> s[i] != '\n'
}

/// No `"` in `s`.
pub open spec fn no_quote(s: Seq<char>) -> bool {
    forall|i: int| 0 <= i < s.len() ==> s[i] != '"'
}

/// `s` between double quotes.
pub open spec fn quoted_text(s: Seq<char>) -> Seq<char> {
    "\""@ + s + "\""@
}

/// A frontmatter line `key: value`.
pub open spec fn fm_line(key: Seq<char>, value: Seq<char>) -> Seq<char> {
    key + ": "@ + value
}

/// Each line preceded by a line break.
pub open spec fn nl_join(ls: Seq<Seq<char>>) -> Seq<char>
    decreases ls.len(),
{
    if ls.len() == 0 {
        Seq::<char>::empty()
    } else {
        seq!['\n'] + ls[0] + nl_join(ls.skip(1))
    }
}

/// The frontmatter lines [`build_frontmatter`] writes for a note, in order.
pub open spec fn fm_lines(note: WorkspaceNoteDocument) -> Seq<Seq<char>> {
    seq![
        fm_line("note_id"@, quoted_text(note.note_id@)),
        fm_line("workspace_id"@, quoted_text(note.workspace_id@)),
        fm_line("project_id"@, opt_quoted(crate::model::opt_view(note.project_id), false)),
        fm_line("title"@, quote_escaped(note.title@)),
        fm_line("summary"@, opt_quoted(crate::model::opt_view(note.summary), true)),
        fm_line("tags"@, json_string_list(strs_view(note.tags@))),
        fm_line("entity_hints"@, json_string_list(strs_view(note.entity_hints@))),
        fm_line("source"@, quoted_text(note.source@)),
        fm_line("graph_status"@, quoted_text(note.graph_status@)),
    ]
}

/// The entries a vault reader finds in the frontmatter of a note.
pub open spec fn fm_entries_of(note: WorkspaceNoteDocument) -> Map<Seq<char>, Seq<char>> {
    Map::<Seq<char>, Seq<char>>::empty().insert("note_id"@, quoted_text(note.note_id@)).insert(
        "workspace_id"@,
        quoted_text(note.workspace_id@),
    ).insert("project_id"@, opt_quoted(crate::model::opt_view(note.project_id), false)).insert(
        "title"@,
        quote_escaped(note.title@),
    ).insert("summary"@, opt_quoted(crate::model::opt_view(note.summary), true)).insert(
        "tags"@,
        json_string_list(strs_view(note.tags@)),
    ).insert("entity_hints"@, json_string_list(strs_view(note.entity_hints@))).insert(
        "source"@,
        quoted_text(note.source@),
    ).insert("graph_status"@, quoted_text(note.graph_status@))
}

/// A line that reads as one entry: non-empty, on one line, not starting with `-`, with
/// no white space at its ends.
pub open spec fn clean_line(l: Seq<char>) -> bool {
    &&& l.len() > 0
    &&& single_line(l)
    &&& l[0] != '-'
    &&& !crate::text::is_ws(l[0])
    &&& !crate::text::is_ws(l.last())
}

proof fn lemma_trim_clean(s: Seq<char>)
    requires
        s.len() > 0,
        !crate::text::is_ws(s[0]),
        !crate::text::is_ws(s.last()),
    ensures
        trim(s) == s,
        trim_start(s) == s,
{
    assert(trim_start(s) == s);
    assert(crate::text::trim_end(s) == s);
}

proof fn lemma_fm_line(key: Seq<char>, value: Seq<char>)
    requires
        key.len() > 0,
        forall|i: int| 0 <= i < key.len() ==> key[i] != ':' && !crate::text::is_ws(#[trigger] key[i])
            && key[i] != '\n',
        key[0] != '-',
        value.len() > 0,
        single_line(value),
        !crate::text::is_ws(value[0]),
        !crate::text::is_ws(value.last()),
    ensures
        clean_line(fm_line(key, value)),
        crate::text::strip_cr(fm_line(key, value)) == fm_line(key, value),
        find(fm_line(key, value), ":"@) == Some(key.len() as int),
        trim(fm_line(key, value).take(key.len() as int)) == key,
        trim(fm_line(key, value).skip(key.len() as int + 1)) == value,
{
    reveal_strlit(": ");
    reveal_strlit(":");
    let l = fm_line(key, value);
    let n = key.len() as int;
    assert(l.len() == n + 2 + value.len());
    assert(l[n] == ':');
    assert(l[n + 1] == ' ');
    assert forall|i: int| 0 <= i < l.len() implies l[i] != '\n' by {
        if i < n {
            assert(l[i] == key[i]);
        } else if i >= n + 2 {
            assert(l[i] == value[i - n - 2]);
        }
    }
    assert(l[0] == key[0]);
    assert(l.last() == value.last());
    assert(crate::text::is_ws('\r'));
    assert(!crate::text::is_ws(key[n - 1]));
    assert(l.take(n) =~= key);
    lemma_trim_clean(key);
    let v1 = l.skip(n + 1);
    assert(v1 =~= seq![' '] + value);
    assert(v1.drop_first() =~= value);
    assert(crate::text::is_ws(' '));
    lemma_trim_clean(value);
    assert(trim_start(v1) == trim_start(value));
    lemma_find(l, ":"@);
    assert(":"@ =~= seq![':']);
    assert(occurs_at(l, ":"@, n)) by {
        assert(l.subrange(n, n + 1) =~= seq![':']);
    }
    match find(l, ":"@) {
        Some(k) => {
            if k < n {
                assert(l.subrange(k, k + 1)[0] == l[k]);
                assert(l[k] == key[k]);
            }
        },
        None => {},
    }
}

proof fn lemma_nl_join_breaks(ls: Seq<Seq<char>>, j: int)
    requires
        forall|i: int| 0 <= i < ls.len() ==> clean_line(#[trigger] ls[i]),
        0 <= j < nl_join(ls).len(),
        nl_join(ls)[j] == '\n',
    ensures
        j + 1 < nl_join(ls).len(),
        nl_join(ls)[j + 1] != '-',
    decreases ls.len(),
{
    let l0 = ls[0];
    let t = ls.skip(1);
    assert(clean_line(l0));
    let s = nl_join(ls);
    assert(s == seq!['\n'] + l0 + nl_join(t));
    if j == 0 {
        assert(s[1] == l0[0]);
    } else if j <= l0.len() {
        assert(s[j] == l0[j - 1]);
    } else {
        assert forall|i: int| 0 <= i < t.len() implies clean_line(#[trigger] t[i]) by {
            assert(t[i] == ls[i + 1]);
        }
        let k = j - 1 - l0.len();
        assert(s[j] == nl_join(t)[k]);
        lemma_nl_join_breaks(t, k);
        assert(s[j + 1] == nl_join(t)[k + 1]);
    }
}

proof fn lemma_find_close(ls: Seq<Seq<char>>, rest: Seq<char>)
    requires
        forall|i: int| 0 <= i < ls.len() ==> clean_line(#[trigger] ls[i]),
    ensures
        find(nl_join(ls) + "\n---"@ + rest, "\n---"@) == Some(nl_join(ls).len() as int),
{
    reveal_strlit("\n---");
    let j0 = nl_join(ls);
    let s = j0 + "\n---"@ + rest;
    let n = j0.len() as int;
    assert(occurs_at(s, "\n---"@, n)) by {
        assert(s.subrange(n, n + 4) =~= "\n---"@);
    }
    lemma_find(s, "\n---"@);
    match find(s, "\n---"@) {
        Some(k) => {
            if k < n {
                assert(s.subrange(k, k + 4)[0] == s[k]);
                assert(s.subrange(k, k + 4)[1] == s[k + 1]);
                assert(s[k] == j0[k]);
                lemma_nl_join_breaks(ls, k);
                assert(s[k + 1] == j0[k + 1]);
            }
        },
        None => {},
    }
}

/// The lines after the first one, each without a trailing carriage return except the last.
pub open spec fn stripped_but_last(ls: Seq<Seq<char>>) -> Seq<Seq<char>>
    decreases ls.len(),
{
    if ls.len() <= 1 {
        ls
    } else {
        seq![crate::text::strip_cr(ls[0])] + stripped_but_last(ls.skip(1))
    }
}

proof fn lemma_lines_join(ls: Seq<Seq<char>>)
    requires
        ls.len() > 0,
        forall|i: int| 0 <= i < ls.len() ==> clean_line(#[trigger] ls[i]),
    ensures
        lines(ls[0] + nl_join(ls.skip(1))) == stripped_but_last(ls),
    decreases ls.len(),
{
    let l0 = ls[0];
    let t = ls.skip(1);
    assert(clean_line(l0));
    let s = l0 + nl_join(t);
    if t.len() == 0 {
        assert(nl_join(t) =~= Seq::<char>::empty());
        assert(s =~= l0);
        crate::text::lemma_newline_pos_prefix(l0, Seq::<char>::empty());
        assert(l0 + Seq::<char>::empty() =~= l0);
        assert(crate::text::newline_pos(Seq::<char>::empty()) == 0);
        assert(lines(s) == seq![s]);
        assert(stripped_but_last(ls) == ls);
        assert(ls =~= seq![l0]);
    } else {
        assert forall|i: int| 0 <= i < t.len() implies clean_line(#[trigger] t[i]) by {
            assert(t[i] == ls[i + 1]);
        }
        let rest = nl_join(t);
        assert(rest == seq!['\n'] + t[0] + nl_join(t.skip(1)));
        crate::text::lemma_newline_pos_prefix(l0, rest);
        assert(crate::text::newline_pos(rest) == 0);
        let k = l0.len() as int;
        assert(s.take(k) =~= l0);
        assert(s.skip(k + 1) =~= t[0] + nl_join(t.skip(1)));
        lemma_lines_join(t);
        assert(lines(s) == seq![crate::text::strip_cr(l0)] + lines(s.skip(k + 1)));
    }
}

/// One step of [`frontmatter_entries`]: the entry a line adds, if any.
proof fn lemma_entries_step(acc: Map<Seq<char>, Seq<char>>, ls: Seq<Seq<char>>, i: int)
    requires
        0 <= i < ls.len(),
    ensures
        frontmatter_entries(acc, ls.take(i + 1)) == ({
            let prev = frontmatter_entries(acc, ls.take(i));
            let line = trim(ls[i]);
            match find(line, ":"@) {
                Some(k) => if line.len() > 0 {
                    prev.insert(trim(line.take(k)), trim(line.skip(k + 1)))
                } else {
                    prev
                },
                None => prev,
            }
        }),
{
    assert(ls.take(i + 1).drop_last() =~= ls.take(i));
    assert(ls.take(i + 1).last() == ls[i]);
}

proof fn lemma_key_chars(key: Seq<char>)
    requires
        forall|i: int| 0 <= i < key.len() ==> ('a' <= #[trigger] key[i] <= 'z' || key[i] == '_'),
    ensures
        forall|i: int| 0 <= i < key.len() ==> key[i] != ':' && !crate::text::is_ws(#[trigger] key[i])
            && key[i] != '\n' && key[i] != '-',
{
}

proof fn lemma_replace_char_absent(s: Seq<char>, c: char, r: Seq<char>)
    requires
        forall|i: int| 0 <= i < s.len() ==> s[i] != c,
    ensures
        crate::text::replace_char(s, c, r) == s,
    decreases s.len(),
{
    if s.len() > 0 {
        lemma_replace_char_absent(s.drop_last(), c, r);
        assert(s.last() == s[s.len() - 1]);
        assert(s.drop_last().push(s.last()) =~= s);
        assert(s.drop_last() + seq![s.last()] =~= s);
    }
}

proof fn lemma_unquote(s: Seq<char>)
    requires
        no_quote(s),
    ensures
        trim_char(quoted_text(s), '"') == s,
{
    reveal_strlit("\"");
    let q = quoted_text(s);
    assert(q.drop_first() =~= s + "\""@);
    assert(trim_char_start(q, '"') == trim_char_start(s + "\""@, '"'));
    if s.len() > 0 {
        assert((s + "\""@)[0] == s[0]);
        assert(trim_char_start(s + "\""@, '"') == s + "\""@);
        assert((s + "\""@).drop_last() =~= s);
        assert(trim_char_end(s + "\""@, '"') == trim_char_end(s, '"'));
        assert(s.last() == s[s.len() - 1]);
        assert(trim_char_end(s, '"') == s);
    } else {
        assert(s + "\""@ =~= seq!['"']);
        assert(seq!['"'].drop_first() =~= Seq::<char>::empty());
        assert(trim_char_start(seq!['"'], '"') == trim_char_start(Seq::<char>::empty(), '"'));
        assert(trim_char_end(Seq::<char>::empty(), '"') == Seq::<char>::empty());
        assert(s =~= Seq::<char>::empty());
    }
}

proof fn lemma_fm_entries_lookup(note: WorkspaceNoteDocument)
    ensures
        fm_entries_of(note).contains_key("project_id"@),
        fm_entries_of(note)["project_id"@] == opt_quoted(crate::model::opt_view(note.project_id), false),
        fm_entries_of(note).contains_key("title"@),
        fm_entries_of(note)["title"@] == quote_escaped(note.title@),
        fm_entries_of(note).contains_key("summary"@),
        fm_entries_of(note)["summary"@] == opt_quoted(crate::model::opt_view(note.summary), true),
        fm_entries_of(note).contains_key("source"@),
        fm_entries_of(note)["source"@] == quoted_text(note.source@),
        fm_entries_of(note).contains_key("graph_status"@),
        fm_entries_of(note)["graph_status"@] == quoted_text(note.graph_status@),
{
    reveal_strlit("note_id");
    reveal_strlit("workspace_id");
    reveal_strlit("project_id");
    reveal_strlit("title");
    reveal_strlit("summary");
    reveal_strlit("tags");
    reveal_strlit("entity_hints");
    reveal_strlit("source");
    reveal_strlit("graph_status");
    assert("project_id"@ != "title"@) by { assert("project_id"@.len() != "title"@.len()); }
    assert("project_id"@ != "summary"@) by { assert("project_id"@.len() != "summary"@.len()); }
    assert("project_id"@ != "tags"@) by { assert("project_id"@.len() != "tags"@.len()); }
    assert("project_id"@ != "entity_hints"@) by { assert("project_id"@.len() != "entity_hints"@.len()); }
    assert("project_id"@ != "source"@) by { assert("project_id"@.len() != "source"@.len()); }
    assert("project_id"@ != "graph_status"@) by { assert("project_id"@.len() != "graph_status"@.len()); }
    assert("title"@ != "summary"@) by { assert("title"@.len() != "summary"@.len()); }
    assert("title"@ != "tags"@) by { assert("title"@.len() != "tags"@.len()); }
    assert("title"@ != "entity_hints"@) by { assert("title"@.len() != "entity_hints"@.len()); }
    assert("title"@ != "source"@) by { assert("title"@.len() != "source"@.len()); }
    assert("title"@ != "graph_status"@) by { assert("title"@.len() != "graph_status"@.len()); }
    assert("summary"@ != "tags"@) by { assert("summary"@.len() != "tags"@.len()); }
    assert("summary"@ != "entity_hints"@) by { assert("summary"@.len() != "entity_hints"@.len()); }
    assert("summary"@ != "source"@) by { assert("summary"@.len() != "source"@.len()); }
    assert("summary"@ != "graph_status"@) by { assert("summary"@.len() != "graph_status"@.len()); }
    assert("source"@ != "graph_status"@) by { assert("source"@.len() != "graph_status"@.len()); }
}

/// What the vault holds for a note reads back as what was written. Parsing the markdown
/// that [`build_frontmatter`] writes finds exactly the nine frontmatter entries it wrote
/// and the body with its leading white space removed; and the note rebuilt from them
/// ([`note_from_frontmatter`]) has the same project, title, summary, source and graph
/// status. This holds when those text fields, the id and the workspace are on one line and
/// hold no `"`, and the tag and hint lists are written as one-line JSON arrays, which
/// [`build_frontmatter`] guarantees.
pub proof fn lemma_frontmatter_reads_back(
    note: WorkspaceNoteDocument,
    rebuilt: WorkspaceNoteDocument,
    slug: Seq<char>,
    markdown_path: Option<Seq<char>>,
    now: i64,
)
    requires
        single_line(note.note_id@) && no_quote(note.note_id@),
        single_line(note.workspace_id@) && no_quote(note.workspace_id@),
        single_line(note.title@) && no_quote(note.title@),
        single_line(note.source@) && no_quote(note.source@),
        single_line(note.graph_status@) && no_quote(note.graph_status@),
        note.project_id matches Some(p) ==> single_line(p@) && no_quote(p@),
        note.summary matches Some(p) ==> single_line(p@) && no_quote(p@),
        one_line_json_array(json_string_list(strs_view(note.tags@))),
        one_line_json_array(json_string_list(strs_view(note.entity_hints@))),
        note_from_fm_spec(
            rebuilt,
            frontmatter_spec(frontmatter_text(note)).0,
            frontmatter_spec(frontmatter_text(note)).1,
            note.note_id@,
            note.workspace_id@,
            slug,
            markdown_path,
            now,
        ),
    ensures
        frontmatter_spec(frontmatter_text(note)).0 == fm_entries_of(note),
        frontmatter_spec(frontmatter_text(note)).1 == trim_start(note.body_markdown@),
        rebuilt.note_id@ == note.note_id@,
        rebuilt.workspace_id@ == note.workspace_id@,
        crate::model::opt_view(rebuilt.project_id) == crate::model::opt_view(note.project_id),
        rebuilt.title@ == note.title@,
        crate::model::opt_view(rebuilt.summary) == crate::model::opt_view(note.summary),
        rebuilt.source@ == note.source@,
        rebuilt.graph_status@ == note.graph_status@,
{
    lemma_frontmatter_parse(note);
    lemma_fm_entries_lookup(note);
    let fm = fm_entries_of(note);
    reveal_strlit("note_id");
    reveal_strlit("workspace_id");
    reveal_strlit("project_id");
    reveal_strlit("title");
    reveal_strlit("summary");
    reveal_strlit("tags");
    reveal_strlit("entity_hints");
    reveal_strlit("source");
    reveal_strlit("graph_status");
    reveal_strlit("null");
    reveal_strlit("\"");
    assert(fm["title"@] == quote_escaped(note.title@));
    lemma_replace_char_absent(note.title@, '"', "\\\""@);
    assert(quote_escaped(note.title@) == quoted_text(note.title@));
    lemma_unquote(note.title@);
    lemma_unquote(note.source@);
    lemma_unquote(note.graph_status@);
    match note.project_id {
        Some(p) => {
            lemma_unquote(p@);
            assert(quoted_text(p@) != "null"@) by {
                assert(quoted_text(p@)[0] == '"');
            }
        },
        None => {},
    }
    match note.summary {
        Some(p) => {
            lemma_replace_char_absent(p@, '"', "\\\""@);
            lemma_unquote(p@);
            assert(quoted_text(p@) != "null"@) by {
                assert(quoted_text(p@)[0] == '"');
            }
        },
        None => {},
    }
}

proof fn lemma_stripped_clean(ls: Seq<Seq<char>>)
    requires
        forall|i: int| 0 <= i < ls.len() ==> crate::text::strip_cr(#[trigger] ls[i]) == ls[i],
    ensures
        stripped_but_last(ls) == ls,
    decreases ls.len(),
{
    if ls.len() > 1 {
        let t = ls.skip(1);
        assert forall|i: int| 0 <= i < t.len() implies crate::text::strip_cr(#[trigger] t[i]) == t[i] by {
            assert(t[i] == ls[i + 1]);
        }
        lemma_stripped_clean(t);
        assert(crate::text::strip_cr(ls[0]) == ls[0]);
        assert(seq![ls[0]] + t =~= ls);
    }
}

/// The entry a frontmatter line gives, as [`frontmatter_entries`] reads it.
pub open spec fn line_entry(l: Seq<char>) -> Option<(Seq<char>, Seq<char>)> {
    let line = trim(l);
    match find(line, ":"@) {
        Some(k) => if line.len() > 0 {
            Some((trim(line.take(k)), trim(line.skip(k + 1))))
        } else {
            None
        },
        None => None,
    }
}

proof fn lemma_line_entry(key: Seq<char>, value: Seq<char>)
    requires
        key.len() > 0,
        forall|i: int| 0 <= i < key.len() ==> ('a' <= #[trigger] key[i] <= 'z' || key[i] == '_'),
        value.len() > 0,
        single_line(value),
        !crate::text::is_ws(value[0]),
        !crate::text::is_ws(value.last()),
    ensures
        clean_line(fm_line(key, value)),
        crate::text::strip_cr(fm_line(key, value)) == fm_line(key, value),
        line_entry(fm_line(key, value)) == Some((key, value)),
{
    lemma_key_chars(key);
    lemma_fm_line(key, value);
}

proof fn lemma_quoted_entry(key: Seq<char>, s: Seq<char>)
    requires
        key.len() > 0,
        forall|i: int| 0 <= i < key.len() ==> ('a' <= #[trigger] key[i] <= 'z' || key[i] == '_'),
        single_line(s),
    ensures
        clean_line(fm_line(key, quoted_text(s))),
        crate::text::strip_cr(fm_line(key, quoted_text(s))) == fm_line(key, quoted_text(s)),
        line_entry(fm_line(key, quoted_text(s))) == Some((key, quoted_text(s))),
{
    reveal_strlit("\"");
    let q = quoted_text(s);
    assert(q[0] == '"');
    assert(q.last() == '"');
    assert forall|i: int| 0 <= i < q.len() implies q[i] != '\n' by {
        if 0 < i < q.len() - 1 {
            assert(q[i] == s[i - 1]);
        }
    }
    lemma_line_entry(key, q);
}

proof fn lemma_opt_entry(key: Seq<char>, o: Option<Seq<char>>)
    requires
        key.len() > 0,
        forall|i: int| 0 <= i < key.len() ==> ('a' <= #[trigger] key[i] <= 'z' || key[i] == '_'),
        o matches Some(p) ==> single_line(p) && no_quote(p),
    ensures
        clean_line(fm_line(key, opt_quoted(o, false))),
        clean_line(fm_line(key, opt_quoted(o, true))),
        crate::text::strip_cr(fm_line(key, opt_quoted(o, false))) == fm_line(key, opt_quoted(o, false)),
        crate::text::strip_cr(fm_line(key, opt_quoted(o, true))) == fm_line(key, opt_quoted(o, true)),
        line_entry(fm_line(key, opt_quoted(o, false))) == Some((key, opt_quoted(o, false))),
        line_entry(fm_line(key, opt_quoted(o, true))) == Some((key, opt_quoted(o, true))),
        opt_quoted(o, true) == opt_quoted(o, false),
{
    reveal_strlit("null");
    match o {
        Some(p) => {
            lemma_replace_char_absent(p, '"', "\\\""@);
            assert(opt_quoted(o, true) == quoted_text(p));
            lemma_quoted_entry(key, p);
        },
        None => {
            lemma_line_entry(key, "null"@);
        },
    }
}

/// The lines of a note's frontmatter are clean and each gives its entry.
proof fn lemma_fm_lines_entries(note: WorkspaceNoteDocument)
    requires
        single_line(note.note_id@),
        single_line(note.workspace_id@),
        single_line(note.title@) && no_quote(note.title@),
        single_line(note.source@),
        single_line(note.graph_status@),
        note.project_id matches Some(p) ==> single_line(p@) && no_quote(p@),
        note.summary matches Some(p) ==> single_line(p@) && no_quote(p@),
        one_line_json_array(json_string_list(strs_view(note.tags@))),
        one_line_json_array(json_string_list(strs_view(note.entity_hints@))),
    ensures
        forall|i: int| 0 <= i < fm_lines(note).len() ==> clean_line(#[trigger] fm_lines(note)[i])
            && crate::text::strip_cr(fm_lines(note)[i]) == fm_lines(note)[i],
        line_entry(fm_lines(note)[0]) == Some(("note_id"@, quoted_text(note.note_id@))),
        line_entry(fm_lines(note)[1]) == Some(("workspace_id"@, quoted_text(note.workspace_id@))),
        line_entry(fm_lines(note)[2]) == Some(
            ("project_id"@, opt_quoted(crate::model::opt_view(note.project_id), false)),
        ),
        line_entry(fm_lines(note)[3]) == Some(("title"@, quote_escaped(note.title@))),
        line_entry(fm_lines(note)[4]) == Some(
            ("summary"@, opt_quoted(crate::model::opt_view(note.summary), true)),
        ),
        line_entry(fm_lines(note)[5]) == Some(("tags"@, json_string_list(strs_view(note.tags@)))),
        line_entry(fm_lines(note)[6]) == Some(
            ("entity_hints"@, json_string_list(strs_view(note.entity_hints@))),
        ),
        line_entry(fm_lines(note)[7]) == Some(("source"@, quoted_text(note.source@))),
        line_entry(fm_lines(note)[8]) == Some(("graph_status"@, quoted_text(note.graph_status@))),
{
    reveal_strlit("note_id");
    reveal_strlit("workspace_id");
    reveal_strlit("project_id");
    reveal_strlit("title");
    reveal_strlit("summary");
    reveal_strlit("tags");
    reveal_strlit("entity_hints");
    reveal_strlit("source");
    reveal_strlit("graph_status");
    lemma_quoted_entry("note_id"@, note.note_id@);
    lemma_quoted_entry("workspace_id"@, note.workspace_id@);
    lemma_opt_entry("project_id"@, crate::model::opt_view(note.project_id));
    lemma_replace_char_absent(note.title@, '"', "\\\""@);
    assert(quote_escaped(note.title@) == quoted_text(note.title@));
    lemma_quoted_entry("title"@, note.title@);
    lemma_opt_entry("summary"@, crate::model::opt_view(note.summary));
    lemma_line_entry("tags"@, json_string_list(strs_view(note.tags@)));
    lemma_line_entry("entity_hints"@, json_string_list(strs_view(note.entity_hints@)));
    lemma_quoted_entry("source"@, note.source@);
    lemma_quoted_entry("graph_status"@, note.graph_status@);
}

/// Each line preceded by a line break, built from the end.
pub open spec fn nl_join_back(ls: Seq<Seq<char>>) -> Seq<char>
    decreases ls.len(),
{
    if ls.len() == 0 {
        Seq::<char>::empty()
    } else {
        nl_join_back(ls.drop_last()) + seq!['\n'] + ls.last()
    }
}

proof fn lemma_nl_join_push(ls: Seq<Seq<char>>, x: Seq<char>)
    ensures
        nl_join(ls.push(x)) == nl_join(ls) + seq!['\n'] + x,
    decreases ls.len(),
{
    if ls.len() == 0 {
        assert(ls.push(x).skip(1) =~= Seq::<Seq<char>>::empty());
        assert(ls.push(x)[0] == x);
        assert(nl_join(ls.push(x)) == seq!['\n'] + x + nl_join(ls.push(x).skip(1)));
        assert(seq!['\n'] + x + Seq::<char>::empty() =~= Seq::<char>::empty() + seq!['\n'] + x);
    } else {
        let t = ls.skip(1);
        lemma_nl_join_push(t, x);
        assert(ls.push(x).skip(1) =~= t.push(x));
        assert(ls.push(x)[0] == ls[0]);
        assert(nl_join(ls.push(x)) == seq!['\n'] + ls[0] + nl_join(t.push(x)));
        assert(nl_join(ls) == seq!['\n'] + ls[0] + nl_join(t));
        assert(seq!['\n'] + ls[0] + (nl_join(t) + seq!['\n'] + x) =~= seq!['\n'] + ls[0] + nl_join(t)
            + seq!['\n'] + x);
    }
}

proof fn lemma_nl_join_back(ls: Seq<Seq<char>>)
    ensures
        nl_join_back(ls) == nl_join(ls),
    decreases ls.len(),
{
    if ls.len() > 0 {
        lemma_nl_join_back(ls.drop_last());
        lemma_nl_join_push(ls.drop_last(), ls.last());
        assert(ls.drop_last().push(ls.last()) =~= ls);
    } else {
        assert(nl_join(ls) == Seq::<char>::empty());
    }
}

proof fn lemma_nl_join_back_step(ls: Seq<Seq<char>>, k: int)
    requires
        0 <= k < ls.len(),
    ensures
        nl_join_back(ls.take(k + 1)) == nl_join_back(ls.take(k)) + seq!['\n'] + ls[k],
{
    assert(ls.take(k + 1).drop_last() =~= ls.take(k));
    assert(ls.take(k + 1).last() == ls[k]);
}

/// The vault text of a note is `---`, its frontmatter lines each after a line break, the
/// closing `\n---`, a blank line and the body.
#[verifier::rlimit(40)]
proof fn lemma_fm_text_shape(note: WorkspaceNoteDocument)
    ensures
        frontmatter_text(note) == "---"@ + nl_join(fm_lines(note)) + "\n---"@ + ("\n\n"@
            + note.body_markdown@),
{
    reveal_strlit("\"");
    reveal_strlit(": ");
    reveal_strlit("---");
    reveal_strlit("\n---");
    reveal_strlit("\n\n");
    reveal_strlit("---\nnote_id: \"");
    reveal_strlit("\"\nworkspace_id: \"");
    reveal_strlit("\"\nproject_id: ");
    reveal_strlit("\ntitle: ");
    reveal_strlit("\nsummary: ");
    reveal_strlit("\ntags: ");
    reveal_strlit("\nentity_hints: ");
    reveal_strlit("\nsource: \"");
    reveal_strlit("\"\ngraph_status: \"");
    reveal_strlit("\"\n---\n\n");
    reveal_strlit("note_id");
    reveal_strlit("workspace_id");
    reveal_strlit("project_id");
    reveal_strlit("title");
    reveal_strlit("summary");
    reveal_strlit("tags");
    reveal_strlit("entity_hints");
    reveal_strlit("source");
    reveal_strlit("graph_status");
    let ls = fm_lines(note);
    let nl = seq!['\n'];
    let q = "\""@;
    let sep = ": "@;
    let id = note.note_id@;
    let ws = note.workspace_id@;
    let pj = opt_quoted(crate::model::opt_view(note.project_id), false);
    let ti = quote_escaped(note.title@);
    let su = opt_quoted(crate::model::opt_view(note.summary), true);
    let j1 = json_string_list(strs_view(note.tags@));
    let j2 = json_string_list(strs_view(note.entity_hints@));
    let src = note.source@;
    let gs = note.graph_status@;
    let body = note.body_markdown@;
    let x1 = "---\nnote_id: \""@ + id;
    let x3 = x1 + "\"\nworkspace_id: \""@ + ws;
    let x5 = x3 + "\"\nproject_id: "@ + pj;
    let x7 = x5 + "\ntitle: "@ + ti;
    let x9 = x7 + "\nsummary: "@ + su;
    let x11 = x9 + "\ntags: "@ + j1;
    let x13 = x11 + "\nentity_hints: "@ + j2;
    let x15 = x13 + "\nsource: \""@ + src;
    let x17 = x15 + "\"\ngraph_status: \""@ + gs;
    assert(frontmatter_text(note) == x17 + "\"\n---\n\n"@ + body);
    let b = |k: int| "---"@ + nl_join_back(ls.take(k));
    assert(ls.take(0) =~= Seq::<Seq<char>>::empty());
    assert(b(0) =~= "---"@);
    lemma_nl_join_back_step(ls, 0);
    assert(x1 + q =~= b(1));
    lemma_nl_join_back_step(ls, 1);
    assert(x3 + q =~= (x1 + q) + nl + ("workspace_id"@ + sep + (q + ws + q)));
    lemma_nl_join_back_step(ls, 2);
    assert(x5 =~= (x3 + q) + nl + ("project_id"@ + sep + pj));
    lemma_nl_join_back_step(ls, 3);
    assert(x7 =~= x5 + nl + ("title"@ + sep + ti));
    lemma_nl_join_back_step(ls, 4);
    assert(x9 =~= x7 + nl + ("summary"@ + sep + su));
    lemma_nl_join_back_step(ls, 5);
    assert(x11 =~= x9 + nl + ("tags"@ + sep + j1));
    lemma_nl_join_back_step(ls, 6);
    assert(x13 =~= x11 + nl + ("entity_hints"@ + sep + j2));
    lemma_nl_join_back_step(ls, 7);
    assert(x15 + q =~= x13 + nl + ("source"@ + sep + (q + src + q)));
    lemma_nl_join_back_step(ls, 8);
    assert(x17 + q =~= (x15 + q) + nl + ("graph_status"@ + sep + (q + gs + q)));
    assert(x17 + q == b(9));
    assert(ls.take(9) =~= ls);
    lemma_nl_join_back(ls);
    assert(x17 + "\"\n---\n\n"@ + body =~= (x17 + q) + "\n---"@ + ("\n\n"@ + body));
}

#[verifier::spinoff_prover]
proof fn lemma_fm_entries_all(note: WorkspaceNoteDocument)
    requires
        single_line(note.note_id@),
        single_line(note.workspace_id@),
        single_line(note.title@) && no_quote(note.title@),
        single_line(note.source@),
        single_line(note.graph_status@),
        note.project_id matches Some(p) ==> single_line(p@) && no_quote(p@),
        note.summary matches Some(p) ==> single_line(p@) && no_quote(p@),
        one_line_json_array(json_string_list(strs_view(note.tags@))),
        one_line_json_array(json_string_list(strs_view(note.entity_hints@))),
    ensures
        frontmatter_entries(Map::empty(), seq![Seq::<char>::empty()] + fm_lines(note))
            == fm_entries_of(note),
{
    reveal_strlit(":");
    lemma_fm_lines_entries(note);
    let ls = fm_lines(note);
    let all = seq![Seq::<char>::empty()] + ls;
    let e = Map::<Seq<char>, Seq<char>>::empty();
    assert(all.take(0) =~= Seq::<Seq<char>>::empty());
    lemma_entries_step(e, all, 0);
    assert(trim(Seq::<char>::empty()) =~= Seq::<char>::empty());
    assert(find(Seq::<char>::empty(), ":"@) is None);
    assert forall|i: int| 1 <= i < 10 implies all[i] == ls[i - 1] by {}
    lemma_entries_step(e, all, 1);
    lemma_entries_step(e, all, 2);
    lemma_entries_step(e, all, 3);
    lemma_entries_step(e, all, 4);
    lemma_entries_step(e, all, 5);
    lemma_entries_step(e, all, 6);
    lemma_entries_step(e, all, 7);
    lemma_entries_step(e, all, 8);
    lemma_entries_step(e, all, 9);
    assert(all.take(10) =~= all);
    assert(frontmatter_entries(e, all) =~= fm_entries_of(note));
}

#[verifier::spinoff_prover]
proof fn lemma_fm_block_lines(note: WorkspaceNoteDocument)
    requires
        single_line(note.note_id@),
        single_line(note.workspace_id@),
        single_line(note.title@) && no_quote(note.title@),
        single_line(note.source@),
        single_line(note.graph_status@),
        note.project_id matches Some(p) ==> single_line(p@) && no_quote(p@),
        note.summary matches Some(p) ==> single_line(p@) && no_quote(p@),
        one_line_json_array(json_string_list(strs_view(note.tags@))),
        one_line_json_array(json_string_list(strs_view(note.entity_hints@))),
    ensures
        lines(nl_join(fm_lines(note))) == seq![Seq::<char>::empty()] + fm_lines(note),
{
    lemma_fm_lines_entries(note);
    let ls = fm_lines(note);
    let block = nl_join(ls);
    assert(block == seq!['\n'] + ls[0] + nl_join(ls.skip(1)));
    lemma_lines_join(ls);
    lemma_stripped_clean(ls);
    crate::text::lemma_newline_pos_prefix(Seq::<char>::empty(), block);
    assert(Seq::<char>::empty() + block =~= block);
    assert(block.take(0) =~= Seq::<char>::empty());
    assert(block.skip(1) =~= ls[0] + nl_join(ls.skip(1)));
    assert(crate::text::strip_cr(Seq::<char>::empty()) == Seq::<char>::empty());
    assert(lines(block) == seq![Seq::<char>::empty()] + lines(block.skip(1)));
}

#[verifier::spinoff_prover]
proof fn lemma_fm_split(note: WorkspaceNoteDocument)
    requires
        single_line(note.note_id@),
        single_line(note.workspace_id@),
        single_line(note.title@) && no_quote(note.title@),
        single_line(note.source@),
        single_line(note.graph_status@),
        note.project_id matches Some(p) ==> single_line(p@) && no_quote(p@),
        note.summary matches Some(p) ==> single_line(p@) && no_quote(p@),
        one_line_json_array(json_string_list(strs_view(note.tags@))),
        one_line_json_array(json_string_list(strs_view(note.entity_hints@))),
    ensures
        frontmatter_spec(frontmatter_text(note)) == (
            frontmatter_entries(Map::empty(), lines(nl_join(fm_lines(note)))),
            trim_start(note.body_markdown@),
        ),
{
    reveal_strlit("\n---");
    reveal_strlit("\n\n");
    reveal_strlit("---");
    reveal_strlit("---\n");
    lemma_fm_lines_entries(note);
    lemma_fm_text_shape(note);
    let ls = fm_lines(note);
    let body = note.body_markdown@;
    let block = nl_join(ls);
    let text = frontmatter_text(note);
    assert(block == seq!['\n'] + ls[0] + nl_join(ls.skip(1)));
    assert(starts_with(text, "---\n"@)) by {
        assert(text.subrange(0, 4) =~= "---\n"@);
    }
    let after = text.skip(3);
    assert(after =~= block + "\n---"@ + ("\n\n"@ + body));
    lemma_find_close(ls, "\n\n"@ + body);
    let n = block.len() as int;
    assert(after.take(n) =~= block);
    assert(after.skip(n + 4) =~= "\n\n"@ + body);
    assert(crate::text::is_ws('\n'));
    let s2 = "\n\n"@ + body;
    assert(s2[0] == '\n');
    assert(trim_start(s2) == trim_start(s2.drop_first()));
    let s1 = s2.drop_first();
    assert(s1 =~= seq!['\n'] + body);
    assert(s1[0] == '\n');
    assert(trim_start(s1) == trim_start(s1.drop_first()));
    assert(s1.drop_first() =~= body);
}

proof fn lemma_frontmatter_parse(note: WorkspaceNoteDocument)
    requires
        single_line(note.note_id@),
        single_line(note.workspace_id@),
        single_line(note.title@) && no_quote(note.title@),
        single_line(note.source@),
        single_line(note.graph_status@),
        note.project_id matches Some(p) ==> single_line(p@) && no_quote(p@),
        note.summary matches Some(p) ==> single_line(p@) && no_quote(p@),
        one_line_json_array(json_string_list(strs_view(note.tags@))),
        one_line_json_array(json_string_list(strs_view(note.entity_hints@))),
    ensures
        frontmatter_spec(frontmatter_text(note)).0 == fm_entries_of(note),
        frontmatter_spec(frontmatter_text(note)).1 == trim_start(note.body_markdown@),
{
    lemma_fm_split(note);
    lemma_fm_block_lines(note);
    lemma_fm_entries_all(note);
}

} // verus!
