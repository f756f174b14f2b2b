//! Plain-text previews of note bodies for canvas cards.
use vstd::prelude::*;

use crate::text::{
    char_is_ws, chars_of, concat, find, find_exec, is_ws, lemma_find, starts_with,
    starts_with_exec, string_of, sub_vec, trim_start, trim_start_exec, utf8_len, views,
};

verus! {

pub open spec fn dashes() -> Seq<char> {
    seq!['-', '-', '-']
}

pub open spec fn closing_dashes() -> Seq<char> {
    seq!['\n', '-', '-', '-']
}

/// The body after a leading `---` ... `\n---` frontmatter block, with leading white space
/// removed; the whole text when there is no such block.
pub open spec fn strip_frontmatter_spec(md: Seq<char>) -> Seq<char> {
    if starts_with(md, dashes()) {
        match find(md.skip(3), closing_dashes()) {
            Some(end) => trim_start(md.skip(3 + end + 4)),
            None => md,
        }
    } else {
        md
    }
}

fn strip_frontmatter_chars(md: &Vec<char>) -> (r: Vec<char>)
    ensures
        r@ == strip_frontmatter_spec(md@),
{
    let d = vec!['-', '-', '-'];
    assert(d@ =~= dashes());
    let whole = sub_vec(md, 0, md.len());
    assert(whole@ =~= md@);
    if starts_with_exec(md, &d) {
        let after = sub_vec(md, 3, md.len());
        assert(after@ =~= md@.skip(3));
        let close = vec!['\n', '-', '-', '-'];
        assert(close@ =~= closing_dashes());
        proof {
            lemma_find(after@, closing_dashes());
        }
        match find_exec(&after, &close) {
            Some(end) => {
                let rest = sub_vec(&after, end + 4, after.len());
                assert(rest@ =~= md@.skip(3 + end + 4));
                trim_start_exec(&rest)
            },
            None => whole,
        }
    } else {
        whole
    }
}

/// Strips a leading `---` frontmatter block from markdown.
pub fn strip_frontmatter(markdown: &str) -> (r: String)
    ensures
        r@ == strip_frontmatter_spec(markdown@),
{
    let v = chars_of(markdown);
    string_of(&strip_frontmatter_chars(&v))
}

/// `s` with each non-overlapping occurrence of the non-empty `p`, scanned from the left,
/// replaced by `r` (as `str::replace`).
pub open spec fn replace_all(s: Seq<char>, p: Seq<char>, r: Seq<char>) -> Seq<char>
    recommends
        p.len() > 0,
    decreases s.len(),
{
    proof {
        lemma_find(s, p);
    }
    match find(s, p) {
        Some(k) => if p.len() > 0 {
            s.take(k) + r + replace_all(s.skip(k + p.len()), p, r)
        } else {
            s
        },
        None => s,
    }
}

/// `s` with each occurrence of the non-empty `p` replaced by `r`.
pub fn replace_all_exec(s: &Vec<char>, p: &Vec<char>, r: &Vec<char>) -> (out: Vec<char>)
    requires
        p@.len() > 0,
    ensures
        out@ == replace_all(s@, p@, r@),
{
    let mut out: Vec<char> = Vec::new();
    let mut rest = sub_vec(s, 0, s.len());
    assert(rest@ =~= s@);
    let mut done = false;
    while !done
        invariant
            p@.len() > 0,
            replace_all(s@, p@, r@) == out@ + if done {
                Seq::<char>::empty()
            } else {
                replace_all(rest@, p@, r@)
            },
        decreases rest@.len() + if done {
            0int
        } else {
            1int
        },
    {
        proof {
            lemma_find(rest@, p@);
        }
        let ghost old_out = out@;
        let ghost old_rest = rest@;
        match find_exec(&rest, p) {
            Some(k) => {
                let head = sub_vec(&rest, 0, k);
                out = concat(&out, &head);
                out = concat(&out, r);
                let n = rest.len();
                rest = sub_vec(&rest, k + p.len(), n);
                assert(rest@ =~= old_rest.skip(k + p@.len()));
                assert(out@ + replace_all(rest@, p@, r@) =~= old_out + replace_all(
                    old_rest,
                    p@,
                    r@,
                ));
            },
            None => {
                out = concat(&out, &rest);
                done = true;
                assert(out@ + Seq::<char>::empty() =~= old_out + replace_all(old_rest, p@, r@));
            },
        }
    }
    assert(out@ + Seq::<char>::empty() =~= out@);
    out
}

/// Characters that a preview shows as a space.
pub open spec fn is_noise(c: char) -> bool {
    c == '#' || c == '>' || c == '*' || c == '_' || c == '`' || c == '[' || c == ']' || c == '('
        || c == ')' || c == '-'
}

/// `s` with every noise character replaced by a space.
pub open spec fn blank_noise(s: Seq<char>) -> Seq<char> {
    s.map_values(
        |c: char|
            if is_noise(c) {
                ' '
            } else {
                c
            },
    )
}

fn blank_noise_exec(s: &Vec<char>) -> (r: Vec<char>)
    ensures
        r@ == blank_noise(s@),
{
    let mut r: Vec<char> = Vec::new();
    let mut i: usize = 0;
    while i < s.len()
        invariant
            i <= s@.len(),
            r@ == blank_noise(s@.take(i as int)),
        decreases s@.len() - i,
    {
        let c = s[i];
        let noise = c == '#' || c == '>' || c == '*' || c == '_' || c == '`' || c == '[' || c
            == ']' || c == '(' || c == ')' || c == '-';
        if noise {
            r.push(' ');
        } else {
            r.push(c);
        }
        i = i + 1;
        assert(r@ =~= blank_noise(s@.take(i as int)));
    }
    assert(s@.take(s@.len() as int) =~= s@);
    r
}

/// Length of the run of non-white-space characters at the start of `s`.
pub open spec fn word_len(s: Seq<char>) -> int
    decreases s.len(),
{
    if s.len() == 0 || is_ws(s[0]) {
        0
    } else {
        1 + word_len(s.drop_first())
    }
}

pub proof fn lemma_word_len(s: Seq<char>)
    ensures
        0 <= word_len(s) <= s.len(),
        s.len() > 0 && !is_ws(s[0]) ==> word_len(s) >= 1,
        forall|j: int| 0 <= j < word_len(s) ==> !is_ws(s[j]),
        word_len(s) < s.len() ==> is_ws(s[word_len(s)]),
    decreases s.len(),
{
    if s.len() > 0 && !is_ws(s[0]) {
        lemma_word_len(s.drop_first());
        assert forall|j: int| 0 <= j < word_len(s) implies !is_ws(s[j]) by {
            if j > 0 {
                assert(s[j] == s.drop_first()[j - 1]);
            }
        }
    }
}

pub proof fn lemma_trim_start_len(s: Seq<char>)
    ensures
        trim_start(s).len() <= s.len(),
        trim_start(s).len() > 0 ==> !is_ws(trim_start(s)[0]),
        s.len() > 0 && !is_ws(s[0]) ==> trim_start(s) == s,
    decreases s.len(),
{
    if s.len() > 0 && is_ws(s[0]) {
        lemma_trim_start_len(s.drop_first());
    }
}

/// The white-space separated words of `s` (as `str::split_whitespace`).
pub open spec fn words(s: Seq<char>) -> Seq<Seq<char>>
    decreases s.len(),
{
    let t = trim_start(s);
    proof {
        lemma_trim_start_len(s);
        lemma_word_len(t);
    }
    if t.len() == 0 {
        Seq::<Seq<char>>::empty()
    } else {
        seq![t.take(word_len(t))] + words(t.skip(word_len(t)))
    }
}

/// `ws` joined with single spaces.
pub open spec fn join_spaced(ws: Seq<Seq<char>>) -> Seq<char>
    decreases ws.len(),
{
    if ws.len() == 0 {
        Seq::<char>::empty()
    } else if ws.len() == 1 {
        ws[0]
    } else {
        ws[0] + seq![' '] + join_spaced(ws.drop_first())
    }
}

/// `out` followed by the words `ws`, with a single space between parts.
pub open spec fn join_after(out: Seq<char>, ws: Seq<Seq<char>>) -> Seq<char> {
    if out.len() == 0 {
        join_spaced(ws)
    } else if ws.len() == 0 {
        out
    } else {
        out + seq![' '] + join_spaced(ws)
    }
}

proof fn lemma_join_after_step(out: Seq<char>, w: Seq<char>, ws: Seq<Seq<char>>)
    requires
        w.len() > 0,
    ensures
        join_after(out, seq![w] + ws) == join_after(
            if out.len() == 0 {
                w
            } else {
                out + seq![' '] + w
            },
            ws,
        ),
{
    let all = seq![w] + ws;
    assert(all[0] == w);
    assert(all.drop_first() =~= ws);
    if ws.len() == 0 {
        assert(all =~= seq![w]);
    }
}

/// Words of `s` joined by single spaces.
pub open spec fn collapse_ws(s: Seq<char>) -> Seq<char> {
    join_spaced(words(s))
}

fn collapse_ws_exec(s: &Vec<char>) -> (r: Vec<char>)
    ensures
        r@ == collapse_ws(s@),
{
    let n = s.len();
    let mut out: Vec<char> = Vec::new();
    let mut i: usize = 0;
    assert(s@.skip(0) =~= s@);
    while i < n
        invariant
            n == s@.len(),
            i <= n,
            collapse_ws(s@) == join_after(out@, words(s@.skip(i as int))),
        decreases n - i,
    {
        if char_is_ws(s[i]) {
            proof {
                assert(s@.skip(i as int).drop_first() =~= s@.skip(i + 1));
                assert(trim_start(s@.skip(i as int)) == trim_start(s@.skip(i + 1)));
            }
            i = i + 1;
        } else {
            let start = i;
            let ghost rest = s@.skip(start as int);
            proof {
                lemma_trim_start_len(rest);
                lemma_word_len(rest);
            }
            while i < n && !char_is_ws(s[i])
                invariant
                    n == s@.len(),
                    start <= i <= n,
                    rest == s@.skip(start as int),
                    i - start <= word_len(rest),
                    forall|j: int| 0 <= j < word_len(rest) ==> !is_ws(rest[j]),
                    word_len(rest) < rest.len() ==> is_ws(rest[word_len(rest)]),
                decreases n - i,
            {
                assert(rest[i - start] == s@[i as int]);
                i = i + 1;
            }
            proof {
                if i < n {
                    assert(rest[i - start] == s@[i as int]);
                }
            }
            assert(i - start == word_len(rest));
            let word = sub_vec(s, start, i);
            assert(word@ =~= rest.take(word_len(rest)));
            assert(rest.skip(word_len(rest)) =~= s@.skip(i as int));
            proof {
                lemma_join_after_step(out@, word@, words(s@.skip(i as int)));
            }
            if out.len() > 0 {
                out.push(' ');
            }
            out = concat(&out, &word);
        }
    }
    assert(s@.skip(n as int) =~= Seq::<char>::empty());
    assert(trim_start(Seq::<char>::empty()) =~= Seq::<char>::empty());
    out
}

/// The white-space separated words of `s`.
pub fn split_whitespace_exec(s: &Vec<char>) -> (r: Vec<Vec<char>>)
    ensures
        views(r@) == words(s@),
{
    let n = s.len();
    let mut out: Vec<Vec<char>> = Vec::new();
    let mut i: usize = 0;
    assert(s@.skip(0) =~= s@);
    assert(views(out@) =~= Seq::<Seq<char>>::empty());
    while i < n
        invariant
            n == s@.len(),
            i <= n,
            words(s@) == views(out@) + words(s@.skip(i as int)),
        decreases n - i,
    {
        if char_is_ws(s[i]) {
            proof {
                assert(s@.skip(i as int).drop_first() =~= s@.skip(i + 1));
                assert(trim_start(s@.skip(i as int)) == trim_start(s@.skip(i + 1)));
            }
            i = i + 1;
        } else {
            let start = i;
            let ghost rest = s@.skip(start as int);
            proof {
                lemma_trim_start_len(rest);
                lemma_word_len(rest);
            }
            while i < n && !char_is_ws(s[i])
                invariant
                    n == s@.len(),
                    start <= i <= n,
                    rest == s@.skip(start as int),
                    i - start <= word_len(rest),
                    forall|j: int| 0 <= j < word_len(rest) ==> !is_ws(rest[j]),
                    word_len(rest) < rest.len() ==> is_ws(rest[word_len(rest)]),
                decreases n - i,
            {
                assert(rest[i - start] == s@[i as int]);
                i = i + 1;
            }
            proof {
                if i < n {
                    assert(rest[i - start] == s@[i as int]);
                }
            }
            assert(i - start == word_len(rest));
            let word = sub_vec(s, start, i);
            assert(word@ =~= rest.take(word_len(rest)));
            assert(rest.skip(word_len(rest)) =~= s@.skip(i as int));
            let ghost before = views(out@);
            out.push(word);
            assert(views(out@) =~= before.push(rest.take(word_len(rest))));
        }
    }
    assert(s@.skip(n as int) =~= Seq::<char>::empty());
    assert(trim_start(Seq::<char>::empty()) =~= Seq::<char>::empty());
    assert(views(out@) + Seq::<Seq<char>>::empty() =~= views(out@));
    out
}

/// Number of UTF-8 bytes of `s`.
pub open spec fn byte_len(s: Seq<char>) -> nat
    decreases s.len(),
{
    if s.len() == 0 {
        0
    } else {
        byte_len(s.drop_last()) + utf8_len(s.last())
    }
}

/// Whether a character of `s` ends exactly at byte offset `b`.
pub open spec fn is_char_boundary(s: Seq<char>, b: nat) -> bool {
    exists|k: int| 0 <= k <= s.len() && byte_len(#[trigger] s.take(k)) == b
}

/// The normalized text of a preview before truncation.
pub open spec fn preview_text(md: Seq<char>) -> Seq<char> {
    collapse_ws(
        blank_noise(
            replace_all(
                strip_frontmatter_spec(md),
                seq!['`', '`', '`'],
                seq![' ', 'c', 'o', 'd', 'e', ' ', 'b', 'l', 'o', 'c', 'k', ' '],
            ),
        ),
    )
}

/// Building the preview of `md` would slice inside a character.
pub open spec fn preview_panics(md: Seq<char>) -> bool {
    byte_len(preview_text(md)) > 180 && !is_char_boundary(preview_text(md), 177)
}

/// The card preview of `md`: noise removed, white space collapsed, cut to 177 bytes with
/// `...` appended when longer than 180 bytes, or `No body yet.` when empty.
pub open spec fn markdown_preview(md: Seq<char>) -> Seq<char> {
    let t = preview_text(md);
    if byte_len(t) > 180 {
        t.take(choose|k: int| 0 <= k <= t.len() && byte_len(#[trigger] t.take(k)) == 177) + seq![
            '.',
            '.',
            '.',
        ]
    } else if t.len() == 0 {
        seq!['N', 'o', ' ', 'b', 'o', 'd', 'y', ' ', 'y', 'e', 't', '.']
    } else {
        t
    }
}

pub proof fn lemma_byte_len_take_mono(s: Seq<char>, a: int, b: int)
    requires
        0 <= a <= b <= s.len(),
    ensures
        byte_len(s.take(a)) + (b - a) <= byte_len(s.take(b)),
    decreases b - a,
{
    if a < b {
        lemma_byte_len_take_mono(s, a, b - 1);
        assert(s.take(b).drop_last() =~= s.take(b - 1));
    }
}

pub proof fn lemma_byte_len_take_unique(s: Seq<char>, a: int, b: int)
    requires
        0 <= a < b <= s.len(),
    ensures
        byte_len(s.take(a)) < byte_len(s.take(b)),
{
    lemma_byte_len_take_mono(s, a, b);
}

/// Number of UTF-8 bytes of `c`.
pub fn utf8_len_exec(c: char) -> (r: usize)
    ensures
        r == utf8_len(c),
{
    let u = c as u32;
    if u < 0x80 {
        1
    } else if u < 0x800 {
        2
    } else if u < 0x10000 {
        3
    } else {
        4
    }
}

/// Whether `s` is longer than `limit` bytes.
pub fn byte_len_exceeds(s: &Vec<char>, limit: usize) -> (r: bool)
    ensures
        r == (byte_len(s@) > limit),
{
    let mut total: usize = 0;
    let mut i: usize = 0;
    while i < s.len()
        invariant
            i <= s@.len(),
            total <= limit,
            total == byte_len(s@.take(i as int)),
        decreases s@.len() - i,
    {
        let c = s[i];
        assert(s@.take(i + 1).drop_last() =~= s@.take(i as int));
        let l = utf8_len_exec(c);
        if l > limit - total {
            proof {
                lemma_byte_len_take_mono(s@, i + 1, s@.len() as int);
                assert(s@.take(s@.len() as int) =~= s@);
            }
            return true;
        }
        total = total + l;
        i = i + 1;
    }
    assert(s@.take(s@.len() as int) =~= s@);
    false
}

/// The prefix of `s` that holds exactly `b` bytes (a character boundary of `s`).
pub fn take_bytes(s: &Vec<char>, b: usize) -> (r: Vec<char>)
    requires
        is_char_boundary(s@, b as nat),
    ensures
        byte_len(r@) == b,
        r@ == s@.take(choose|k: int| 0 <= k <= s@.len() && byte_len(#[trigger] s@.take(k)) == b),
{
    let ghost k = choose|k: int| 0 <= k <= s@.len() && byte_len(#[trigger] s@.take(k)) == b;
    let n = s.len();
    let mut total: usize = 0;
    let mut i: usize = 0;
    while total < b
        invariant
            n == s@.len(),
            i <= s@.len(),
            0 <= k <= s@.len(),
            byte_len(s@.take(k)) == b,
            total == byte_len(s@.take(i as int)),
            total <= b,
            i <= k,
        decreases b - total,
    {
        proof {
            if i == k {
                assert(false);
            }
            lemma_byte_len_take_mono(s@, i as int, i + 1);
            if i + 1 < k {
                lemma_byte_len_take_mono(s@, i + 1, k);
            }
        }
        assert(s@.take(i + 1).drop_last() =~= s@.take(i as int));
        total = total + utf8_len_exec(s[i]);
        i = i + 1;
        proof {
            if i > k {
                lemma_byte_len_take_unique(s@, k, i as int);
            }
        }
    }
    proof {
        if i < k {
            lemma_byte_len_take_unique(s@, i as int, k);
        }
    }
    sub_vec(s, 0, i)
}

/// Strips frontmatter and markdown noise for card previews.
pub fn build_markdown_preview(markdown: &str) -> (r: String)
    requires
        !preview_panics(markdown@),
    ensures
        r@ == markdown_preview(markdown@),
{
    let md = chars_of(markdown);
    let body = strip_frontmatter_chars(&md);
    let fence = vec!['`', '`', '`'];
    let code = vec![' ', 'c', 'o', 'd', 'e', ' ', 'b', 'l', 'o', 'c', 'k', ' '];
    assert(fence@ =~= seq!['`', '`', '`']);
    assert(code@ =~= seq![' ', 'c', 'o', 'd', 'e', ' ', 'b', 'l', 'o', 'c', 'k', ' ']);
    let replaced = replace_all_exec(&body, &fence, &code);
    let blanked = blank_noise_exec(&replaced);
    let text = collapse_ws_exec(&blanked);
    assert(text@ == preview_text(markdown@));
    if byte_len_exceeds(&text, 180) {
        let head = take_bytes(&text, 177);
        let dots = vec!['.', '.', '.'];
        assert(dots@ =~= seq!['.', '.', '.']);
        string_of(&concat(&head, &dots))
    } else if text.len() == 0 {
        let msg = vec!['N', 'o', ' ', 'b', 'o', 'd', 'y', ' ', 'y', 'e', 't', '.'];
        assert(msg@ =~= seq!['N', 'o', ' ', 'b', 'o', 'd', 'y', ' ', 'y', 'e', 't', '.']);
        string_of(&msg)
    } else {
        string_of(&text)
    }
}

} // verus!
