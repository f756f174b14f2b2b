//! Lightweight markdown parsing for note card previews: headings, bullets, fenced code
//! blocks, and `**bold**` / `*italic*` / `` `code` `` spans on a line.
use vstd::prelude::*;

use crate::text::{
    chars_eq, chars_of, concat, find, find_exec, lemma_find, lines, lines_exec, occurs_at, occurs_at_exec,
    starts_with,
    starts_with_exec, string_of, sub_vec, trim, trim_exec, views,
};

verus! {

/// Heading depth of a preview line.
#[derive(Debug, Clone, Copy, PartialEq, Eq, Structural)]
pub enum HeadingLevel {
    H1,
    H2,
    H3,
    H4,
}

/// One run of text on a line.
#[derive(Debug, Clone)]
pub struct InlineSpan {
    pub text: String,
    pub bold: bool,
    pub italic: bool,
}

/// One display line: an optional heading level and its spans.
#[derive(Debug, Clone)]
pub struct PreviewLine {
    pub heading: Option<HeadingLevel>,
    pub spans: Vec<InlineSpan>,
}

/// A display block of a note preview.
#[derive(Debug, Clone)]
pub enum PreviewBlock {
    Line(PreviewLine),
    Bullet(String),
    Code { lang: Option<String>, lines: Vec<String> },
}

/// Mathematical value of an [`InlineSpan`].
pub struct SpanView {
    pub text: Seq<char>,
    pub bold: bool,
    pub italic: bool,
}

/// Mathematical value of a [`PreviewLine`].
pub struct LineView {
    pub heading: Option<HeadingLevel>,
    pub spans: Seq<SpanView>,
}

/// Mathematical value of a [`PreviewBlock`].
pub enum BlockView {
    Line(LineView),
    Bullet(Seq<char>),
    Code { lang: Option<Seq<char>>, lines: Seq<Seq<char>> },
}

impl View for InlineSpan {
    type V = SpanView;

    open spec fn view(&self) -> SpanView {
        SpanView { text: self.text@, bold: self.bold, italic: self.italic }
    }
}

pub open spec fn span_views(s: Seq<InlineSpan>) -> Seq<SpanView> {
    s.map_values(|x: InlineSpan| x@)
}

impl View for PreviewLine {
    type V = LineView;

    open spec fn view(&self) -> LineView {
        LineView { heading: self.heading, spans: span_views(self.spans@) }
    }
}

pub open spec fn string_views(s: Seq<String>) -> Seq<Seq<char>> {
    s.map_values(|x: String| x@)
}

pub open spec fn opt_string_view(o: Option<String>) -> Option<Seq<char>> {
    match o {
        Some(s) => Some(s@),
        None => None,
    }
}

impl View for PreviewBlock {
    type V = BlockView;

    open spec fn view(&self) -> BlockView {
        match self {
            PreviewBlock::Line(l) => BlockView::Line(l@),
            PreviewBlock::Bullet(s) => BlockView::Bullet(s@),
            PreviewBlock::Code { lang, lines } => BlockView::Code {
                lang: opt_string_view(*lang),
                lines: string_views(lines@),
            },
        }
    }
}

pub open spec fn block_views(s: Seq<PreviewBlock>) -> Seq<BlockView> {
    s.map_values(|x: PreviewBlock| x@)
}

/// A span with neither bold nor italic set.
pub open spec fn plain(t: Seq<char>) -> SpanView {
    SpanView { text: t, bold: false, italic: false }
}

/// The plain span for the text before a marker at `idx`, if there is any.
pub open spec fn lead_span(rest: Seq<char>, idx: int) -> Seq<SpanView> {
    if idx > 0 {
        seq![plain(rest.take(idx))]
    } else {
        Seq::<SpanView>::empty()
    }
}

pub open spec fn star2() -> Seq<char> {
    seq!['*', '*']
}

/// Spans of `rest` for a single-character marker `m` (`` ` `` or `*`) found at `idx`:
/// the text between the marker and the next one is italic, and the scan resumes after
/// the closing marker.
pub open spec fn marker_spans(rest: Seq<char>, idx: int, m: char) -> (Seq<SpanView>, Option<Seq<char>>) {
    let r2 = rest.skip(idx + 1);
    match find(r2, seq![m]) {
        Some(end) => (
            lead_span(rest, idx) + seq![SpanView { text: r2.take(end), bold: false, italic: true }],
            Some(r2.skip(end + 1)),
        ),
        None => (lead_span(rest, idx) + seq![plain(seq![m] + r2)], None),
    }
}

/// Spans of `rest` for a `**` found at `idx`: the text up to the next `**` is bold.
pub open spec fn bold_spans(rest: Seq<char>, idx: int) -> (Seq<SpanView>, Option<Seq<char>>) {
    let r2 = rest.skip(idx + 2);
    match find(r2, star2()) {
        Some(end) => (
            lead_span(rest, idx) + seq![SpanView { text: r2.take(end), bold: true, italic: false }],
            Some(r2.skip(end + 2)),
        ),
        None => (lead_span(rest, idx) + seq![plain(star2() + r2)], None),
    }
}

/// Whether the first marker of `rest` is a `*` (alone or doubled) rather than a backtick.
pub open spec fn star_first(rest: Seq<char>) -> bool {
    match find(rest, seq!['*']) {
        Some(p) => match find(rest, seq!['`']) {
            Some(q) => p < q,
            None => true,
        },
        None => false,
    }
}

/// One step of the span scanner on a non-empty `rest`: the spans it emits and what is
/// left to scan (`None` once the scan stops). The earliest marker is taken: `**` where a
/// `*` is doubled, else a single `*` or backtick.
pub open spec fn inline_step(rest: Seq<char>) -> (Seq<SpanView>, Option<Seq<char>>) {
    if star_first(rest) {
        let p = find(rest, seq!['*'])->0;
        if occurs_at(rest, star2(), p) {
            bold_spans(rest, p)
        } else {
            marker_spans(rest, p, '*')
        }
    } else {
        match find(rest, seq!['`']) {
            Some(q) => marker_spans(rest, q, '`'),
            None => (seq![plain(rest)], None),
        }
    }
}

pub proof fn lemma_inline_step_shrinks(rest: Seq<char>)
    requires
        rest.len() > 0,
    ensures
        inline_step(rest).1 matches Some(r) ==> r.len() < rest.len(),
{
    lemma_find(rest, seq!['*']);
    lemma_find(rest, seq!['`']);
    if star_first(rest) {
        let p = find(rest, seq!['*'])->0;
        lemma_find(rest.skip(p + 2), star2());
        lemma_find(rest.skip(p + 1), seq!['*']);
    } else {
        match find(rest, seq!['`']) {
            Some(q) => {
                lemma_find(rest.skip(q + 1), seq!['`']);
            },
            None => {},
        }
    }
}

/// The spans the scanner emits for `rest`, in order.
pub open spec fn inline_rest(rest: Seq<char>) -> Seq<SpanView>
    decreases rest.len(),
{
    if rest.len() == 0 {
        Seq::<SpanView>::empty()
    } else {
        proof {
            lemma_inline_step_shrinks(rest);
        }
        match inline_step(rest).1 {
            Some(r) => inline_step(rest).0 + inline_rest(r),
            None => inline_step(rest).0,
        }
    }
}

/// Spans of a whole line: the scanner's spans, or one plain span of the input when it
/// emits none.
pub open spec fn inline_spans(input: Seq<char>) -> Seq<SpanView> {
    if inline_rest(input).len() == 0 {
        seq![plain(input)]
    } else {
        inline_rest(input)
    }
}

/// A plain (neither bold nor italic) span of `text`.
pub fn plain_span(text: &str) -> (s: InlineSpan)
    ensures
        s@ == plain(text@),
{
    InlineSpan { text: String::from_str(text), bold: false, italic: false }
}

fn span_of(v: &[char], bold: bool, italic: bool) -> (s: InlineSpan)
    ensures
        s@ == (SpanView { text: v@, bold: bold, italic: italic }),
{
    InlineSpan { text: string_of(v), bold, italic }
}

/// Pushes the spans of a marker of `width` characters (`m`, or `**` when `width` is 2)
/// found at `idx` in `rest`, and returns what is left to scan.
fn marker_step(rest: &Vec<char>, idx: usize, m: char, width: usize, spans: &mut Vec<InlineSpan>) -> (r:
    Option<Vec<char>>)
    requires
        width == 1 || (width == 2 && m == '*'),
        idx + width <= rest.len(),
    ensures
        ({
            let out = if width == 2 {
                bold_spans(rest@, idx as int)
            } else {
                marker_spans(rest@, idx as int, m)
            };
            &&& span_views(final(spans)@) == span_views(old(spans)@) + out.0
            &&& match r {
                Some(v) => out.1 == Some(v@),
                None => out.1 is None,
            }
        }),
{
    let ghost old_spans = spans@;
    if idx > 0 {
        let lead = string_of(&sub_vec(rest, 0, idx));
        spans.push(plain_span(lead.as_str()));
        assert(span_views(spans@) =~= span_views(old_spans).push(plain(rest@.take(idx as int))));
    } else {
        assert(span_views(spans@) =~= span_views(old_spans));
    }
    let r2 = sub_vec(rest, idx + width, rest.len());
    assert(r2@ =~= rest@.skip(idx + width));
    let mv = if width == 2 {
        vec!['*', '*']
    } else {
        vec![m]
    };
    assert(width == 2 ==> mv@ =~= star2());
    assert(width == 1 ==> mv@ =~= seq![m]);
    proof {
        lemma_find(r2@, mv@);
    }
    match find_exec(&r2, &mv) {
        Some(end) => {
            let ghost before = spans@;
            spans.push(span_of(&sub_vec(&r2, 0, end), width == 2, width == 1));
            assert(span_views(spans@) =~= span_views(before).push(
                SpanView { text: r2@.take(end as int), bold: width == 2, italic: width == 1 },
            ));
            let next = sub_vec(&r2, end + width, r2.len());
            assert(next@ =~= r2@.skip(end + width));
            Some(next)
        },
        None => {
            let ghost before = spans@;
            spans.push(span_of(&concat(&mv, &r2), false, false));
            assert(span_views(spans@) =~= span_views(before).push(plain(mv@ + r2@)));
            None
        },
    }
}

/// One scanner step on a non-empty `rest`: pushes the spans and returns what is left.
fn inline_step_exec(rest: &Vec<char>, spans: &mut Vec<InlineSpan>) -> (r: Option<Vec<char>>)
    requires
        rest@.len() > 0,
    ensures
        span_views(final(spans)@) == span_views(old(spans)@) + inline_step(rest@).0,
        match r {
            Some(v) => inline_step(rest@).1 == Some(v@),
            None => inline_step(rest@).1 is None,
        },
{
    let star = vec!['*'];
    let tick = vec!['`'];
    let s2 = vec!['*', '*'];
    assert(star@ =~= seq!['*']);
    assert(tick@ =~= seq!['`']);
    assert(s2@ =~= star2());
    proof {
        lemma_find(rest@, seq!['*']);
        lemma_find(rest@, seq!['`']);
    }
    let sp = find_exec(rest, &star);
    let tp = find_exec(rest, &tick);
    let star_wins = match sp {
        Some(p) => match tp {
            Some(q) => p < q,
            None => true,
        },
        None => false,
    };
    if star_wins {
        let p = match sp {
            Some(p) => p,
            None => 0,
        };
        if occurs_at_exec(rest, &s2, p) {
            marker_step(rest, p, '*', 2, spans)
        } else {
            marker_step(rest, p, '*', 1, spans)
        }
    } else {
        match tp {
            Some(q) => marker_step(rest, q, '`', 1, spans),
            None => {
                let ghost before = spans@;
                spans.push(span_of(rest, false, false));
                assert(span_views(spans@) =~= span_views(before).push(plain(rest@)));
                None
            },
        }
    }
}

/// Parses `**bold**`, `*italic*` and `` `code` `` spans of one line.
pub fn parse_inline_chars(input: &Vec<char>) -> (spans: Vec<InlineSpan>)
    ensures
        span_views(spans@) == inline_spans(input@),
{
    let mut spans: Vec<InlineSpan> = Vec::new();
    let mut rest = sub_vec(input, 0, input.len());
    assert(rest@ =~= input@);
    let mut done = false;
    while !done && rest.len() > 0
        invariant
            inline_rest(input@) == span_views(spans@) + if done {
                Seq::<SpanView>::empty()
            } else {
                inline_rest(rest@)
            },
        decreases rest@.len() + if done {
            0int
        } else {
            1int
        },
    {
        proof {
            lemma_inline_step_shrinks(rest@);
        }
        let ghost old_spans = span_views(spans@);
        let ghost old_rest = rest@;
        match inline_step_exec(&rest, &mut spans) {
            Some(next) => {
                rest = next;
                assert(inline_rest(old_rest) == inline_step(old_rest).0 + inline_rest(rest@));
                assert(span_views(spans@) + inline_rest(rest@) =~= old_spans + inline_rest(
                    old_rest,
                ));
            },
            None => {
                done = true;
                assert(span_views(spans@) + Seq::<SpanView>::empty() =~= old_spans + inline_rest(
                    old_rest,
                ));
            },
        }
    }
    if !done {
        assert(span_views(spans@) =~= span_views(spans@) + inline_rest(rest@));
    } else {
        assert(span_views(spans@) =~= span_views(spans@) + Seq::<SpanView>::empty());
    }
    if spans.len() == 0 {
        spans.push(span_of(input, false, false));
        assert(span_views(spans@) =~= seq![plain(input@)]);
    }
    spans
}

/// Parses `**bold**`, `*italic*` and `` `code` `` spans on one line.
pub fn parse_inline_spans(input: &str) -> (spans: Vec<InlineSpan>)
    ensures
        span_views(spans@) == inline_spans(input@),
{
    let v = chars_of(input);
    parse_inline_chars(&v)
}


/// The heading marker of a level, with its trailing space.
pub open spec fn heading_marker(level: HeadingLevel) -> Seq<char> {
    match level {
        HeadingLevel::H4 => seq!['#', '#', '#', '#', ' '],
        HeadingLevel::H3 => seq!['#', '#', '#', ' '],
        HeadingLevel::H2 => seq!['#', '#', ' '],
        HeadingLevel::H1 => seq!['#', ' '],
    }
}

/// The heading level of a trimmed line (deepest marker tested first) and the text after
/// its marker; the whole line when it carries none.
pub open spec fn line_body(t: Seq<char>) -> (Option<HeadingLevel>, Seq<char>) {
    if starts_with(t, heading_marker(HeadingLevel::H4)) {
        (Some(HeadingLevel::H4), t.skip(5))
    } else if starts_with(t, heading_marker(HeadingLevel::H3)) {
        (Some(HeadingLevel::H3), t.skip(4))
    } else if starts_with(t, heading_marker(HeadingLevel::H2)) {
        (Some(HeadingLevel::H2), t.skip(3))
    } else if starts_with(t, heading_marker(HeadingLevel::H1)) {
        (Some(HeadingLevel::H1), t.skip(2))
    } else {
        (None, t)
    }
}

/// The display line of a trimmed line; none for an empty line.
pub open spec fn line_of(t: Seq<char>) -> Option<LineView> {
    if t.len() == 0 {
        None
    } else {
        Some(LineView { heading: line_body(t).0, spans: inline_spans(line_body(t).1) })
    }
}

fn heading_exec(t: &Vec<char>) -> (r: (Option<HeadingLevel>, Vec<char>))
    ensures
        r.0 == line_body(t@).0,
        r.1@ == line_body(t@).1,
{
    let h4 = vec!['#', '#', '#', '#', ' '];
    let h3 = vec!['#', '#', '#', ' '];
    let h2 = vec!['#', '#', ' '];
    let h1 = vec!['#', ' '];
    assert(h4@ =~= heading_marker(HeadingLevel::H4));
    assert(h3@ =~= heading_marker(HeadingLevel::H3));
    assert(h2@ =~= heading_marker(HeadingLevel::H2));
    assert(h1@ =~= heading_marker(HeadingLevel::H1));
    let n = t.len();
    if starts_with_exec(t, &h4) {
        (Some(HeadingLevel::H4), sub_vec(t, 5, n))
    } else if starts_with_exec(t, &h3) {
        (Some(HeadingLevel::H3), sub_vec(t, 4, n))
    } else if starts_with_exec(t, &h2) {
        (Some(HeadingLevel::H2), sub_vec(t, 3, n))
    } else if starts_with_exec(t, &h1) {
        (Some(HeadingLevel::H1), sub_vec(t, 2, n))
    } else {
        let whole = sub_vec(t, 0, n);
        assert(whole@ =~= t@);
        (None, whole)
    }
}

fn line_of_chars(t: &Vec<char>) -> (r: Option<PreviewLine>)
    ensures
        match r {
            Some(l) => line_of(t@) == Some(l@),
            None => line_of(t@) is None,
        },
{
    if t.len() == 0 {
        return None;
    }
    let (heading, body) = heading_exec(t);
    let spans = parse_inline_chars(&body);
    Some(PreviewLine { heading, spans })
}

/// Parses one trimmed line: `# `..`#### ` headings, then inline spans.
pub fn parse_markdown_line(trimmed: &str) -> (r: Option<PreviewLine>)
    ensures
        match r {
            Some(l) => line_of(trimmed@) == Some(l@),
            None => line_of(trimmed@) is None,
        },
{
    let t = chars_of(trimmed);
    line_of_chars(&t)
}

pub open spec fn fence() -> Seq<char> {
    seq!['`', '`', '`']
}

/// `s` with all leading backticks removed.
pub open spec fn trim_start_ticks(s: Seq<char>) -> Seq<char>
    decreases s.len(),
{
    if s.len() > 0 && s[0] == '`' {
        trim_start_ticks(s.drop_first())
    } else {
        s
    }
}

/// Index of the first line at or after `j` whose trimmed text is a bare fence, or the
/// number of lines.
pub open spec fn code_end(ls: Seq<Seq<char>>, j: int) -> int
    decreases ls.len() - j,
{
    if j < 0 || j >= ls.len() {
        ls.len() as int
    } else if trim(ls[j]) == fence() {
        j
    } else {
        code_end(ls, j + 1)
    }
}

pub proof fn lemma_code_end(ls: Seq<Seq<char>>, j: int)
    requires
        0 <= j <= ls.len(),
    ensures
        j <= code_end(ls, j) <= ls.len(),
    decreases ls.len() - j,
{
    if j < ls.len() && trim(ls[j]) != fence() {
        lemma_code_end(ls, j + 1);
    }
}

pub open spec fn bullet_dash() -> Seq<char> {
    seq!['-', ' ']
}

pub open spec fn bullet_star() -> Seq<char> {
    seq!['*', ' ']
}

/// Blocks of the lines `ls[i..]`.
pub open spec fn blocks_from(ls: Seq<Seq<char>>, i: int) -> Seq<BlockView>
    decreases ls.len() - i,
{
    if i < 0 || i >= ls.len() {
        Seq::<BlockView>::empty()
    } else {
        let t = trim(ls[i]);
        if starts_with(t, fence()) {
            let lang = trim(trim_start_ticks(t));
            let e = code_end(ls, i + 1);
            proof {
                lemma_code_end(ls, i + 1);
            }
            seq![
                BlockView::Code {
                    lang: if lang.len() == 0 {
                        None
                    } else {
                        Some(lang)
                    },
                    lines: ls.subrange(i + 1, e),
                },
            ] + blocks_from(ls, if e < ls.len() { e + 1 } else { e })
        } else if t.len() == 0 {
            blocks_from(ls, i + 1)
        } else if starts_with(t, bullet_dash()) || starts_with(t, bullet_star()) {
            seq![BlockView::Bullet(t.skip(2))] + blocks_from(ls, i + 1)
        } else {
            match line_of(t) {
                Some(l) => seq![BlockView::Line(l)] + blocks_from(ls, i + 1),
                None => blocks_from(ls, i + 1),
            }
        }
    }
}

/// The display blocks of a markdown text.
pub open spec fn markdown_blocks(md: Seq<char>) -> Seq<BlockView> {
    blocks_from(lines(md), 0)
}

fn trim_start_ticks_exec(s: &Vec<char>) -> (r: Vec<char>)
    ensures
        r@ == trim_start_ticks(s@),
{
    let n = s.len();
    let mut i: usize = 0;
    assert(s@.subrange(0, n as int) =~= s@);
    while i < n && s[i] == '`'
        invariant
            n == s@.len(),
            i <= n,
            trim_start_ticks(s@) == trim_start_ticks(s@.subrange(i as int, n as int)),
        decreases n - i,
    {
        assert(s@.subrange(i as int, n as int).drop_first() =~= s@.subrange(i + 1, n as int));
        i = i + 1;
    }
    sub_vec(s, i, n)
}

/// Walks markdown and emits display blocks (headings, bullets, fenced code).
pub fn parse_markdown_blocks(markdown: &str) -> (blocks: Vec<PreviewBlock>)
    ensures
        block_views(blocks@) == markdown_blocks(markdown@),
{
    let chars = chars_of(markdown);
    let ls = lines_exec(&chars);
    let ghost lv = views(ls@);
    let fence_v = vec!['`', '`', '`'];
    assert(fence_v@ =~= fence());
    let dash = vec!['-', ' '];
    assert(dash@ =~= bullet_dash());
    let star = vec!['*', ' '];
    assert(star@ =~= bullet_star());
    let n = ls.len();
    let mut blocks: Vec<PreviewBlock> = Vec::new();
    let mut i: usize = 0;
    while i < n
        invariant
            n == ls@.len(),
            lv == views(ls@),
            lv.len() == n,
            i <= n,
            blocks_from(lv, 0) == block_views(blocks@) + blocks_from(lv, i as int),
            fence_v@ == fence(),
            dash@ == bullet_dash(),
            star@ == bullet_star(),
        decreases n - i,
    {
        let ghost i0 = i as int;
        let ghost old_blocks = block_views(blocks@);
        assert(lv[i0] == ls@[i0]@);
        let t = trim_exec(&ls[i]);
        if starts_with_exec(&t, &fence_v) {
            let ticks = trim_start_ticks_exec(&t);
            let lang_v = trim_exec(&ticks);
            let lang = if lang_v.len() == 0 {
                None
            } else {
                Some(string_of(&lang_v))
            };
            i = i + 1;
            let start = i;
            proof {
                lemma_code_end(lv, start as int);
            }
            let mut code_lines: Vec<String> = Vec::new();
            while i < n && !chars_eq(&trim_exec(&ls[i]), &fence_v)
                invariant
                    n == ls@.len(),
                    lv == views(ls@),
                    lv.len() == n,
                    start <= i <= n,
                    code_end(lv, start as int) == code_end(lv, i as int),
                    string_views(code_lines@) == lv.subrange(start as int, i as int),
                    fence_v@ == fence(),
                decreases n - i,
            {
                assert(lv[i as int] == ls@[i as int]@);
                let ghost before = string_views(code_lines@);
                code_lines.push(string_of(&ls[i]));
                assert(string_views(code_lines@) =~= before.push(lv[i as int]));
                assert(lv.subrange(start as int, i + 1) =~= lv.subrange(start as int, i as int).push(
                    lv[i as int],
                ));
                i = i + 1;
            }
            proof {
                if i < n {
                    assert(lv[i as int] == ls@[i as int]@);
                }
            }
            let ghost e = i as int;
            assert(code_end(lv, start as int) == e);
            if i < n {
                i = i + 1;
            }
            let ghost b = BlockView::Code {
                lang: opt_string_view(lang),
                lines: string_views(code_lines@),
            };
            blocks.push(PreviewBlock::Code { lang, lines: code_lines });
            assert(block_views(blocks@) =~= old_blocks.push(b));
        } else if t.len() == 0 {
            i = i + 1;
        } else if starts_with_exec(&t, &dash) || starts_with_exec(&t, &star) {
            let item = sub_vec(&t, 2, t.len());
            blocks.push(PreviewBlock::Bullet(string_of(&item)));
            assert(block_views(blocks@) =~= old_blocks.push(BlockView::Bullet(t@.skip(2))));
            i = i + 1;
        } else {
            match line_of_chars(&t) {
                Some(line) => {
                    let ghost lview = line@;
                    blocks.push(PreviewBlock::Line(line));
                    assert(block_views(blocks@) =~= old_blocks.push(BlockView::Line(lview)));
                },
                None => {},
            }
            i = i + 1;
        }
    }
    assert(block_views(blocks@) + blocks_from(lv, n as int) =~= block_views(blocks@));
    blocks
}

} // verus!
