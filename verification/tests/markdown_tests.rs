use am_workspace::markdown::{parse_inline_spans, parse_markdown_blocks, HeadingLevel, PreviewBlock};
use am_workspace::preview::{build_markdown_preview, strip_frontmatter};

#[test]
fn parses_headings_and_bold() {
    let blocks = parse_markdown_blocks("# Note 17\n\n## This is h2\n\n**bold line**");
    assert_eq!(blocks.len(), 3);
    assert!(matches!(&blocks[0], PreviewBlock::Line(l) if l.heading == Some(HeadingLevel::H1)));
    assert!(matches!(&blocks[1], PreviewBlock::Line(l) if l.heading == Some(HeadingLevel::H2)));
    if let PreviewBlock::Line(l) = &blocks[2] {
        assert!(l.spans.iter().any(|s| s.bold && s.text == "bold line"));
    } else {
        panic!("expected line block");
    }
}

#[test]
fn parses_fenced_code_block() {
    let md = "intro\n\n```python\nimport foo\nbar()\n```\n\nafter";
    let blocks = parse_markdown_blocks(md);
    let code_idx = blocks
        .iter()
        .position(|b| matches!(b, PreviewBlock::Code { .. }))
        .expect("code block");
    assert!(code_idx > 0, "code block should not be first");
    if let PreviewBlock::Code { lang, lines } = &blocks[code_idx] {
        assert_eq!(lang.as_deref(), Some("python"));
        assert_eq!(lines.len(), 2);
        assert_eq!(lines[0], "import foo");
    } else {
        panic!("expected code block");
    }
    assert!(blocks.len() > code_idx + 1, "content after code block");
}

#[test]
fn long_note_includes_content_after_line_eight() {
    let mut md = String::new();
    for i in 1..=10 {
        md.push_str(&format!("line {i}\n"));
    }
    md.push_str("```rust\nfn main() {}\n```");
    let blocks = parse_markdown_blocks(&md);
    assert!(
        blocks.iter().any(|b| matches!(b, PreviewBlock::Code { .. })),
        "fenced code at end must be parsed"
    );
}

#[test]
fn parses_bullet_items() {
    let blocks = parse_markdown_blocks("- first\n- second");
    assert_eq!(blocks.len(), 2);
    assert!(matches!(&blocks[0], PreviewBlock::Bullet(s) if s == "first"));
}

#[test]
fn build_markdown_preview_strips_noise() {
    let preview = build_markdown_preview("# Hello\n\n**world**");
    assert!(preview.contains("Hello"));
    assert!(preview.contains("world"));
    assert!(!preview.contains('#'));
}

#[test]
fn preview_of_empty_body_says_so() {
    assert_eq!(build_markdown_preview(""), "No body yet.");
    assert_eq!(build_markdown_preview("---\ntitle: x\n---\n"), "No body yet.");
}

#[test]
fn preview_collapses_whitespace_and_replaces_fences() {
    assert_eq!(build_markdown_preview("a   b\n\n c"), "a b c");
    assert_eq!(build_markdown_preview("```\nx\n```"), "code block x code block");
}

#[test]
fn preview_truncates_long_text() {
    let long = "x".repeat(200);
    let p = build_markdown_preview(&long);
    assert_eq!(p.len(), 180);
    assert!(p.ends_with("..."));
    assert_eq!(&p[..177], &long[..177]);
}

#[test]
fn strip_frontmatter_removes_block() {
    assert_eq!(strip_frontmatter("---\na: b\n---\n\nbody"), "body");
    assert_eq!(strip_frontmatter("no frontmatter"), "no frontmatter");
}

#[test]
fn inline_spans_mark_bold_and_italic() {
    let spans = parse_inline_spans("plain **bold**");
    assert_eq!(spans.len(), 2);
    assert!(!spans[0].bold && !spans[0].italic && spans[0].text == "plain ");
    assert!(spans[1].bold && spans[1].text == "bold");
    let spans = parse_inline_spans("*it* tail");
    assert!(spans[0].italic && !spans[0].bold && spans[0].text == "it");
    assert_eq!(spans[1].text, " tail");
    let spans = parse_inline_spans("open **never closed");
    assert_eq!(spans[1].text, "**never closed");
    assert!(!spans[1].bold);
}

#[test]
fn heading_levels_up_to_four() {
    let blocks = parse_markdown_blocks("### three\n#### four");
    assert!(matches!(&blocks[0], PreviewBlock::Line(l) if l.heading == Some(HeadingLevel::H3)));
    assert!(matches!(&blocks[1], PreviewBlock::Line(l) if l.heading == Some(HeadingLevel::H4)));
}

fn triples(input: &str) -> Vec<(String, bool, bool)> {
    parse_inline_spans(input).into_iter().map(|s| (s.text, s.bold, s.italic)).collect()
}

#[test]
fn italic_span_after_plain_text() {
    assert_eq!(
        triples("a *b*"),
        vec![("a ".to_string(), false, false), ("b".to_string(), false, true)]
    );
    assert_eq!(
        triples("x `code` y"),
        vec![("x ".to_string(), false, false), ("code".to_string(), false, true), (" y".to_string(), false, false)]
    );
}

#[test]
fn earliest_marker_comes_first() {
    assert_eq!(
        triples("*a* **b**"),
        vec![("a".to_string(), false, true), (" ".to_string(), false, false), ("b".to_string(), true, false)]
    );
    assert_eq!(
        triples("é *b*"),
        vec![("é ".to_string(), false, false), ("b".to_string(), false, true)]
    );
}
