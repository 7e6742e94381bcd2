use rustlab_presentations::segment::{classify_segment, parse_segments, Segment, SegmentKind};

fn kind_of(line: &str) -> SegmentKind {
    classify_segment(line).kind().clone()
}

#[test]
fn empty_line_is_empty_plain() {
    assert_eq!(kind_of(""), SegmentKind::Plain(String::new()));
    assert_eq!(kind_of("   "), SegmentKind::Plain(String::new()));
    assert_eq!(kind_of("\t"), SegmentKind::Plain(String::new()));
}

#[test]
fn separator_needs_three_characters() {
    // Two separator characters stay plain text; three make a separator.
    assert_eq!(kind_of("--"), SegmentKind::Plain("--".to_string()));
    assert_eq!(kind_of("---"), SegmentKind::Separator);
}

#[test]
fn separator_accepts_all_three_glyphs() {
    assert_eq!(kind_of("==="), SegmentKind::Separator);
    assert_eq!(kind_of("-=–"), SegmentKind::Separator);
    assert_eq!(kind_of("  ----  "), SegmentKind::Separator);
    assert_eq!(kind_of("--x-"), SegmentKind::Plain("--x-".to_string()));
}

#[test]
fn separator_threshold_counts_utf8_bytes() {
    // The three-byte en dash reaches the threshold on its own; two
    // one-byte glyphs do not.
    assert_eq!(kind_of("–"), SegmentKind::Separator);
    assert_eq!(kind_of("-–"), SegmentKind::Separator);
    assert_eq!(kind_of("-="), SegmentKind::Plain("-=".to_string()));
}

#[test]
fn heading_strips_hashes_and_whitespace() {
    assert_eq!(kind_of("# Title"), SegmentKind::Heading("Title".to_string()));
    assert_eq!(kind_of("###  Deep  "), SegmentKind::Heading("Deep".to_string()));
    assert_eq!(kind_of("#NoSpace"), SegmentKind::Heading("NoSpace".to_string()));
}

#[test]
fn bare_hash_falls_through_to_plain() {
    assert_eq!(kind_of("#"), SegmentKind::Plain("#".to_string()));
    assert_eq!(kind_of("##   "), SegmentKind::Plain("##".to_string()));
}

#[test]
fn bullet_markers_are_stripped() {
    assert_eq!(kind_of("- point"), SegmentKind::Bullet("point".to_string()));
    assert_eq!(kind_of("* point"), SegmentKind::Bullet("point".to_string()));
    assert_eq!(kind_of("-   spaced"), SegmentKind::Bullet("spaced".to_string()));
    assert_eq!(kind_of("-no space"), SegmentKind::Plain("-no space".to_string()));
    assert_eq!(kind_of("- "), SegmentKind::Plain("-".to_string()));
}

#[test]
fn callout_strips_arrow_run() {
    assert_eq!(kind_of(">quote"), SegmentKind::Callout("quote".to_string()));
    assert_eq!(kind_of("> quote"), SegmentKind::Callout("quote".to_string()));
    assert_eq!(kind_of(">> nested"), SegmentKind::Callout("nested".to_string()));
}

#[test]
fn plain_text_is_trimmed() {
    assert_eq!(kind_of("  hello world  "), SegmentKind::Plain("hello world".to_string()));
    assert_eq!(kind_of("\u{A0}wide\u{A0}"), SegmentKind::Plain("wide".to_string()));
}

#[test]
fn classification_length_matches_input() {
    let lines: Vec<String> = vec![
        "# a".to_string(),
        "".to_string(),
        "- b".to_string(),
        "just text".to_string(),
        "---".to_string(),
        "   ".to_string(),
    ];
    let segments = parse_segments(&lines);
    assert_eq!(segments.len(), lines.len());
}

#[test]
fn reclassifying_extracted_text_yields_plain() {
    // The text field of a classified segment carries no marker any
    // more, so classifying it again leaves it as plain text.
    let cases = ["# Title", "- point one", ">quote", "  plain  ", "deep # inside"];
    for line in cases {
        let text = match classify_segment(line).kind().clone() {
            SegmentKind::Heading(t) => t,
            SegmentKind::Bullet(t) => t,
            SegmentKind::Callout(t) => t,
            SegmentKind::Plain(t) => t,
            SegmentKind::Separator => unreachable!(),
        };
        assert_eq!(kind_of(&text), SegmentKind::Plain(text.clone()));
    }
}

#[test]
fn reclassifying_can_find_a_fresh_marker() {
    // A heading whose text itself begins like a bullet is the one case
    // where re-classification does not return plain text.
    assert_eq!(kind_of("# - x"), SegmentKind::Heading("- x".to_string()));
    assert_eq!(kind_of("- x"), SegmentKind::Bullet("x".to_string()));
}

#[test]
fn end_to_end_classification() {
    let lines: Vec<String> = vec![
        "# Title".to_string(),
        "- point one".to_string(),
        "".to_string(),
        ">quote".to_string(),
        "---".to_string(),
    ];
    let segments: Vec<Segment> = parse_segments(&lines);
    assert_eq!(segments.len(), 5);
    assert_eq!(segments[0].kind(), &SegmentKind::Heading("Title".to_string()));
    assert_eq!(segments[1].kind(), &SegmentKind::Bullet("point one".to_string()));
    assert_eq!(segments[2].kind(), &SegmentKind::Plain(String::new()));
    assert_eq!(segments[3].kind(), &SegmentKind::Callout("quote".to_string()));
    assert_eq!(segments[4].kind(), &SegmentKind::Separator);
}
