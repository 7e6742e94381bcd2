use rustlab_presentations::config::Config;
use rustlab_presentations::render::{
    empty_frame_message, frame_bottom, frame_top, render_line_parts, render_slide,
};
use rustlab_presentations::segment::{Segment, SegmentKind};
use rustlab_presentations::text::format_index_label;
use rustlab_presentations::theme::ThemePalette;

const RESET: &str = "\x1b[0m";
const BOLD: &str = "\x1b[1m";
const ITALIC: &str = "\x1b[3m";
const UNDERLINE: &str = "\x1b[4m";

fn test_config(width: usize) -> Config {
    let palette = ThemePalette::new("<A>".to_string(), "<D>".to_string(), "<G>".to_string());
    Config::new(
        width,
        palette,
        None,
        "Demo".to_string(),
        "TEST".to_string(),
        true,
    )
}

fn plain(text: &str) -> Segment {
    Segment::new(SegmentKind::Plain(text.to_string()))
}

#[test]
fn index_labels_are_zero_padded() {
    assert_eq!(format_index_label(1), "001");
    assert_eq!(format_index_label(42), "042");
    assert_eq!(format_index_label(123), "123");
    assert_eq!(format_index_label(1000), "1000");
}

#[test]
fn truncation_is_exact() {
    // Width 40 leaves 28 columns after the "│ 001 :: " prefix and the
    // right border; 31 characters are cut to 27 plus the truncation
    // glyph.
    let cfg = test_config(40);
    let seg = plain("abcdefghijklmnopqrstuvwxyz01234");
    let line = render_slide(&cfg, 0, &seg);
    let expected = format!(
        "<D>│ 001 :: {RESET}<A>abcdefghijklmnopqrstuvwxyz0›{RESET}<D>│{RESET}\n"
    );
    assert_eq!(line, expected);
    let parts = render_line_parts(&cfg, 0, &seg);
    assert_eq!(parts.body.chars().count(), 28);
    assert_eq!(parts.body.chars().last(), Some('›'));
}

#[test]
fn exactly_fitting_content_is_not_truncated() {
    let cfg = test_config(40);
    let seg = plain("abcdefghijklmnopqrstuvwxyz01");
    let line = render_slide(&cfg, 0, &seg);
    let expected = format!(
        "<D>│ 001 :: {RESET}<A>abcdefghijklmnopqrstuvwxyz01{RESET}<D>│{RESET}\n"
    );
    assert_eq!(line, expected);
}

#[test]
fn short_content_is_padded_to_available_width() {
    let cfg = test_config(40);
    let seg = plain("hello");
    let line = render_slide(&cfg, 0, &seg);
    let pad = " ".repeat(23);
    let expected = format!("<D>│ 001 :: {RESET}<A>hello{RESET}<D>{pad}{RESET}<D>│{RESET}\n");
    assert_eq!(line, expected);
}

#[test]
fn empty_plain_line_is_all_padding() {
    let cfg = test_config(40);
    let seg = plain("");
    let line = render_slide(&cfg, 0, &seg);
    let pad = " ".repeat(28);
    let expected = format!("<D>│ 001 :: {RESET}<D>{pad}{RESET}<D>│{RESET}\n");
    assert_eq!(line, expected);
}

#[test]
fn heading_is_upper_cased_bold_underlined() {
    let cfg = test_config(40);
    let seg = Segment::new(SegmentKind::Heading("tytuł".to_string()));
    let line = render_slide(&cfg, 0, &seg);
    let pad = " ".repeat(23);
    let expected = format!(
        "<D>│ 001 :: {RESET}{BOLD}{UNDERLINE}<G>TYTUŁ{RESET}<D>{pad}{RESET}<D>│{RESET}\n"
    );
    assert_eq!(line, expected);
}

#[test]
fn bullet_gets_glyph_and_accent() {
    let cfg = test_config(40);
    let seg = Segment::new(SegmentKind::Bullet("point".to_string()));
    let line = render_slide(&cfg, 0, &seg);
    let pad = " ".repeat(21);
    let expected = format!("<D>│ 001 :: {RESET}<A>• point{RESET}<D>{pad}{RESET}<D>│{RESET}\n");
    assert_eq!(line, expected);
}

#[test]
fn callout_is_quoted_and_italic() {
    let cfg = test_config(40);
    let seg = Segment::new(SegmentKind::Callout("q".to_string()));
    let line = render_slide(&cfg, 0, &seg);
    let pad = " ".repeat(23);
    let expected = format!(
        "<D>│ 001 :: {RESET}{ITALIC}<G>❝ q ❞{RESET}<D>{pad}{RESET}<D>│{RESET}\n"
    );
    assert_eq!(line, expected);
}

#[test]
fn separator_fills_the_line() {
    let cfg = test_config(40);
    let seg = Segment::new(SegmentKind::Separator);
    let line = render_slide(&cfg, 0, &seg);
    let fill = "─".repeat(28);
    let expected = format!("<D>│ 001 :: {RESET}<D>{fill}{RESET}<D>│{RESET}\n");
    assert_eq!(line, expected);
    let parts = render_line_parts(&cfg, 0, &seg);
    assert_eq!(parts.body, "");
}

#[test]
fn four_digit_index_widens_prefix() {
    let cfg = test_config(40);
    let seg = plain("x");
    let line = render_slide(&cfg, 999, &seg);
    let pad = " ".repeat(26);
    let expected = format!("<D>│ 1000 :: {RESET}<A>x{RESET}<D>{pad}{RESET}<D>│{RESET}\n");
    assert_eq!(line, expected);
}

#[test]
fn animated_and_instant_text_are_identical() {
    for width in [40, 57, 120] {
        let cfg = test_config(width);
        let segments = [
            Segment::new(SegmentKind::Heading("Reveal order".to_string())),
            Segment::new(SegmentKind::Bullet("first".to_string())),
            Segment::new(SegmentKind::Callout("said so".to_string())),
            plain("ordinary text that might be longer than the frame allows it to be"),
            plain(""),
            Segment::new(SegmentKind::Separator),
        ];
        for (i, seg) in segments.iter().enumerate() {
            let parts = render_line_parts(&cfg, i, seg);
            let whole = render_slide(&cfg, i, seg);
            let reassembled = format!("{}{}{}", parts.head, parts.body, parts.tail);
            assert_eq!(reassembled, whole);
        }
    }
}

#[test]
fn per_kind_delays() {
    let cfg = test_config(40);
    let delays: Vec<u64> = [
        Segment::new(SegmentKind::Heading("h".to_string())),
        Segment::new(SegmentKind::Bullet("b".to_string())),
        Segment::new(SegmentKind::Callout("c".to_string())),
        plain("p"),
        Segment::new(SegmentKind::Separator),
    ]
    .iter()
    .map(|seg| render_line_parts(&cfg, 0, seg).delay_ms)
    .collect();
    assert_eq!(delays, vec![35, 45, 38, 55, 0]);
}

#[test]
fn frame_borders_match_width() {
    let cfg = test_config(40);
    let fill = "─".repeat(38);
    assert_eq!(frame_top(&cfg), format!("<D>╭{fill}╮{RESET}\n"));
    assert_eq!(frame_bottom(&cfg), format!("<D>╰{fill}╯{RESET}\n"));
}

#[test]
fn empty_frame_message_layout() {
    let cfg = test_config(40);
    let line = empty_frame_message(&cfg);
    let mut expected = format!("<D>│ SYS :: {RESET}");
    for ch in "(brak treści w pliku)".chars() {
        expected.push_str(ITALIC);
        expected.push_str("<D>");
        expected.push(ch);
    }
    let pad = " ".repeat(7);
    expected.push_str(&format!("{RESET}<D>{pad}{RESET}<D>│{RESET}\n"));
    assert_eq!(line, expected);
}
