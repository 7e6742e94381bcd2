//! The frame renderer: lays out one segment as one line of a bordered,
//! fixed-width frame.  The layout is pure text computation — exact
//! truncation, padding and styling — and is specified to the character;
//! emitting the text (with or without the character-paced reveal) is
//! left to the caller, which receives the line both whole and split
//! into its animation parts.

use vstd::prelude::*;
use crate::config::{Config, ConfigModel};
use crate::segment::{Segment, SegModel, SegmentKind};
use crate::text::{index_label, repeat_char, upper_of, to_upper, repeat_glyph, format_index_label};

verus! {

/// The columns left for segment content once the line prefix
/// `"│ NNN :: "` and the right border are accounted for.  The prefix
/// occupies the label's characters plus eight further bytes (the border
/// glyph counts as three), and one column is reserved for the border.
pub open spec fn available_width(width: nat, index: nat) -> nat {
    let used = index_label(index + 1).len() + 9;
    if width > used {
        (width - used) as nat
    } else {
        0
    }
}

/// The text a segment displays: headings upper-cased, bullets and
/// callouts wrapped in their glyphs, plain text as it is.
pub open spec fn display_text(seg: SegModel) -> Seq<char> {
    match seg {
        SegModel::Heading(t) => upper_of(t),
        SegModel::Bullet(t) => "• "@ + t,
        SegModel::Callout(t) => "❝ "@ + t + " ❞"@,
        SegModel::Plain(t) => t,
        SegModel::Separator => Seq::empty(),
    }
}

/// The style codes emitted before a segment's content.
pub open spec fn style_prefix(seg: SegModel) -> Seq<char> {
    match seg {
        SegModel::Heading(t) => "\x1b[1m"@ + "\x1b[4m"@,
        SegModel::Callout(t) => "\x1b[3m"@,
        _ => Seq::empty(),
    }
}

/// The colour token a segment's content is drawn with.
pub open spec fn seg_color(cfg: ConfigModel, seg: SegModel) -> Seq<char> {
    match seg {
        SegModel::Heading(t) => cfg.palette.glow,
        SegModel::Bullet(t) => cfg.palette.accent,
        SegModel::Callout(t) => cfg.palette.glow,
        SegModel::Plain(t) => if t.len() == 0 {
            cfg.palette.dim
        } else {
            cfg.palette.accent
        },
        SegModel::Separator => cfg.palette.dim,
    }
}

/// The per-character reveal delay of a segment kind, in milliseconds.
pub open spec fn seg_delay_ms(seg: SegModel) -> nat {
    match seg {
        SegModel::Heading(t) => 35,
        SegModel::Bullet(t) => 45,
        SegModel::Callout(t) => 38,
        SegModel::Plain(t) => 55,
        SegModel::Separator => 0,
    }
}

/// Content fitted to the available columns: kept whole when it fits,
/// otherwise cut to one column short and closed with the truncation
/// glyph, so the right border always lands on the same column.
pub open spec fn fitted(content: Seq<char>, avail: nat) -> Seq<char> {
    if content.len() <= avail {
        content
    } else if avail == 0 {
        Seq::empty()
    } else {
        content.take(avail - 1).push('›')
    }
}

/// Whether the content block (style, colour, fitted text, reset) is
/// emitted at all.
pub open spec fn has_content_block(cfg: ConfigModel, index: nat, seg: SegModel) -> bool {
    available_width(cfg.frame_width, index) > 0 && (display_text(seg).len() > 0 || style_prefix(
        seg,
    ).len() > 0)
}

/// The columns of dim padding after the content.
pub open spec fn pad_width(cfg: ConfigModel, index: nat, seg: SegModel) -> nat {
    let avail = available_width(cfg.frame_width, index);
    let fit_len = if has_content_block(cfg, index, seg) {
        fitted(display_text(seg), avail).len()
    } else {
        0
    };
    if fit_len <= avail {
        (avail - fit_len) as nat
    } else {
        0
    }
}

/// The dim line prefix: left border, zero-padded index label, marker.
pub open spec fn rendered_prefix(cfg: ConfigModel, index: nat) -> Seq<char> {
    cfg.palette.dim + "│ "@ + index_label(index + 1) + " :: "@ + "\x1b[0m"@
}

/// Everything emitted before the paced content characters.
pub open spec fn rendered_head(cfg: ConfigModel, index: nat, seg: SegModel) -> Seq<char> {
    if seg is Separator {
        rendered_prefix(cfg, index)
    } else if has_content_block(cfg, index, seg) {
        rendered_prefix(cfg, index) + style_prefix(seg) + seg_color(cfg, seg)
    } else {
        rendered_prefix(cfg, index)
    }
}

/// The content characters that the animated reveal paces one by one.
pub open spec fn rendered_body(cfg: ConfigModel, index: nat, seg: SegModel) -> Seq<char> {
    if seg is Separator {
        Seq::empty()
    } else if has_content_block(cfg, index, seg) {
        fitted(display_text(seg), available_width(cfg.frame_width, index))
    } else {
        Seq::empty()
    }
}

/// Everything emitted after the paced content characters: reset,
/// padding, right border, line break.
pub open spec fn rendered_tail(cfg: ConfigModel, index: nat, seg: SegModel) -> Seq<char> {
    let avail = available_width(cfg.frame_width, index);
    if seg is Separator {
        cfg.palette.dim + repeat_char('─', avail) + "\x1b[0m"@ + cfg.palette.dim + "│"@
            + "\x1b[0m"@ + "\n"@
    } else {
        let reset = if has_content_block(cfg, index, seg) {
            "\x1b[0m"@
        } else {
            Seq::<char>::empty()
        };
        let pad = pad_width(cfg, index, seg);
        let padding = if pad > 0 {
            cfg.palette.dim + repeat_char(' ', pad) + "\x1b[0m"@
        } else {
            Seq::<char>::empty()
        };
        reset + padding + cfg.palette.dim + "│"@ + "\x1b[0m"@ + "\n"@
    }
}

/// The complete rendered line for one segment.
pub open spec fn rendered_line(cfg: ConfigModel, index: nat, seg: SegModel) -> Seq<char> {
    let avail = available_width(cfg.frame_width, index);
    if seg is Separator {
        rendered_prefix(cfg, index) + cfg.palette.dim + repeat_char('─', avail) + "\x1b[0m"@
            + cfg.palette.dim + "│"@ + "\x1b[0m"@ + "\n"@
    } else {
        let block = if has_content_block(cfg, index, seg) {
            style_prefix(seg) + seg_color(cfg, seg) + fitted(display_text(seg), avail)
                + "\x1b[0m"@
        } else {
            Seq::<char>::empty()
        };
        let pad = pad_width(cfg, index, seg);
        let padding = if pad > 0 {
            cfg.palette.dim + repeat_char(' ', pad) + "\x1b[0m"@
        } else {
            Seq::<char>::empty()
        };
        rendered_prefix(cfg, index) + block + padding + cfg.palette.dim + "│"@ + "\x1b[0m"@
            + "\n"@
    }
}

/// Truncation is exact: over-long content is cut to exactly the
/// available width and ends in the truncation glyph; content that fits
/// is kept whole, and the padding always tops the region up to exactly
/// the available width.
pub proof fn lemma_truncation_exact(cfg: ConfigModel, index: nat, seg: SegModel)
    ensures
        seg is Separator ==> rendered_body(cfg, index, seg).len() == 0,
        !(seg is Separator) ==> rendered_body(cfg, index, seg).len() <= available_width(
            cfg.frame_width,
            index,
        ),
        !(seg is Separator) ==> rendered_body(cfg, index, seg).len() + pad_width(cfg, index, seg)
            == available_width(cfg.frame_width, index),
        !(seg is Separator) && has_content_block(cfg, index, seg) && display_text(seg).len()
            > available_width(cfg.frame_width, index) ==> rendered_body(cfg, index, seg).len()
            == available_width(cfg.frame_width, index) && rendered_body(cfg, index, seg).last()
            == '›',
        !(seg is Separator) && has_content_block(cfg, index, seg) && display_text(seg).len()
            <= available_width(cfg.frame_width, index) ==> rendered_body(cfg, index, seg)
            == display_text(seg),
{
    let avail = available_width(cfg.frame_width, index);
    if !(seg is Separator) && has_content_block(cfg, index, seg) {
        let d = display_text(seg);
        if d.len() > avail && avail > 0 {
            assert(fitted(d, avail).len() == avail);
            assert(fitted(d, avail).last() == '›');
        }
    }
}

/// The animated reveal and the instant write produce identical text:
/// the head, the paced content characters and the tail concatenate to
/// exactly the line the instant path writes, for every segment and
/// every configuration.
pub proof fn lemma_animated_matches_instant(cfg: ConfigModel, index: nat, seg: SegModel)
    ensures
        rendered_head(cfg, index, seg) + rendered_body(cfg, index, seg) + rendered_tail(
            cfg,
            index,
            seg,
        ) == rendered_line(cfg, index, seg),
{
    assert(rendered_head(cfg, index, seg) + rendered_body(cfg, index, seg) + rendered_tail(
        cfg,
        index,
        seg,
    ) =~= rendered_line(cfg, index, seg));
}

/// A rendered line, split into the pieces the animated reveal emits:
/// everything before the content, the content characters to pace (with
/// the per-character delay), and everything after.
pub struct RenderParts {
    pub head: String,
    pub body: String,
    pub delay_ms: u64,
    pub tail: String,
}

/// Fits content text to the available columns.
fn fit_content(content: &str, avail: usize) -> (r: String)
    ensures
        r@ == fitted(content@, avail as nat),
{
    let n = content.unicode_len();
    if n <= avail {
        content.to_owned()
    } else if avail == 0 {
        String::new()
    } else {
        let mut r = content.substring_char(0, avail - 1).to_owned();
        r.append("›");
        proof {
            reveal_strlit("›");
            assert(r@ =~= fitted(content@, avail as nat));
        }
        r
    }
}

/// Lays out one segment as the parts of one frame line.
pub fn render_line_parts(config: &Config, index: usize, segment: &Segment) -> (p: RenderParts)
    requires
        index < usize::MAX,
    ensures
        p.head@ == rendered_head(config@, index as nat, segment@),
        p.body@ == rendered_body(config@, index as nat, segment@),
        p.tail@ == rendered_tail(config@, index as nat, segment@),
        p.delay_ms as nat == seg_delay_ms(segment@),
{
    let label = format_index_label(index + 1);
    let lbl_len = label.as_str().unicode_len();
    let width = config.frame_width();
    let avail: usize = match lbl_len.checked_add(9) {
        Some(used) => width.saturating_sub(used),
        None => 0,
    };
    assert(avail as nat == available_width(config@.frame_width, index as nat));

    let mut head = String::from_str(config.color_dim());
    head.append("│ ");
    head.append(label.as_str());
    head.append(" :: ");
    head.append("\x1b[0m");
    assert(head@ =~= rendered_prefix(config@, index as nat));

    match segment.kind() {
        SegmentKind::Separator => {
            let mut tail = String::from_str(config.color_dim());
            proof {
                reveal_strlit("─");
            }
            let fill = repeat_glyph("─", avail);
            tail.append(fill.as_str());
            tail.append("\x1b[0m");
            tail.append(config.color_dim());
            tail.append("│");
            tail.append("\x1b[0m");
            tail.append("\n");
            assert(tail@ =~= rendered_tail(config@, index as nat, segment@));
            RenderParts { head, body: String::new(), delay_ms: 0, tail }
        },
        SegmentKind::Heading(t) => {
            let display = to_upper(t.as_str());
            let mut style = String::from_str("\x1b[1m");
            style.append("\x1b[4m");
            let color = config.color_glow();
            assemble_text_parts(config, head, display, style, color, 35, avail, Ghost(((index as nat), segment@)))
        },
        SegmentKind::Bullet(t) => {
            let mut display = String::from_str("• ");
            display.append(t.as_str());
            let style = String::new();
            let color = config.color_accent();
            assemble_text_parts(config, head, display, style, color, 45, avail, Ghost(((index as nat), segment@)))
        },
        SegmentKind::Callout(t) => {
            let mut display = String::from_str("❝ ");
            display.append(t.as_str());
            display.append(" ❞");
            let style = String::from_str("\x1b[3m");
            let color = config.color_glow();
            assemble_text_parts(config, head, display, style, color, 38, avail, Ghost(((index as nat), segment@)))
        },
        SegmentKind::Plain(t) => {
            let display = t.clone();
            let style = String::new();
            let color = if display.as_str().is_empty() {
                config.color_dim()
            } else {
                config.color_accent()
            };
            assemble_text_parts(config, head, display, style, color, 55, avail, Ghost(((index as nat), segment@)))
        },
    }
}

/// Assembles the parts of a non-separator line from its prefix, display
/// text, style codes and colour.
fn assemble_text_parts(
    config: &Config,
    head: String,
    display: String,
    style: String,
    color: &str,
    delay_ms: u64,
    avail: usize,
    Ghost(ctx): Ghost<(nat, SegModel)>,
) -> (p: RenderParts)
    requires
        !(ctx.1 is Separator),
        head@ == rendered_prefix(config@, ctx.0),
        display@ == display_text(ctx.1),
        style@ == style_prefix(ctx.1),
        color@ == seg_color(config@, ctx.1),
        delay_ms as nat == seg_delay_ms(ctx.1),
        avail as nat == available_width(config@.frame_width, ctx.0),
    ensures
        p.head@ == rendered_head(config@, ctx.0, ctx.1),
        p.body@ == rendered_body(config@, ctx.0, ctx.1),
        p.tail@ == rendered_tail(config@, ctx.0, ctx.1),
        p.delay_ms as nat == seg_delay_ms(ctx.1),
{
    let mut head = head;
    let has_block = avail > 0 && (display.as_str().unicode_len() > 0 || !style.as_str().is_empty());
    assert(has_block == has_content_block(config@, ctx.0, ctx.1));
    if has_block {
        head.append(style.as_str());
        head.append(color);
    }
    assert(head@ =~= rendered_head(config@, ctx.0, ctx.1));
    let body = if has_block {
        fit_content(display.as_str(), avail)
    } else {
        String::new()
    };
    let mut tail = String::new();
    if has_block {
        tail.append("\x1b[0m");
    }
    let pad = avail.saturating_sub(body.as_str().unicode_len());
    assert(pad as nat == pad_width(config@, ctx.0, ctx.1));
    if pad > 0 {
        tail.append(config.color_dim());
        proof {
            reveal_strlit(" ");
        }
        let spaces = repeat_glyph(" ", pad);
        tail.append(spaces.as_str());
        tail.append("\x1b[0m");
    }
    tail.append(config.color_dim());
    tail.append("│");
    tail.append("\x1b[0m");
    tail.append("\n");
    assert(tail@ =~= rendered_tail(config@, ctx.0, ctx.1));
    RenderParts { head, body, delay_ms, tail }
}

/// Renders one segment as its complete frame line, exactly the text the
/// animated reveal would leave on screen.
pub fn render_slide(config: &Config, index: usize, segment: &Segment) -> (r: String)
    requires
        index < usize::MAX,
    ensures
        r@ == rendered_line(config@, index as nat, segment@),
{
    let parts = render_line_parts(config, index, segment);
    let mut r = parts.head;
    r.append(parts.body.as_str());
    r.append(parts.tail.as_str());
    proof {
        lemma_animated_matches_instant(config@, index as nat, segment@);
    }
    r
}

/// The top border of the frame.
pub open spec fn frame_top_line(cfg: ConfigModel) -> Seq<char> {
    let inner = if cfg.frame_width > 2 {
        (cfg.frame_width - 2) as nat
    } else {
        0
    };
    cfg.palette.dim + "╭"@ + repeat_char('─', inner) + "╮"@ + "\x1b[0m"@ + "\n"@
}

/// The bottom border of the frame.
pub open spec fn frame_bottom_line(cfg: ConfigModel) -> Seq<char> {
    let inner = if cfg.frame_width > 2 {
        (cfg.frame_width - 2) as nat
    } else {
        0
    };
    cfg.palette.dim + "╰"@ + repeat_char('─', inner) + "╯"@ + "\x1b[0m"@ + "\n"@
}

/// Draws the top border of the frame.
pub fn frame_top(config: &Config) -> (r: String)
    ensures
        r@ == frame_top_line(config@),
{
    let inner = config.frame_width().saturating_sub(2);
    let mut r = String::from_str(config.color_dim());
    r.append("╭");
    proof {
        reveal_strlit("─");
    }
    let fill = repeat_glyph("─", inner);
    r.append(fill.as_str());
    r.append("╮");
    r.append("\x1b[0m");
    r.append("\n");
    assert(r@ =~= frame_top_line(config@));
    r
}

/// Draws the bottom border of the frame.
pub fn frame_bottom(config: &Config) -> (r: String)
    ensures
        r@ == frame_bottom_line(config@),
{
    let inner = config.frame_width().saturating_sub(2);
    let mut r = String::from_str(config.color_dim());
    r.append("╰");
    proof {
        reveal_strlit("─");
    }
    let fill = repeat_glyph("─", inner);
    r.append(fill.as_str());
    r.append("╯");
    r.append("\x1b[0m");
    r.append("\n");
    assert(r@ =~= frame_bottom_line(config@));
    r
}

/// The message shown inside the frame when the script has no lines.
pub open spec fn empty_frame_message_text() -> Seq<char> {
    "(brak treści w pliku)"@
}

/// A run of `k` message characters, each preceded by the italic code
/// and the dim token.
pub open spec fn italic_dim_run(dim: Seq<char>, msg: Seq<char>, k: int) -> Seq<char>
    decreases k,
{
    if k <= 0 {
        Seq::empty()
    } else {
        italic_dim_run(dim, msg, k - 1) + "\x1b[3m"@ + dim + seq![msg[k - 1]]
    }
}

/// The full frame line shown for an empty script: a `SYS` prefix, the
/// message in italic dim type cut to the available columns, padding and
/// the right border.  The prefix occupies twelve columns' worth of
/// bytes, like the regular line prefix with a three-character label.
pub open spec fn empty_frame_line(cfg: ConfigModel) -> Seq<char> {
    let avail = if cfg.frame_width > 12 {
        (cfg.frame_width - 12) as nat
    } else {
        0
    };
    let msg = empty_frame_message_text();
    let shown = if msg.len() <= avail {
        msg.len() as int
    } else {
        avail as int
    };
    let pad = avail - shown;
    let padding = if pad > 0 {
        cfg.palette.dim + repeat_char(' ', pad as nat) + "\x1b[0m"@
    } else {
        Seq::<char>::empty()
    };
    cfg.palette.dim + "│ SYS :: "@ + "\x1b[0m"@ + italic_dim_run(cfg.palette.dim, msg, shown)
        + "\x1b[0m"@ + padding + cfg.palette.dim + "│"@ + "\x1b[0m"@ + "\n"@
}

/// Renders the frame line shown when the script has no content.
pub fn empty_frame_message(config: &Config) -> (r: String)
    ensures
        r@ == empty_frame_line(config@),
{
    let msg = "(brak treści w pliku)";
    let total = msg.unicode_len();
    let avail = config.frame_width().saturating_sub(12);
    let shown = if total <= avail {
        total
    } else {
        avail
    };
    let mut r = String::from_str(config.color_dim());
    r.append("│ SYS :: ");
    r.append("\x1b[0m");
    let mut i: usize = 0;
    while i < shown
        invariant
            0 <= i <= shown,
            shown <= total,
            total == msg@.len(),
            msg@ == empty_frame_message_text(),
            r@ == config@.palette.dim + "│ SYS :: "@ + "\x1b[0m"@ + italic_dim_run(
                config@.palette.dim,
                msg@,
                i as int,
            ),
        decreases shown - i,
    {
        r.append("\x1b[3m");
        r.append(config.color_dim());
        let ch = msg.substring_char(i, i + 1);
        r.append(ch);
        proof {
            assert(ch@ =~= seq![msg@[i as int]]);
            assert(r@ =~= config@.palette.dim + "│ SYS :: "@ + "\x1b[0m"@ + italic_dim_run(
                config@.palette.dim,
                msg@,
                i + 1,
            ));
        }
        i = i + 1;
    }
    r.append("\x1b[0m");
    let pad = avail.saturating_sub(shown);
    if pad > 0 {
        r.append(config.color_dim());
        proof {
            reveal_strlit(" ");
        }
        let spaces = repeat_glyph(" ", pad);
        r.append(spaces.as_str());
        r.append("\x1b[0m");
    }
    r.append(config.color_dim());
    r.append("│");
    r.append("\x1b[0m");
    r.append("\n");
    assert(r@ =~= empty_frame_line(config@));
    r
}

} // verus!
