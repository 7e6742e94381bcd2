//! The segment classifier: every raw script line becomes exactly one
//! typed presentation segment.  Classification is total and
//! deterministic; the first matching rule wins.

use vstd::prelude::*;
use crate::text::{
    trim_ws, trim_start_ws, strip_leading, is_white_char, trim_str, trim_start_str,
    strip_leading_str, lemma_trim_ws_idempotent, lemma_trim_ws_of_trimmed,
    lemma_trim_start_ws_props, lemma_trim_end_ws_props, lemma_strip_leading_props,
};

verus! {

/// Ghost model of a classified segment: its kind and its text, already
/// trimmed and stripped of the classification marker.
pub enum SegModel {
    Heading(Seq<char>),
    Bullet(Seq<char>),
    Callout(Seq<char>),
    Plain(Seq<char>),
    Separator,
}

/// The kind of a presentation segment, with its prepared text.
#[derive(Debug, Clone, PartialEq, Eq)]
pub enum SegmentKind {
    Heading(String),
    Bullet(String),
    Callout(String),
    Plain(String),
    Separator,
}

impl View for SegmentKind {
    type V = SegModel;

    open spec fn view(&self) -> SegModel {
        match self {
            SegmentKind::Heading(t) => SegModel::Heading(t@),
            SegmentKind::Bullet(t) => SegModel::Bullet(t@),
            SegmentKind::Callout(t) => SegModel::Callout(t@),
            SegmentKind::Plain(t) => SegModel::Plain(t@),
            SegmentKind::Separator => SegModel::Separator,
        }
    }
}

/// One classified unit of presentable content.
#[derive(Debug, Clone, PartialEq, Eq)]
pub struct Segment {
    kind: SegmentKind,
}

impl View for Segment {
    type V = SegModel;

    closed spec fn view(&self) -> SegModel {
        self.kind@
    }
}

impl Segment {
    pub fn new(kind: SegmentKind) -> (s: Segment)
        ensures
            s@ == kind@,
    {
        Segment { kind }
    }

    pub fn kind(&self) -> (k: &SegmentKind)
        ensures
            k@ == self@,
    {
        &self.kind
    }
}

/// The characters a separator line may consist of.
pub open spec fn is_sep_char(c: char) -> bool {
    c == '-' || c == '–' || c == '='
}

/// Whether every character of the line is a separator character.
pub open spec fn all_sep_chars(t: Seq<char>) -> bool {
    forall|i: int| 0 <= i < t.len() ==> is_sep_char(t[i])
}

/// A trimmed, non-empty line of separator characters is a separator
/// when it is at least three bytes long.  The threshold is measured in
/// UTF-8 bytes: three dashes qualify, and so does a single en dash,
/// which is three bytes on its own.
pub open spec fn is_separator_line(t: Seq<char>) -> bool {
    t.len() > 0 && all_sep_chars(t) && (t.len() >= 3 || exists|i: int|
        0 <= i < t.len() && t[i] == '–')
}

/// The text of a heading: the line after its leading `#` run, trimmed.
pub open spec fn heading_text(t: Seq<char>) -> Seq<char> {
    trim_ws(strip_leading(t, '#'))
}

/// A trimmed line is a heading when it starts with `#` and keeps some
/// text once the `#` run and surrounding whitespace are removed.
pub open spec fn is_heading(t: Seq<char>) -> bool {
    t.len() > 0 && t[0] == '#' && heading_text(t).len() > 0
}

/// A trimmed line is a bullet when it starts with `"- "` or `"* "`.
pub open spec fn is_bullet(t: Seq<char>) -> bool {
    t.len() >= 2 && (t[0] == '-' || t[0] == '*') && t[1] == ' '
}

/// The text of a bullet: the line after its two-character marker,
/// left-trimmed.
pub open spec fn bullet_text(t: Seq<char>) -> Seq<char> {
    trim_start_ws(t.skip(2))
}

/// A trimmed line is a callout when it starts with `>`.
pub open spec fn is_callout(t: Seq<char>) -> bool {
    t.len() > 0 && t[0] == '>'
}

/// The text of a callout: the line after its leading `>` run,
/// left-trimmed.
pub open spec fn callout_text(t: Seq<char>) -> Seq<char> {
    trim_start_ws(strip_leading(t, '>'))
}

/// How one raw line is classified: the first matching rule wins.
/// An empty or whitespace-only line is empty plain text; then come
/// separators, headings, bullets and callouts; anything else is the
/// trimmed line as plain text.
pub open spec fn classified(line: Seq<char>) -> SegModel {
    let t = trim_ws(line);
    if t.len() == 0 {
        SegModel::Plain(Seq::empty())
    } else if is_separator_line(t) {
        SegModel::Separator
    } else if is_heading(t) {
        SegModel::Heading(heading_text(t))
    } else if is_bullet(t) {
        SegModel::Bullet(bullet_text(t))
    } else if is_callout(t) {
        SegModel::Callout(callout_text(t))
    } else {
        SegModel::Plain(t)
    }
}

/// Classifies one raw line.
pub fn classify_segment(line: &str) -> (seg: Segment)
    ensures
        seg@ == classified(line@),
{
    let trimmed = trim_str(line);
    let n = trimmed.as_str().unicode_len();
    if n == 0 {
        return Segment::new(SegmentKind::Plain(String::new()));
    }
    let mut i: usize = 0;
    let mut all_sep = true;
    let mut has_en_dash = false;
    while i < n
        invariant
            0 <= i <= n,
            n == trimmed@.len(),
            trimmed@ == trim_ws(line@),
            all_sep <==> (forall|j: int| 0 <= j < i ==> is_sep_char(trimmed@[j])),
            has_en_dash ==> exists|j: int| 0 <= j < i && trimmed@[j] == '–',
            !has_en_dash ==> forall|j: int| 0 <= j < i ==> trimmed@[j] != '–',
        decreases n - i,
    {
        let c = trimmed.as_str().get_char(i);
        if !(c == '-' || c == '–' || c == '=') {
            all_sep = false;
        }
        if c == '–' {
            has_en_dash = true;
        }
        i = i + 1;
    }
    if all_sep && (n >= 3 || has_en_dash) {
        assert(is_separator_line(trimmed@));
        return Segment::new(SegmentKind::Separator);
    }
    assert(!is_separator_line(trimmed@));
    if trimmed.as_str().get_char(0) == '#' {
        let stripped = strip_leading_str(trimmed.as_str(), '#');
        let content = trim_str(stripped.as_str());
        if !content.as_str().is_empty() {
            return Segment::new(SegmentKind::Heading(content));
        }
    }
    if n >= 2 {
        let c0 = trimmed.as_str().get_char(0);
        let c1 = trimmed.as_str().get_char(1);
        if (c0 == '-' || c0 == '*') && c1 == ' ' {
            let rest = trimmed.as_str().substring_char(2, n);
            proof {
                assert(rest@ =~= trimmed@.skip(2));
            }
            let content = trim_start_str(rest);
            return Segment::new(SegmentKind::Bullet(content));
        }
    }
    if trimmed.as_str().get_char(0) == '>' {
        let stripped = strip_leading_str(trimmed.as_str(), '>');
        let content = trim_start_str(stripped.as_str());
        return Segment::new(SegmentKind::Callout(content));
    }
    Segment::new(SegmentKind::Plain(trimmed))
}

/// Classifies every line of a script, in order: one segment per line,
/// no line dropped or merged.
pub fn parse_segments(lines: &Vec<String>) -> (segs: Vec<Segment>)
    ensures
        segs@.len() == lines@.len(),
        forall|i: int| 0 <= i < lines@.len() ==> #[trigger] segs@[i]@ == classified(lines@[i]@),
{
    let mut segs: Vec<Segment> = Vec::new();
    let mut i: usize = 0;
    while i < lines.len()
        invariant
            0 <= i <= lines@.len(),
            segs@.len() == i,
            forall|j: int| 0 <= j < i ==> #[trigger] segs@[j]@ == classified(lines@[j]@),
        decreases lines@.len() - i,
    {
        segs.push(classify_segment(lines[i].as_str()));
        i = i + 1;
    }
    segs
}

/// A trimmed line that matches none of the marker rules.
pub open spec fn marker_free(t: Seq<char>) -> bool {
    !is_separator_line(t) && !is_heading(t) && !is_bullet(t) && !is_callout(t)
}

/// A line that is already trimmed and marker-free classifies as plain
/// text, unchanged.
pub proof fn lemma_classify_trimmed_plain(t: Seq<char>)
    requires
        trim_ws(t) == t,
        marker_free(t),
    ensures
        classified(t) == SegModel::Plain(t),
{
    if t.len() == 0 {
        assert(classified(t) == SegModel::Plain(Seq::<char>::empty()));
        assert(Seq::<char>::empty() =~= t);
    }
}

/// The text carried by every classified segment is already trimmed: no
/// leading or trailing whitespace survives classification.
pub proof fn lemma_extracted_text_trimmed(line: Seq<char>)
    ensures
        classified(line) matches SegModel::Plain(t) ==> trim_ws(t) == t,
        classified(line) matches SegModel::Heading(t) ==> trim_ws(t) == t,
        classified(line) matches SegModel::Bullet(t) ==> trim_ws(t) == t,
        classified(line) matches SegModel::Callout(t) ==> trim_ws(t) == t,
{
    let tr = trim_ws(line);
    lemma_trim_ws_idempotent(line);
    lemma_trim_start_ws_props(line);
    lemma_trim_end_ws_props(trim_start_ws(line));
    if tr.len() == 0 {
        lemma_trim_ws_of_trimmed(Seq::<char>::empty());
    } else {
        assert(!is_white_char(tr.last()));
        if is_heading(tr) && !is_separator_line(tr) {
            lemma_trim_ws_idempotent(strip_leading(tr, '#'));
        }
        if is_bullet(tr) && !is_separator_line(tr) && !is_heading(tr) {
            let rest = tr.skip(2);
            let t = bullet_text(tr);
            lemma_trim_start_ws_props(rest);
            if t.len() > 0 {
                assert(rest.len() > 0);
                assert(rest.last() == tr.last());
                assert(!is_white_char(t[0]));
                assert(t.last() == rest.last());
            }
            lemma_trim_ws_of_trimmed(t);
        }
        if is_callout(tr) && !is_separator_line(tr) && !is_heading(tr) && !is_bullet(tr) {
            let stripped = strip_leading(tr, '>');
            let t = callout_text(tr);
            lemma_strip_leading_props(tr, '>');
            lemma_trim_start_ws_props(stripped);
            if t.len() > 0 {
                assert(stripped.len() > 0);
                assert(stripped.last() == tr.last());
                assert(!is_white_char(t[0]));
                assert(t.last() == stripped.last());
            }
            lemma_trim_ws_of_trimmed(t);
        }
    }
}

/// Classification is idempotent on its own output: re-classifying the
/// extracted text of a plain segment gives that plain segment back, and
/// the same holds for the text of a heading, bullet or callout whenever
/// that text does not itself begin like a marker line.
pub proof fn lemma_classify_extracted(line: Seq<char>)
    ensures
        classified(line) matches SegModel::Plain(t) ==> classified(t) == SegModel::Plain(t),
        classified(line) matches SegModel::Heading(t) ==> (marker_free(t) ==> classified(t)
            == SegModel::Plain(t)),
        classified(line) matches SegModel::Bullet(t) ==> (marker_free(t) ==> classified(t)
            == SegModel::Plain(t)),
        classified(line) matches SegModel::Callout(t) ==> (marker_free(t) ==> classified(t)
            == SegModel::Plain(t)),
{
    lemma_extracted_text_trimmed(line);
    match classified(line) {
        SegModel::Plain(t) => {
            lemma_classify_trimmed_plain(t);
        },
        SegModel::Heading(t) => {
            if marker_free(t) {
                lemma_classify_trimmed_plain(t);
            }
        },
        SegModel::Bullet(t) => {
            if marker_free(t) {
                lemma_classify_trimmed_plain(t);
            }
        },
        SegModel::Callout(t) => {
            if marker_free(t) {
                lemma_classify_trimmed_plain(t);
            }
        },
        SegModel::Separator => {},
    }
}

} // verus!
