//! Character-sequence helpers shared by the classifier and the frame
//! renderer: whitespace trimming, marker stripping, glyph repetition and
//! decimal index labels, each specified over `Seq<char>`.

use vstd::prelude::*;

verus! {

/// Whether `c` has the Unicode `White_Space` property, the set of
/// characters that `str::trim` removes.
pub open spec fn is_white_char(c: char) -> bool {
    let x = c as u32;
    (0x09 <= x && x <= 0x0D) || x == 0x20 || x == 0x85 || x == 0xA0 || x == 0x1680 || (0x2000 <= x
        && x <= 0x200A) || x == 0x2028 || x == 0x2029 || x == 0x202F || x == 0x205F || x == 0x3000
}

/// Decides the Unicode `White_Space` property.
pub(crate) fn char_is_white(c: char) -> (r: bool)
    ensures
        r == is_white_char(c),
{
    let x = c as u32;
    (0x09 <= x && x <= 0x0D) || x == 0x20 || x == 0x85 || x == 0xA0 || x == 0x1680 || (0x2000 <= x
        && x <= 0x200A) || x == 0x2028 || x == 0x2029 || x == 0x202F || x == 0x205F || x == 0x3000
}

/// `s` without its leading whitespace.
pub open spec fn trim_start_ws(s: Seq<char>) -> Seq<char>
    decreases s.len(),
{
    if s.len() > 0 && is_white_char(s[0]) {
        trim_start_ws(s.drop_first())
    } else {
        s
    }
}

/// `s` without its trailing whitespace.
pub open spec fn trim_end_ws(s: Seq<char>) -> Seq<char>
    decreases s.len(),
{
    if s.len() > 0 && is_white_char(s.last()) {
        trim_end_ws(s.drop_last())
    } else {
        s
    }
}

/// `s` without leading and trailing whitespace.
pub open spec fn trim_ws(s: Seq<char>) -> Seq<char> {
    trim_end_ws(trim_start_ws(s))
}

/// `s` without its leading run of the character `c`.
pub open spec fn strip_leading(s: Seq<char>, c: char) -> Seq<char>
    decreases s.len(),
{
    if s.len() > 0 && s[0] == c {
        strip_leading(s.drop_first(), c)
    } else {
        s
    }
}

/// Trimming from the start keeps exactly the suffix that begins at the
/// first non-whitespace character.
pub proof fn lemma_trim_start_ws_skip(s: Seq<char>, i: int)
    requires
        0 <= i <= s.len(),
        forall|j: int| 0 <= j < i ==> is_white_char(s[j]),
        i == s.len() || !is_white_char(s[i]),
    ensures
        trim_start_ws(s) == s.skip(i),
    decreases i,
{
    if i == 0 {
        assert(s.skip(0) =~= s);
    } else {
        let t = s.drop_first();
        assert(is_white_char(s[0]));
        lemma_trim_start_ws_skip(t, i - 1);
        assert(t.skip(i - 1) =~= s.skip(i));
    }
}

/// Trimming from the end keeps exactly the prefix that ends at the last
/// non-whitespace character.
pub proof fn lemma_trim_end_ws_take(s: Seq<char>, i: int)
    requires
        0 <= i <= s.len(),
        forall|j: int| i <= j < s.len() ==> is_white_char(s[j]),
        i == 0 || !is_white_char(s[i - 1]),
    ensures
        trim_end_ws(s) == s.take(i),
    decreases s.len(),
{
    if s.len() > 0 && is_white_char(s.last()) {
        let t = s.drop_last();
        lemma_trim_end_ws_take(t, i);
        assert(t.take(i) =~= s.take(i));
    } else {
        assert(i == s.len());
        assert(s.take(i) =~= s);
    }
}

/// The leading run of `c` is dropped up to the first other character.
pub proof fn lemma_strip_leading_skip(s: Seq<char>, c: char, i: int)
    requires
        0 <= i <= s.len(),
        forall|j: int| 0 <= j < i ==> s[j] == c,
        i == s.len() || s[i] != c,
    ensures
        strip_leading(s, c) == s.skip(i),
    decreases i,
{
    if i == 0 {
        assert(s.skip(0) =~= s);
    } else {
        let t = s.drop_first();
        lemma_strip_leading_skip(t, c, i - 1);
        assert(t.skip(i - 1) =~= s.skip(i));
    }
}

/// Trimming from the start yields a suffix of `s` whose first character,
/// if any, is not whitespace.
pub proof fn lemma_trim_start_ws_props(s: Seq<char>)
    ensures
        trim_start_ws(s).len() <= s.len(),
        trim_start_ws(s) == s.skip(s.len() - trim_start_ws(s).len()),
        trim_start_ws(s).len() > 0 ==> !is_white_char(trim_start_ws(s)[0]),
        trim_start_ws(s).len() > 0 ==> trim_start_ws(s).last() == s.last(),
    decreases s.len(),
{
    if s.len() > 0 && is_white_char(s[0]) {
        let t = s.drop_first();
        lemma_trim_start_ws_props(t);
        assert(t.skip(t.len() - trim_start_ws(t).len()) =~= s.skip(
            s.len() - trim_start_ws(t).len(),
        ));
        if trim_start_ws(s).len() > 0 {
            assert(t.last() == s.last());
        }
    } else {
        assert(s.skip(0) =~= s);
    }
}

/// Trimming from the end yields a prefix of `s` whose last character, if
/// any, is not whitespace.
pub proof fn lemma_trim_end_ws_props(s: Seq<char>)
    ensures
        trim_end_ws(s).len() <= s.len(),
        trim_end_ws(s) == s.take(trim_end_ws(s).len() as int),
        trim_end_ws(s).len() > 0 ==> !is_white_char(trim_end_ws(s).last()),
        trim_end_ws(s).len() > 0 ==> trim_end_ws(s)[0] == s[0],
    decreases s.len(),
{
    if s.len() > 0 && is_white_char(s.last()) {
        let t = s.drop_last();
        lemma_trim_end_ws_props(t);
        assert(t.take(trim_end_ws(t).len() as int) =~= s.take(trim_end_ws(t).len() as int));
    } else {
        assert(s.take(s.len() as int) =~= s);
    }
}

/// Stripping a leading run yields a suffix of `s` that does not begin
/// with `c`, and keeps the last character.
pub proof fn lemma_strip_leading_props(s: Seq<char>, c: char)
    ensures
        strip_leading(s, c).len() <= s.len(),
        strip_leading(s, c) == s.skip(s.len() - strip_leading(s, c).len()),
        strip_leading(s, c).len() > 0 ==> strip_leading(s, c)[0] != c,
        strip_leading(s, c).len() > 0 ==> strip_leading(s, c).last() == s.last(),
    decreases s.len(),
{
    if s.len() > 0 && s[0] == c {
        let t = s.drop_first();
        lemma_strip_leading_props(t, c);
        assert(t.skip(t.len() - strip_leading(t, c).len()) =~= s.skip(
            s.len() - strip_leading(t, c).len(),
        ));
    } else {
        assert(s.skip(0) =~= s);
    }
}

/// A sequence with no whitespace at either end is unchanged by trimming.
pub proof fn lemma_trim_ws_of_trimmed(t: Seq<char>)
    requires
        t.len() == 0 || (!is_white_char(t[0]) && !is_white_char(t.last())),
    ensures
        trim_ws(t) == t,
{
    if t.len() == 0 {
        assert(trim_start_ws(t) == t);
        assert(trim_end_ws(t) == t);
    } else {
        assert(trim_start_ws(t) == t);
        assert(trim_end_ws(t) == t);
    }
}

/// Trimming is idempotent.
pub proof fn lemma_trim_ws_idempotent(s: Seq<char>)
    ensures
        trim_ws(trim_ws(s)) == trim_ws(s),
{
    let t = trim_ws(s);
    lemma_trim_start_ws_props(s);
    lemma_trim_end_ws_props(trim_start_ws(s));
    if t.len() > 0 {
        assert(!is_white_char(t.last()));
        assert(t[0] == trim_start_ws(s)[0]);
        assert(!is_white_char(t[0]));
    }
    lemma_trim_ws_of_trimmed(t);
}

/// Removes leading and trailing whitespace, as `str::trim` does.
pub fn trim_str(s: &str) -> (r: String)
    ensures
        r@ == trim_ws(s@),
{
    let n = s.unicode_len();
    let mut i: usize = 0;
    while i < n && char_is_white(s.get_char(i))
        invariant
            0 <= i <= n,
            n == s@.len(),
            forall|j: int| 0 <= j < i ==> is_white_char(s@[j]),
        decreases n - i,
    {
        i = i + 1;
    }
    let mut j: usize = n;
    while j > i && char_is_white(s.get_char(j - 1))
        invariant
            i <= j <= n,
            n == s@.len(),
            forall|k: int| j <= k < n ==> is_white_char(s@[k]),
        decreases j,
    {
        j = j - 1;
    }
    proof {
        lemma_trim_start_ws_skip(s@, i as int);
        lemma_trim_end_ws_take(s@.skip(i as int), j - i);
        assert(s@.skip(i as int).take(j - i) =~= s@.subrange(i as int, j as int));
    }
    s.substring_char(i, j).to_owned()
}

/// Removes leading whitespace, as `str::trim_start` does.
pub fn trim_start_str(s: &str) -> (r: String)
    ensures
        r@ == trim_start_ws(s@),
{
    let n = s.unicode_len();
    let mut i: usize = 0;
    while i < n && char_is_white(s.get_char(i))
        invariant
            0 <= i <= n,
            n == s@.len(),
            forall|j: int| 0 <= j < i ==> is_white_char(s@[j]),
        decreases n - i,
    {
        i = i + 1;
    }
    proof {
        lemma_trim_start_ws_skip(s@, i as int);
        assert(s@.skip(i as int) =~= s@.subrange(i as int, n as int));
    }
    s.substring_char(i, n).to_owned()
}

/// Removes the leading run of the character `c`, as
/// `str::trim_start_matches` does for a single-character pattern.
pub fn strip_leading_str(s: &str, c: char) -> (r: String)
    ensures
        r@ == strip_leading(s@, c),
{
    let n = s.unicode_len();
    let mut i: usize = 0;
    while i < n && s.get_char(i) == c
        invariant
            0 <= i <= n,
            n == s@.len(),
            forall|j: int| 0 <= j < i ==> s@[j] == c,
        decreases n - i,
    {
        i = i + 1;
    }
    proof {
        lemma_strip_leading_skip(s@, c, i as int);
        assert(s@.skip(i as int) =~= s@.subrange(i as int, n as int));
    }
    s.substring_char(i, n).to_owned()
}

/// What `str::to_uppercase` returns for the text `s`.
pub uninterp spec fn upper_of(s: Seq<char>) -> Seq<char>;

/// Relies on `str::to_uppercase`: the upper-case form of the text, a
/// function of the characters alone.
#[verifier::external_body]
pub(crate) fn to_upper(s: &str) -> (r: String)
    ensures
        r@ == upper_of(s@),
{
    s.to_uppercase()
}

/// The character `c` repeated `n` times.
pub open spec fn repeat_char(c: char, n: nat) -> Seq<char> {
    Seq::new(n, |i: int| c)
}

/// Builds a string of `n` copies of the single-character `glyph`.
pub fn repeat_glyph(glyph: &str, n: usize) -> (r: String)
    requires
        glyph@.len() == 1,
    ensures
        r@ == repeat_char(glyph@[0], n as nat),
{
    let mut r = String::new();
    let mut i: usize = 0;
    while i < n
        invariant
            0 <= i <= n,
            glyph@.len() == 1,
            r@ == repeat_char(glyph@[0], i as nat),
        decreases n - i,
    {
        r.append(glyph);
        proof {
            assert(r@ =~= repeat_char(glyph@[0], (i + 1) as nat));
        }
        i = i + 1;
    }
    r
}

/// The decimal digit character for `d`.
pub open spec fn digit_char(d: nat) -> char
    recommends
        d < 10,
{
    if d == 0 {
        '0'
    } else if d == 1 {
        '1'
    } else if d == 2 {
        '2'
    } else if d == 3 {
        '3'
    } else if d == 4 {
        '4'
    } else if d == 5 {
        '5'
    } else if d == 6 {
        '6'
    } else if d == 7 {
        '7'
    } else if d == 8 {
        '8'
    } else {
        '9'
    }
}

/// The decimal digits of `n`, most significant first.
pub open spec fn dec_digits(n: nat) -> Seq<char>
    decreases n,
{
    if n < 10 {
        seq![digit_char(n)]
    } else {
        dec_digits(n / 10).push(digit_char(n % 10))
    }
}

/// The one-character string for the digit `d`.
fn digit_str(d: usize) -> (r: &'static str)
    requires
        d < 10,
    ensures
        r@ == seq![digit_char(d as nat)],
{
    proof {
        reveal_strlit("0");
        reveal_strlit("1");
        reveal_strlit("2");
        reveal_strlit("3");
        reveal_strlit("4");
        reveal_strlit("5");
        reveal_strlit("6");
        reveal_strlit("7");
        reveal_strlit("8");
        reveal_strlit("9");
    }
    let r = match d {
        0 => "0",
        1 => "1",
        2 => "2",
        3 => "3",
        4 => "4",
        5 => "5",
        6 => "6",
        7 => "7",
        8 => "8",
        _ => "9",
    };
    proof {
        assert(r@ =~= seq![digit_char(d as nat)]);
    }
    r
}

/// Writes `n` in decimal.
pub fn decimal_string(n: usize) -> (r: String)
    ensures
        r@ == dec_digits(n as nat),
    decreases n,
{
    if n < 10 {
        String::from_str(digit_str(n))
    } else {
        let mut r = decimal_string(n / 10);
        r.append(digit_str(n % 10));
        proof {
            assert(r@ =~= dec_digits(n as nat));
        }
        r
    }
}

/// How many digits `n` has in decimal.
pub proof fn lemma_dec_digits_len(n: nat)
    ensures
        dec_digits(n).len() >= 1,
        n < 10 ==> dec_digits(n).len() == 1,
        10 <= n < 100 ==> dec_digits(n).len() == 2,
        100 <= n ==> dec_digits(n).len() >= 3,
    decreases n,
{
    if n >= 10 {
        lemma_dec_digits_len(n / 10);
    }
}

/// The slide-index label: the decimal form of `n`, left-padded with
/// zeros to at least three characters.
pub open spec fn index_label(n: nat) -> Seq<char> {
    if dec_digits(n).len() >= 3 {
        dec_digits(n)
    } else {
        repeat_char('0', (3 - dec_digits(n).len()) as nat) + dec_digits(n)
    }
}

/// Formats the slide-index label for `n`.
pub fn format_index_label(n: usize) -> (r: String)
    ensures
        r@ == index_label(n as nat),
{
    proof {
        lemma_dec_digits_len(n as nat);
        reveal_strlit("0");
        reveal_strlit("00");
    }
    if n >= 100 {
        decimal_string(n)
    } else if n >= 10 {
        let mut r = String::from_str("0");
        let d = decimal_string(n);
        r.append(d.as_str());
        proof {
            assert(r@ =~= index_label(n as nat));
        }
        r
    } else {
        let mut r = String::from_str("00");
        let d = decimal_string(n);
        r.append(d.as_str());
        proof {
            assert(r@ =~= index_label(n as nat));
        }
        r
    }
}

} // verus!
