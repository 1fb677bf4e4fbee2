//! Text primitives used by the record parser: whitespace trimming, decimal
//! integers and `HH:MM:SS` clock times, each with the meaning it has in std
//! or in chrono.

use vstd::prelude::*;

verus! {

/// Characters with the Unicode `White_Space` property, as `char::is_whitespace` defines them.
pub open spec fn is_white(c: char) -> bool {
    ('\u{9}' <= c && c <= '\u{d}') || c == ' ' || c == '\u{85}' || c == '\u{a0}'
        || c == '\u{1680}' || ('\u{2000}' <= c && c <= '\u{200a}') || c == '\u{2028}'
        || c == '\u{2029}' || c == '\u{202f}' || c == '\u{205f}' || c == '\u{3000}'
}

/// `s` without its leading whitespace.
pub open spec fn trim_start_ws(s: Seq<char>) -> Seq<char>
    decreases s.len(),
{
    if s.len() > 0 && is_white(s[0]) {
        trim_start_ws(s.drop_first())
    } else {
        s
    }
}

/// `s` without its trailing whitespace.
pub open spec fn trim_end_ws(s: Seq<char>) -> Seq<char>
    decreases s.len(),
{
    if s.len() > 0 && is_white(s.last()) {
        trim_end_ws(s.drop_last())
    } else {
        s
    }
}

/// `s` without leading and trailing whitespace.
pub open spec fn trim_ws(s: Seq<char>) -> Seq<char> {
    trim_end_ws(trim_start_ws(s))
}

pub open spec fn is_ascii_digit(c: char) -> bool {
    '0' <= c && c <= '9'
}

/// The value of a non-empty run of ASCII digits, most significant first.
pub open spec fn digits_value(d: Seq<char>) -> int
    decreases d.len(),
{
    if d.len() == 0 {
        0
    } else {
        digits_value(d.drop_last()) * 10 + (d.last() as int - '0' as int)
    }
}

pub open spec fn all_digits(d: Seq<char>) -> bool {
    d.len() > 0 && forall|i: int| 0 <= i < d.len() ==> #[trigger] is_ascii_digit(d[i])
}

/// The integer written in `s`: an optional `+` or `-` followed by one or more
/// ASCII digits, and nothing else.
pub open spec fn decimal_value(s: Seq<char>) -> Option<int> {
    if s.len() > 0 && s[0] == '-' && all_digits(s.drop_first()) {
        Some(-digits_value(s.drop_first()))
    } else if s.len() > 0 && s[0] == '+' && all_digits(s.drop_first()) {
        Some(digits_value(s.drop_first()))
    } else if all_digits(s) {
        Some(digits_value(s))
    } else {
        None
    }
}

/// Whether `s` is exactly `HH:MM:SS` with two digits each and an hour, minute
/// and second in range.
pub open spec fn is_canonical_clock(s: Seq<char>) -> bool {
    &&& s.len() == 8
    &&& s[2] == ':' && s[5] == ':'
    &&& all_digits(s.subrange(0, 2)) && all_digits(s.subrange(3, 5)) && all_digits(s.subrange(6, 8))
    &&& digits_value(s.subrange(0, 2)) < 24
    &&& digits_value(s.subrange(3, 5)) < 60
    &&& digits_value(s.subrange(6, 8)) < 60
}

/// Seconds since midnight of a canonical `HH:MM:SS` text.
pub open spec fn canonical_clock_seconds(s: Seq<char>) -> int {
    digits_value(s.subrange(0, 2)) * 3600 + digits_value(s.subrange(3, 5)) * 60
        + digits_value(s.subrange(6, 8))
}

/// A run of ASCII digits has a non-negative value.
pub proof fn lemma_digits_value_nonneg(d: Seq<char>)
    requires
        forall|i: int| 0 <= i < d.len() ==> #[trigger] is_ascii_digit(d[i]),
    ensures
        digits_value(d) >= 0,
    decreases d.len(),
{
    if d.len() > 0 {
        assert(is_ascii_digit(d[d.len() - 1]));
        lemma_digits_value_nonneg(d.drop_last());
    }
}

/// A canonical `HH:MM:SS` text stands for a second within one day.
pub proof fn lemma_canonical_clock_in_day(s: Seq<char>)
    requires
        is_canonical_clock(s),
    ensures
        0 <= canonical_clock_seconds(s) < 86400,
{
    lemma_digits_value_nonneg(s.subrange(0, 2));
    lemma_digits_value_nonneg(s.subrange(3, 5));
    lemma_digits_value_nonneg(s.subrange(6, 8));
}

/// What chrono's `NaiveTime::parse_from_str(s, "%H:%M:%S")` followed by
/// `num_seconds_from_midnight` gives for the text `s`, or `None` where it refuses it.
pub uninterp spec fn clock_seconds(s: Seq<char>) -> Option<u32>;

/// Relies on `str::trim`: it removes leading and trailing `White_Space` characters.
#[verifier::external_body]
pub(crate) fn trim(s: &str) -> (r: &str)
    ensures
        r@ == trim_ws(s@),
{
    s.trim()
}

/// Relies on `<i32 as FromStr>::from_str`: an optional sign and ASCII digits,
/// refused when the value does not fit.
#[verifier::external_body]
pub(crate) fn parse_i32(s: &str) -> (r: Option<i32>)
    ensures
        r.is_some() <==> (decimal_value(s@) matches Some(v) && i32::MIN <= v <= i32::MAX),
        r matches Some(v) ==> decimal_value(s@) == Some(v as int),
{
    s.parse::<i32>().ok()
}

/// Relies on `<i16 as FromStr>::from_str`: an optional sign and ASCII digits,
/// refused when the value does not fit.
#[verifier::external_body]
pub(crate) fn parse_i16(s: &str) -> (r: Option<i16>)
    ensures
        r.is_some() <==> (decimal_value(s@) matches Some(v) && i16::MIN <= v <= i16::MAX),
        r matches Some(v) ==> decimal_value(s@) == Some(v as int),
{
    s.parse::<i16>().ok()
}

/// Relies on chrono's `NaiveTime::parse_from_str` with the format `%H:%M:%S`
/// and on `Timelike::num_seconds_from_midnight`: a time it accepts lies within
/// one day, and a canonical `HH:MM:SS` text gives its seconds since midnight.
#[verifier::external_body]
pub(crate) fn parse_clock(s: &str) -> (r: Option<u32>)
    ensures
        r == clock_seconds(s@),
        r matches Some(v) ==> v < 86400,
        is_canonical_clock(s@) ==> r == Some(canonical_clock_seconds(s@) as u32),
{
    chrono::NaiveTime::parse_from_str(s, "%H:%M:%S").ok().map(
        |t| chrono::Timelike::num_seconds_from_midnight(&t),
    )
}

} // verus!
