//! Punches and the fixed-width record line they are read from.

use vstd::prelude::*;
use vstd::string::StringSliceAdditionalSpecFns;
use vstd::utf8::{decode_utf8, is_char_boundary};

use crate::text::{
    canonical_clock_seconds, clock_seconds, decimal_value, is_canonical_clock, parse_clock, parse_i16, parse_i32, trim, trim_ws};

verus! {

broadcast use {
    vstd::utf8::encode_utf8_valid_utf8,
    vstd::utf8::encode_utf8_decode_utf8,
    vstd::utf8::is_char_boundary_iff_not_is_continuation_byte,
};

/// How a punch was received. Serialised by name, so new kinds can be added.
#[derive(PartialEq, Eq, Structural, Clone, Copy, Debug)]
pub enum Channel {
    BLUE,
}

/// One timing observation: a card seen at a control, at a time of day.
#[derive(PartialEq, Eq, Structural, Clone, Copy, Debug)]
pub struct Punch {
    pub channel: Channel,
    pub code: i16,
    pub card: i32,
    /// Seconds since midnight.
    pub time: u32,
}

/// The body of one delivery: the device token and every pending punch.
#[derive(Clone, Debug)]
pub struct PunchesRequest {
    pub api_token: String,
    pub records: Vec<Punch>,
}

/// The field of a record line that could not be read.
#[derive(PartialEq, Eq, Structural, Clone, Copy, Debug)]
pub enum Field {
    Card,
    Code,
    Time,
}

/// Why a record line was refused: the field, and its raw text (the whole
/// line where the field could not even be cut out of it).
#[derive(Clone, Debug)]
pub struct ParseError {
    pub field: Field,
    pub raw: String,
}

/// Lines shorter than this many bytes are not complete records yet.
pub const MIN_RECORD_WIDTH: usize = 24;

pub const CARD_START: usize = 0;
pub const CARD_END: usize = 8;
pub const CODE_START: usize = 9;
pub const CODE_END: usize = 13;
pub const TIME_START: usize = 14;
pub const TIME_END: usize = 22;

/// Whether a line, given by its UTF-8 bytes, is long enough to be a record.
pub open spec fn is_complete(b: Seq<u8>) -> bool {
    b.len() >= MIN_RECORD_WIDTH
}

/// Byte offsets `[lo, hi)` of a field.
pub open spec fn span(f: Field) -> (int, int) {
    match f {
        Field::Card => (CARD_START as int, CARD_END as int),
        Field::Code => (CODE_START as int, CODE_END as int),
        Field::Time => (TIME_START as int, TIME_END as int),
    }
}

/// Whether bytes `[lo, hi)` of the line lie inside it on character boundaries.
pub open spec fn can_cut(b: Seq<u8>, lo: int, hi: int) -> bool {
    is_char_boundary(b, lo) && is_char_boundary(b, hi)
}

/// The text of bytes `[lo, hi)` of the line.
pub open spec fn field_text(b: Seq<u8>, lo: int, hi: int) -> Seq<char> {
    decode_utf8(b.subrange(lo, hi))
}

/// The trimmed text of a field that can be cut.
pub open spec fn field_value_text(b: Seq<u8>, f: Field) -> Seq<char> {
    trim_ws(field_text(b, span(f).0, span(f).1))
}

/// Whether the field can be cut out and its trimmed text read as its type.
pub open spec fn field_readable(b: Seq<u8>, f: Field) -> bool {
    can_cut(b, span(f).0, span(f).1) && match f {
        Field::Card => decimal_value(field_value_text(b, f)) matches Some(v) && i32::MIN <= v
            <= i32::MAX,
        Field::Code => decimal_value(field_value_text(b, f)) matches Some(v) && i16::MIN <= v
            <= i16::MAX,
        Field::Time => clock_seconds(field_value_text(b, f)) is Some,
    }
}

/// The punch a record line stands for, or the first field (card, code, time)
/// that cannot be read.
pub open spec fn parse_spec(b: Seq<u8>) -> Result<Punch, Field> {
    if !field_readable(b, Field::Card) {
        Err(Field::Card)
    } else if !field_readable(b, Field::Code) {
        Err(Field::Code)
    } else if !field_readable(b, Field::Time) {
        Err(Field::Time)
    } else {
        Ok(
            Punch {
                channel: Channel::BLUE,
                code: decimal_value(field_value_text(b, Field::Code))->Some_0 as i16,
                card: decimal_value(field_value_text(b, Field::Card))->Some_0 as i32,
                time: clock_seconds(field_value_text(b, Field::Time))->Some_0,
            },
        )
    }
}

/// Whether the time field can be cut out and its trimmed text is a canonical
/// `HH:MM:SS` time of day.
pub open spec fn canonical_time(b: Seq<u8>) -> bool {
    can_cut(b, TIME_START as int, TIME_END as int) && is_canonical_clock(
        field_value_text(b, Field::Time),
    )
}

/// The raw text reported for a field that cannot be read.
pub open spec fn raw_text(b: Seq<u8>, line: Seq<char>, f: Field) -> Seq<char> {
    if can_cut(b, span(f).0, span(f).1) {
        field_text(b, span(f).0, span(f).1)
    } else {
        line
    }
}

/// Bytes `[lo, hi)` of the line as text, where they lie on character boundaries.
fn cut_field<'a>(line: &'a str, lo: usize, hi: usize) -> (r: Option<&'a str>)
    requires
        lo < hi,
    ensures
        r.is_some() <==> can_cut(line.spec_bytes(), lo as int, hi as int),
        r matches Some(f) ==> f@ == field_text(line.spec_bytes(), lo as int, hi as int),
{
    if !(line.is_char_boundary(lo) && line.is_char_boundary(hi)) {
        return None;
    }
    let ghost b = line.spec_bytes();
    let (pre, _) = line.split_at(hi);
    proof {
        if lo > 0 {
            vstd::utf8::encode_utf8_valid_utf8(line@);
            vstd::utf8::encode_utf8_valid_utf8(pre@);
            assert(hi <= b.len());
            assert(pre.spec_bytes()[lo as int] == b[lo as int]);
            vstd::utf8::is_char_boundary_iff_not_is_continuation_byte(b, lo as int);
            vstd::utf8::is_char_boundary_iff_not_is_continuation_byte(pre.spec_bytes(), lo as int);
        }
    }
    let (_, f) = pre.split_at(lo);
    proof {
        assert(f.spec_bytes() =~= b.subrange(lo as int, hi as int));
    }
    Some(f)
}

impl Punch {
    /// Reads a record line: card number at bytes `[0, 8)`, control code at
    /// `[9, 13)` and `HH:MM:SS` time at `[14, 22)`, each field trimmed of
    /// whitespace before it is read.
    pub fn parse(line: &str) -> (r: Result<Punch, ParseError>)
        ensures
            r matches Ok(p) ==> parse_spec(line.spec_bytes()) == Ok::<Punch, Field>(p),
            r matches Err(e) ==> parse_spec(line.spec_bytes()) == Err::<Punch, Field>(e.field)
                && e.raw@ == raw_text(line.spec_bytes(), line@, e.field),
            r matches Ok(p) ==> p.time < 86400,
            canonical_time(line.spec_bytes()) && field_readable(line.spec_bytes(), Field::Card)
                && field_readable(line.spec_bytes(), Field::Code) ==> (r matches Ok(p) && p.time
                == canonical_clock_seconds(field_value_text(line.spec_bytes(), Field::Time))),
    {
        let card = match Self::read_field(line, Field::Card) {
            Ok(v) => v as i32,
            Err(e) => return Err(e),
        };
        let code = match Self::read_field(line, Field::Code) {
            Ok(v) => v as i16,
            Err(e) => return Err(e),
        };
        let time = match Self::read_field(line, Field::Time) {
            Ok(v) => v as u32,
            Err(e) => return Err(e),
        };
        proof {
            if canonical_time(line.spec_bytes()) {
                crate::text::lemma_canonical_clock_in_day(
                    field_value_text(line.spec_bytes(), Field::Time),
                );
            }
        }
        Ok(Punch { channel: Channel::BLUE, code, card, time })
    }

    /// Reads one field of a record line, as its value widened to `i64`.
    fn read_field(line: &str, f: Field) -> (r: Result<i64, ParseError>)
        ensures
            r is Ok <==> field_readable(line.spec_bytes(), f),
            r matches Ok(v) ==> match f {
                Field::Card => decimal_value(field_value_text(line.spec_bytes(), f)) == Some(
                    v as int,
                ) && i32::MIN <= v <= i32::MAX,
                Field::Code => decimal_value(field_value_text(line.spec_bytes(), f)) == Some(
                    v as int,
                ) && i16::MIN <= v <= i16::MAX,
                Field::Time => clock_seconds(field_value_text(line.spec_bytes(), f)) matches Some(
                    t,
                ) && v == t as int,
            },
            r matches Err(e) ==> e.field == f && e.raw@ == raw_text(line.spec_bytes(), line@, f),
            f == Field::Time ==> (r matches Ok(v) ==> 0 <= v < 86400),
            f == Field::Time && canonical_time(line.spec_bytes()) ==> r == Ok::<i64, ParseError>(
                canonical_clock_seconds(field_value_text(line.spec_bytes(), Field::Time)) as i64,
            ),
    {
        let (lo, hi) = match f {
            Field::Card => (CARD_START, CARD_END),
            Field::Code => (CODE_START, CODE_END),
            Field::Time => (TIME_START, TIME_END),
        };
        let text = match cut_field(line, lo, hi) {
            Some(t) => t,
            None => return Err(ParseError { field: f, raw: line.to_owned() }),
        };
        let value = trim(text);
        proof {
            if is_canonical_clock(value@) {
                crate::text::lemma_canonical_clock_in_day(value@);
            }
        }
        let read: Option<i64> = match f {
            Field::Card => match parse_i32(value) {
                Some(v) => Some(v as i64),
                None => None,
            },
            Field::Code => match parse_i16(value) {
                Some(v) => Some(v as i64),
                None => None,
            },
            Field::Time => match parse_clock(value) {
                Some(v) => Some(v as i64),
                None => None,
            },
        };
        match read {
            Some(v) => Ok(v),
            None => Err(ParseError { field: f, raw: text.to_owned() }),
        }
    }
}

impl std::str::FromStr for Punch {
    type Err = ParseError;

    fn from_str(s: &str) -> (r: Result<Punch, ParseError>)
        ensures
            r matches Ok(p) ==> parse_spec(s.spec_bytes()) == Ok::<Punch, Field>(p),
            r matches Err(e) ==> parse_spec(s.spec_bytes()) == Err::<Punch, Field>(e.field)
                && e.raw@ == raw_text(s.spec_bytes(), s@, e.field),
            r matches Ok(p) ==> p.time < 86400,
            canonical_time(s.spec_bytes()) && field_readable(s.spec_bytes(), Field::Card)
                && field_readable(s.spec_bytes(), Field::Code) ==> (r matches Ok(p) && p.time
                == canonical_clock_seconds(field_value_text(s.spec_bytes(), Field::Time))),
    {
        Punch::parse(s)
    }
}

} // verus!
