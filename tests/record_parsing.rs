use std::str::FromStr;

use punch_feeder::{Channel, Field, Punch};

#[test]
fn parses_well_formed_record() {
    let line = "12345    0042 10:30:15 0\n";
    let p = Punch::parse(line).unwrap();
    assert_eq!(p.channel, Channel::BLUE);
    assert_eq!(p.code, 42);
    assert_eq!(p.card, 12345);
    assert_eq!(p.time, 37815);
}

#[test]
fn from_str_matches_parse() {
    let p = Punch::from_str("   77001  121 23:59:59 9").unwrap();
    assert_eq!(p.card, 77001);
    assert_eq!(p.code, 121);
    assert_eq!(p.time, 86399);
}

#[test]
fn fields_are_read_at_fixed_offsets() {
    // The card, code and time fields sit at bytes [0, 8), [9, 13), [14, 22):
    // this text is cut as "12345   ", "042 " and "0:30:15 ".
    let p = Punch::parse("12345   0042 10:30:15 ").unwrap();
    assert_eq!(p.card, 12345);
    assert_eq!(p.code, 42);
    assert_eq!(p.time, 1815);
}

#[test]
fn midnight_and_signs() {
    let p = Punch::parse("-0000001 +007 00:00:00  ").unwrap();
    assert_eq!(p.card, -1);
    assert_eq!(p.code, 7);
    assert_eq!(p.time, 0);
}

#[test]
fn non_numeric_card_is_refused() {
    let e = Punch::parse("12a45    0042 10:30:15 0").unwrap_err();
    assert_eq!(e.field, Field::Card);
    assert_eq!(e.raw, "12a45   ");
}

#[test]
fn non_numeric_code_is_refused() {
    let e = Punch::parse("12345    4x   10:30:15 0").unwrap_err();
    assert_eq!(e.field, Field::Code);
    assert_eq!(e.raw, "4x  ");
    let e = Punch::parse("12345         10:30:15 0").unwrap_err();
    assert_eq!(e.field, Field::Code);
    assert_eq!(e.raw, "    ");
    let e = Punch::parse("12345    -    10:30:15 0").unwrap_err();
    assert_eq!(e.field, Field::Code);
    assert_eq!(e.raw, "-   ");
}

#[test]
fn eight_digit_cards_fit() {
    assert_eq!(Punch::parse("99999999 0042 10:30:15 0").unwrap().card, 99999999);
    assert_eq!(Punch::parse("-9999999 0042 10:30:15 0").unwrap().card, -9999999);
}

#[test]
fn malformed_time_is_refused() {
    let e = Punch::parse("12345    0042 25:30:15 0").unwrap_err();
    assert_eq!(e.field, Field::Time);
    assert_eq!(e.raw, "25:30:15");
    let e = Punch::parse("12345    0042 10-30-15 0").unwrap_err();
    assert_eq!(e.field, Field::Time);
    assert_eq!(e.raw, "10-30-15");
}

#[test]
fn first_failing_field_is_reported() {
    let e = Punch::parse("xxxxxxxx yyyy zz:zz:zz  ").unwrap_err();
    assert_eq!(e.field, Field::Card);
    let e = Punch::parse("1        yyyy zz:zz:zz  ").unwrap_err();
    assert_eq!(e.field, Field::Code);
}

#[test]
fn field_cut_inside_a_character_is_refused() {
    // "é" takes bytes 7 and 8, so the card field cannot end at byte 8.
    let line = "1234567\u{e9}0042 10:30:15 0";
    let e = Punch::parse(line).unwrap_err();
    assert_eq!(e.field, Field::Card);
    assert_eq!(e.raw, line);
}

#[test]
fn short_text_is_refused_not_panicking() {
    let e = Punch::parse("12345").unwrap_err();
    assert_eq!(e.field, Field::Card);
    assert_eq!(e.raw, "12345");
}
