use ixcalc::parse::{convert_operands, parse_i32, IntParseKind, OperandParseError};

#[test]
fn empty_batch_fails_with_empty_input() {
    let toks: Vec<String> = vec![];
    assert_eq!(convert_operands(&toks), Err(OperandParseError::EmptyInput));
}

#[test]
fn bad_token_fails_referencing_its_position() {
    let toks: Vec<String> = vec!["3".to_string(), "x".to_string(), "5".to_string()];
    assert_eq!(
        convert_operands(&toks),
        Err(OperandParseError::ParseError { index: 1, kind: IntParseKind::InvalidDigit })
    );
}

#[test]
fn well_formed_batch_parses_in_order() {
    let toks: Vec<String> = vec!["3".to_string(), "-5".to_string(), "7".to_string()];
    assert_eq!(convert_operands(&toks), Ok(vec![3, -5, 7]));
}

#[test]
fn first_bad_token_decides() {
    let toks: Vec<String> = vec!["1".to_string(), "".to_string(), "y".to_string()];
    assert_eq!(
        convert_operands(&toks),
        Err(OperandParseError::ParseError { index: 1, kind: IntParseKind::Empty })
    );
}

#[test]
fn parse_accepts_signs_and_bounds() {
    assert_eq!(parse_i32("0"), Ok(0));
    assert_eq!(parse_i32("+7"), Ok(7));
    assert_eq!(parse_i32("-0"), Ok(0));
    assert_eq!(parse_i32("007"), Ok(7));
    assert_eq!(parse_i32("2147483647"), Ok(i32::MAX));
    assert_eq!(parse_i32("-2147483648"), Ok(i32::MIN));
}

#[test]
fn parse_rejects_empty_token() {
    assert_eq!(parse_i32(""), Err(IntParseKind::Empty));
}

#[test]
fn parse_rejects_sign_without_digits() {
    assert_eq!(parse_i32("+"), Err(IntParseKind::InvalidDigit));
    assert_eq!(parse_i32("-"), Err(IntParseKind::InvalidDigit));
}

#[test]
fn parse_rejects_stray_characters() {
    assert_eq!(parse_i32("12x"), Err(IntParseKind::InvalidDigit));
    assert_eq!(parse_i32(" 1"), Err(IntParseKind::InvalidDigit));
    assert_eq!(parse_i32("1 "), Err(IntParseKind::InvalidDigit));
    assert_eq!(parse_i32("--1"), Err(IntParseKind::InvalidDigit));
}

#[test]
fn parse_reports_the_crossed_bound() {
    assert_eq!(parse_i32("2147483648"), Err(IntParseKind::PosOverflow));
    assert_eq!(parse_i32("-2147483649"), Err(IntParseKind::NegOverflow));
}

#[test]
fn overflow_is_noticed_before_a_later_bad_character() {
    assert_eq!(
        parse_i32("99999999999999999999x"),
        Err(IntParseKind::PosOverflow)
    );
}
