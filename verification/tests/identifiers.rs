use thoughts::entity::{validate_title, Invalidity, MAX_TITLE_LEN};
use thoughts::id::{parse_id, AreaOfLifeId, ThoughtId};

#[test]
fn parses_plain_decimal_text() {
    assert_eq!(parse_id("1"), Some(1));
    assert_eq!(parse_id("42"), Some(42));
    assert_eq!(parse_id("007"), Some(7));
    assert_eq!(parse_id("1234567890"), Some(1234567890));
}

#[test]
fn refuses_text_that_is_not_a_number() {
    assert_eq!(parse_id(""), None);
    assert_eq!(parse_id("invalid-id"), None);
    assert_eq!(parse_id("12a"), None);
    assert_eq!(parse_id(" 1"), None);
    assert_eq!(parse_id("1.0"), None);
    assert_eq!(parse_id("٣"), None);
}

#[test]
fn refuses_zero_and_negative_numbers() {
    assert_eq!(parse_id("0"), None);
    assert_eq!(parse_id("000"), None);
    assert_eq!(parse_id("-1"), None);
    assert_eq!(parse_id("-0"), None);
}

#[test]
fn accepts_the_largest_number_and_nothing_above() {
    assert_eq!(parse_id("18446744073709551615"), Some(u64::MAX));
    assert_eq!(parse_id("18446744073709551616"), None);
    assert_eq!(parse_id("99999999999999999999999"), None);
    assert_eq!(parse_id("18446744073709551615x"), None);
}

#[test]
fn typed_identifiers_wrap_the_number() {
    assert_eq!(ThoughtId::parse("12"), Some(ThoughtId { value: 12 }));
    assert_eq!(ThoughtId::parse("0"), None);
    assert_eq!(AreaOfLifeId::parse("3"), Some(AreaOfLifeId { value: 3 }));
    assert_eq!(AreaOfLifeId::parse("-3"), None);
    assert_eq!(ThoughtId::new(0), None);
    assert_eq!(ThoughtId::new(5).unwrap().to_u64(), 5);
    assert_eq!(AreaOfLifeId::new(0), None);
    assert_eq!(AreaOfLifeId::new(9).unwrap().to_u64(), 9);
}

#[test]
fn title_rule() {
    assert_eq!(validate_title(""), Err(Invalidity::Empty));
    assert_eq!(validate_title("a"), Ok(()));
    let longest = "x".repeat(MAX_TITLE_LEN);
    assert_eq!(validate_title(&longest), Ok(()));
    let too_long = "x".repeat(MAX_TITLE_LEN + 1);
    assert_eq!(validate_title(&too_long), Err(Invalidity::TooLong { max: 80, actual: 81 }));
}

#[test]
fn title_length_counts_characters() {
    let eighty = "é".repeat(80);
    assert_eq!(validate_title(&eighty), Ok(()));
}
