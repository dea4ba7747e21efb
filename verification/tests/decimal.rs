use bridge_daemon::decimal::{parse_id, to_decimal};

#[test]
fn numbers_are_written_without_sign_or_leading_zeros() {
    assert_eq!(to_decimal(0), "0");
    assert_eq!(to_decimal(7), "7");
    assert_eq!(to_decimal(10), "10");
    assert_eq!(to_decimal(1700000000), "1700000000");
    assert_eq!(to_decimal(4294967295), "4294967295");
    assert_eq!(to_decimal(u64::MAX), "18446744073709551615");
}

#[test]
fn writing_agrees_with_the_standard_library() {
    for n in [0u64, 1, 9, 10, 11, 99, 100, 101, 12345, 4294967296, u64::MAX - 1] {
        assert_eq!(to_decimal(n), format!("{}", n));
    }
}

#[test]
fn ids_are_read_from_digits() {
    assert_eq!(parse_id("0"), Some(0));
    assert_eq!(parse_id("7"), Some(7));
    assert_eq!(parse_id("42"), Some(42));
    assert_eq!(parse_id("4294967295"), Some(u32::MAX));
}

#[test]
fn a_plus_sign_and_leading_zeros_are_accepted() {
    assert_eq!(parse_id("+5"), Some(5));
    assert_eq!(parse_id("007"), Some(7));
    assert_eq!(parse_id("+000"), Some(0));
    assert_eq!(parse_id("00000000000000000000004294967295"), Some(u32::MAX));
}

#[test]
fn anything_else_is_no_id() {
    assert_eq!(parse_id(""), None);
    assert_eq!(parse_id("+"), None);
    assert_eq!(parse_id("-1"), None);
    assert_eq!(parse_id("-0"), None);
    assert_eq!(parse_id("++1"), None);
    assert_eq!(parse_id("1+"), None);
    assert_eq!(parse_id(" 1"), None);
    assert_eq!(parse_id("1 "), None);
    assert_eq!(parse_id("1_000"), None);
    assert_eq!(parse_id("0x10"), None);
    assert_eq!(parse_id("12a"), None);
    assert_eq!(parse_id("one"), None);
    assert_eq!(parse_id("١٢"), None);
}

#[test]
fn a_number_above_the_largest_id_is_no_id() {
    assert_eq!(parse_id("4294967296"), None);
    assert_eq!(parse_id("99999999999999999999999999"), None);
    assert_eq!(parse_id("+4294967296"), None);
}

#[test]
fn reading_agrees_with_the_standard_library() {
    for text in [
        "", "+", "-", "0", "+0", "-0", "1", "01", "+12", "12+", "4294967295", "4294967296",
        "42949672950", " 3", "3 ", "a", "1a", "１",
    ] {
        assert_eq!(parse_id(text), text.parse::<u32>().ok(), "{:?}", text);
    }
}

#[test]
fn an_id_that_was_written_is_read_back() {
    for id in [0u32, 1, 9, 10, 255, 65536, u32::MAX - 1, u32::MAX] {
        assert_eq!(parse_id(&to_decimal(id as u64)), Some(id));
    }
}
