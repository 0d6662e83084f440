use farming_sacco_backend::decimal::{format_id, parse_id};

#[test]
fn parses_plain_digits() {
    assert_eq!(parse_id("0"), Some(0));
    assert_eq!(parse_id("5"), Some(5));
    assert_eq!(parse_id("999"), Some(999));
    assert_eq!(parse_id("0007"), Some(7));
}

#[test]
fn parses_a_leading_plus_sign() {
    assert_eq!(parse_id("+42"), Some(42));
}

#[test]
fn parses_the_largest_identifier() {
    assert_eq!(parse_id("18446744073709551615"), Some(u64::MAX));
}

#[test]
fn refuses_a_value_beyond_64_bits() {
    assert_eq!(parse_id("18446744073709551616"), None);
    assert_eq!(parse_id("99999999999999999999999"), None);
}

#[test]
fn refuses_what_is_not_a_number() {
    assert_eq!(parse_id(""), None);
    assert_eq!(parse_id("+"), None);
    assert_eq!(parse_id("-1"), None);
    assert_eq!(parse_id("abc"), None);
    assert_eq!(parse_id("12a"), None);
    assert_eq!(parse_id(" 12"), None);
    assert_eq!(parse_id("12 "), None);
    assert_eq!(parse_id("1_000"), None);
    assert_eq!(parse_id("++1"), None);
    assert_eq!(parse_id("\u{0661}\u{0662}"), None);
}

#[test]
fn parse_agrees_with_the_standard_library() {
    let samples = [
        "", "+", "-", "0", "+0", "-0", "007", "42", "+42", "4 2", "1e3", "0x10",
        "18446744073709551615", "18446744073709551616", "+18446744073709551615", "\u{00e9}",
    ];
    for text in samples {
        assert_eq!(parse_id(text), text.parse::<u64>().ok(), "on {:?}", text);
    }
}

#[test]
fn formats_without_sign_or_padding() {
    assert_eq!(format_id(0), "0");
    assert_eq!(format_id(7), "7");
    assert_eq!(format_id(10), "10");
    assert_eq!(format_id(1234567890), "1234567890");
    assert_eq!(format_id(u64::MAX), "18446744073709551615");
}

#[test]
fn format_then_parse_gives_the_number_back() {
    for n in [0u64, 1, 9, 10, 99, 100, 65535, 1 << 40, u64::MAX - 1, u64::MAX] {
        assert_eq!(parse_id(&format_id(n)), Some(n));
    }
}
