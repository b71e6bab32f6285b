use settings_lib::text::{
    i32_to_decimal, is_numeric, parse_i32_or_zero, parse_u64_or_zero, text_is_blank,
    trimmed_byte_len, u64_to_decimal,
};

#[test]
fn numeric_texts() {
    assert!(is_numeric("0123456789"));
    assert!(is_numeric(""));
    assert!(is_numeric("½"));
    assert!(!is_numeric("12a"));
    assert!(!is_numeric("-1"));
    assert!(!is_numeric(" 1"));
    assert!(!is_numeric("+1"));
}

#[test]
fn blank_texts() {
    assert!(text_is_blank(""));
    assert!(text_is_blank(" \t\n\u{3000}"));
    assert!(!text_is_blank(" a "));
}

#[test]
fn trimmed_lengths_count_bytes() {
    assert_eq!(trimmed_byte_len("  ab  "), 2);
    assert_eq!(trimmed_byte_len("é"), 2);
    assert_eq!(trimmed_byte_len(" \u{a0}"), 0);
}

#[test]
fn parsing_with_zero_fallback() {
    assert_eq!(parse_i32_or_zero("42"), 42);
    assert_eq!(parse_i32_or_zero("-7"), -7);
    assert_eq!(parse_i32_or_zero("+7"), 7);
    assert_eq!(parse_i32_or_zero(""), 0);
    assert_eq!(parse_i32_or_zero("-"), 0);
    assert_eq!(parse_i32_or_zero("2147483648"), 0);
    assert_eq!(parse_i32_or_zero("-2147483648"), i32::MIN);
    assert_eq!(parse_u64_or_zero("18446744073709551615"), u64::MAX);
    assert_eq!(parse_u64_or_zero("18446744073709551616"), 0);
    assert_eq!(parse_u64_or_zero("-0"), 0);
    assert_eq!(parse_u64_or_zero("+12"), 12);
    assert_eq!(parse_u64_or_zero("½"), 0);
}

#[test]
fn decimal_texts_match_to_string() {
    for v in [0i32, 7, 10, -1, -10, 123456, i32::MAX, i32::MIN] {
        assert_eq!(i32_to_decimal(v), v.to_string());
        assert_eq!(parse_i32_or_zero(&i32_to_decimal(v)), v);
    }
    for n in [0u64, 9, 10, 99, 100, 1711929600, u64::MAX] {
        assert_eq!(u64_to_decimal(n), n.to_string());
        assert_eq!(parse_u64_or_zero(&u64_to_decimal(n)), n);
    }
}
