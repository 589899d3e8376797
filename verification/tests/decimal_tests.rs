use bracket_stats::decimal::{decimal_string, parse_i32};

#[test]
fn decimal_of_zero_and_small_numbers() {
    assert_eq!(decimal_string(0), "0");
    assert_eq!(decimal_string(7), "7");
    assert_eq!(decimal_string(42), "42");
    assert_eq!(decimal_string(-42), "-42");
    assert_eq!(decimal_string(1000), "1000");
}

#[test]
fn decimal_of_extremes() {
    assert_eq!(decimal_string(i32::MAX), "2147483647");
    assert_eq!(decimal_string(i32::MIN), "-2147483648");
}

#[test]
fn decimal_matches_display() {
    for n in [-1000000, -99, -10, -1, 0, 1, 9, 10, 99, 100, 123456789] {
        assert_eq!(decimal_string(n), format!("{}", n));
    }
}

#[test]
fn parse_accepts_signed_digits() {
    assert_eq!(parse_i32("5"), Some(5));
    assert_eq!(parse_i32("+5"), Some(5));
    assert_eq!(parse_i32("-5"), Some(-5));
    assert_eq!(parse_i32("007"), Some(7));
    assert_eq!(parse_i32("2147483647"), Some(i32::MAX));
    assert_eq!(parse_i32("-2147483648"), Some(i32::MIN));
}

#[test]
fn parse_rejects_other_text() {
    assert_eq!(parse_i32(""), None);
    assert_eq!(parse_i32("-"), None);
    assert_eq!(parse_i32("+"), None);
    assert_eq!(parse_i32("12a"), None);
    assert_eq!(parse_i32(" 1"), None);
    assert_eq!(parse_i32("1 "), None);
    assert_eq!(parse_i32("--1"), None);
    assert_eq!(parse_i32("2147483648"), None);
    assert_eq!(parse_i32("-2147483649"), None);
    assert_eq!(parse_i32("99999999999999999999"), None);
    assert_eq!(parse_i32("١٢"), None);
}

#[test]
fn parse_agrees_with_std() {
    for s in ["0", "+0", "-0", "12", "-12", "x", "", "2147483648", "-2147483648", "+-1", "1_000"] {
        assert_eq!(parse_i32(s), s.parse::<i32>().ok(), "{}", s);
    }
}

#[test]
fn decimal_reads_back() {
    for n in [i32::MIN, -123, -1, 0, 1, 45, 2024, i32::MAX] {
        assert_eq!(parse_i32(&decimal_string(n)), Some(n));
    }
}

#[test]
fn different_numbers_have_different_texts() {
    let texts: Vec<String> = [-12, -21, 12, 21, 0, 120, 102].iter().map(|n| decimal_string(*n)).collect();
    for i in 0..texts.len() {
        for j in 0..texts.len() {
            assert_eq!(i == j, texts[i] == texts[j]);
        }
    }
}
