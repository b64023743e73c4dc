use yawcli::text::{integer_part, push_decimal, push_natural};

fn decimal(value: i64) -> String {
    let mut out = String::new();
    push_decimal(&mut out, value);
    out
}

#[test]
fn decimal_of_zero() {
    assert_eq!(decimal(0), "0");
}

#[test]
fn decimal_of_single_and_several_digits() {
    assert_eq!(decimal(7), "7");
    assert_eq!(decimal(10), "10");
    assert_eq!(decimal(24), "24");
    assert_eq!(decimal(1000), "1000");
    assert_eq!(decimal(1234567890), "1234567890");
}

#[test]
fn decimal_of_negative_numbers() {
    assert_eq!(decimal(-1), "-1");
    assert_eq!(decimal(-40), "-40");
    assert_eq!(decimal(-97), "-97");
}

#[test]
fn decimal_at_the_ends_of_the_range() {
    assert_eq!(decimal(i64::MAX), "9223372036854775807");
    assert_eq!(decimal(i64::MIN), "-9223372036854775808");
}

#[test]
fn decimal_agrees_with_the_standard_numeral() {
    let mut value: i64 = -1500;
    while value <= 1500 {
        assert_eq!(decimal(value), value.to_string());
        value += 1;
    }
}

#[test]
fn push_natural_appends_to_what_is_there() {
    let mut out = String::from("n=");
    push_natural(&mut out, 0);
    push_natural(&mut out, 47);
    push_natural(&mut out, u64::MAX);
    assert_eq!(out, "n=04718446744073709551615");
}

#[test]
fn push_decimal_appends_to_what_is_there() {
    let mut out = String::from("t:");
    push_decimal(&mut out, -12);
    push_decimal(&mut out, 100);
    assert_eq!(out, "t:-12100");
}

#[test]
fn integer_part_cuts_at_the_decimal_point() {
    assert_eq!(integer_part("39.7456"), "39");
    assert_eq!(integer_part("-97.0892"), "-97");
}

#[test]
fn integer_part_of_empty_text_is_empty() {
    assert_eq!(integer_part(""), "");
}

#[test]
fn integer_part_without_a_point_is_the_whole_text() {
    assert_eq!(integer_part("-97"), "-97");
    assert_eq!(integer_part("abc"), "abc");
}

#[test]
fn integer_part_cuts_at_the_first_of_several_points() {
    assert_eq!(integer_part("1.2.3"), "1");
    assert_eq!(integer_part(".5"), "");
    assert_eq!(integer_part("."), "");
    assert_eq!(integer_part("12."), "12");
}

#[test]
fn integer_part_counts_characters_not_bytes() {
    assert_eq!(integer_part("\u{e9}t\u{e9}.x"), "\u{e9}t\u{e9}");
    assert_eq!(integer_part("\u{b0}"), "\u{b0}");
}
