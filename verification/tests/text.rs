use marcia_assistant::utils::text::{
    decimal_len, magnitude_of, push_decimal, push_padded_decimal, push_signed_decimal,
};

fn decimal_of(n: u64) -> String {
    let mut out = String::new();
    push_decimal(&mut out, n);
    out
}

fn signed_of(n: i64) -> String {
    let mut out = String::new();
    push_signed_decimal(&mut out, n);
    out
}

fn padded_of(n: i64, width: usize) -> String {
    let mut out = String::new();
    push_padded_decimal(&mut out, n, width);
    out
}

#[test]
fn decimal_of_small_and_large_numbers() {
    assert_eq!(decimal_of(0), "0");
    assert_eq!(decimal_of(7), "7");
    assert_eq!(decimal_of(10), "10");
    assert_eq!(decimal_of(31), "31");
    assert_eq!(decimal_of(1234567890), "1234567890");
    assert_eq!(decimal_of(u64::MAX), "18446744073709551615");
}

#[test]
fn decimal_is_appended_to_what_is_there() {
    let mut out = String::from("dia ");
    push_decimal(&mut out, 42);
    assert_eq!(out, "dia 42");
}

#[test]
fn decimal_agrees_with_std_formatting() {
    for n in [0u64, 1, 9, 10, 11, 99, 100, 101, 999, 1000, 65535, 4294967295] {
        assert_eq!(decimal_of(n), format!("{}", n));
    }
}

#[test]
fn decimal_len_counts_digits() {
    assert_eq!(decimal_len(0), 1);
    assert_eq!(decimal_len(9), 1);
    assert_eq!(decimal_len(10), 2);
    assert_eq!(decimal_len(99), 2);
    assert_eq!(decimal_len(100), 3);
    assert_eq!(decimal_len(u64::MAX), 20);
}

#[test]
fn magnitude_of_both_signs_and_the_extremes() {
    assert_eq!(magnitude_of(0), 0);
    assert_eq!(magnitude_of(5), 5);
    assert_eq!(magnitude_of(-5), 5);
    assert_eq!(magnitude_of(i64::MAX), 9223372036854775807);
    assert_eq!(magnitude_of(i64::MIN), 9223372036854775808);
}

#[test]
fn signed_decimal_puts_the_minus_first() {
    assert_eq!(signed_of(0), "0");
    assert_eq!(signed_of(30), "30");
    assert_eq!(signed_of(-18), "-18");
    assert_eq!(signed_of(-40), "-40");
    assert_eq!(signed_of(i64::MIN), "-9223372036854775808");
    assert_eq!(signed_of(i64::MAX), "9223372036854775807");
}

#[test]
fn padded_decimal_fills_with_zeros() {
    assert_eq!(padded_of(5, 2), "05");
    assert_eq!(padded_of(12, 2), "12");
    assert_eq!(padded_of(0, 2), "00");
    assert_eq!(padded_of(2024, 4), "2024");
    assert_eq!(padded_of(987, 4), "0987");
    assert_eq!(padded_of(7, 0), "7");
}

#[test]
fn padded_decimal_never_cuts() {
    assert_eq!(padded_of(123, 2), "123");
    assert_eq!(padded_of(12345, 4), "12345");
}

#[test]
fn padded_decimal_counts_the_sign() {
    assert_eq!(padded_of(-5, 4), "-005");
    assert_eq!(padded_of(-5, 2), "-5");
    assert_eq!(padded_of(-5, 1), "-5");
    assert_eq!(padded_of(-1234, 4), "-1234");
}

#[test]
fn padded_decimal_agrees_with_std_formatting() {
    for n in [0i64, 1, 9, 10, 31, 99, 100, 2024, -1, -9, -10, -99, -100, -2024, 123456] {
        assert_eq!(padded_of(n, 2), format!("{:02}", n));
        assert_eq!(padded_of(n, 4), format!("{:04}", n));
    }
}
