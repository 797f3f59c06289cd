use fox_field::text::{digit_str, push_decimal, push_fixed, push_fixed_signed, push_padded, Places};

fn decimal(n: u64) -> String {
    let mut out = String::new();
    push_decimal(&mut out, n);
    out
}

fn fixed(negative: bool, millionths: u64, places: Places) -> String {
    let mut out = String::new();
    push_fixed(&mut out, negative, millionths, places);
    out
}

#[test]
fn the_ten_digits() {
    let all: Vec<&str> = (0..10).map(digit_str).collect();
    assert_eq!(all, vec!["0", "1", "2", "3", "4", "5", "6", "7", "8", "9"]);
}

#[test]
fn numbers_in_decimal() {
    assert_eq!(decimal(0), "0");
    assert_eq!(decimal(7), "7");
    assert_eq!(decimal(10), "10");
    assert_eq!(decimal(1234567890), "1234567890");
    assert_eq!(decimal(u64::MAX), "18446744073709551615");
}

#[test]
fn numbers_are_appended_to_what_is_there() {
    let mut out = String::from("n = ");
    push_decimal(&mut out, 42);
    assert_eq!(out, "n = 42");
    push_padded(&mut out, 7, 3);
    assert_eq!(out, "n = 42007");
}

#[test]
fn padded_numbers_keep_their_width() {
    let mut out = String::new();
    push_padded(&mut out, 5, 0);
    assert_eq!(out, "");
    push_padded(&mut out, 5, 1);
    assert_eq!(out, "5");
    push_padded(&mut out, 12345, 2);
    assert_eq!(out, "545");
    push_padded(&mut out, 0, 4);
    assert_eq!(out, "5450000");
}

#[test]
fn fixed_numbers_have_their_digits_behind_the_point() {
    assert_eq!(fixed(false, 0, Places::One), "0.0");
    assert_eq!(fixed(false, 3_000, Places::Three), "0.003");
    assert_eq!(fixed(false, 20_000, Places::Two), "0.02");
    assert_eq!(fixed(false, 12_345_678, Places::One), "12.3");
    assert_eq!(fixed(false, 12_345_678, Places::Two), "12.35");
    assert_eq!(fixed(false, 12_345_678, Places::Three), "12.346");
    assert_eq!(fixed(true, 12_345_678, Places::Three), "-12.346");
}

#[test]
fn fixed_numbers_round_a_half_away_from_zero() {
    assert_eq!(fixed(false, 49_999, Places::One), "0.0");
    assert_eq!(fixed(false, 50_000, Places::One), "0.1");
    assert_eq!(fixed(false, 950_000, Places::One), "1.0");
    assert_eq!(fixed(false, 9_999_500, Places::Three), "10.000");
    assert_eq!(fixed(false, 9_999_499, Places::Three), "9.999");
    assert_eq!(fixed(true, 50_000, Places::One), "-0.1");
    assert_eq!(fixed(true, 1, Places::One), "-0.0");
    assert_eq!(fixed(false, u64::MAX, Places::Three), "18446744073709.552");
}

#[test]
fn signed_numbers_show_their_sign() {
    let mut out = String::new();
    push_fixed_signed(&mut out, -3_000, Places::Three);
    assert_eq!(out, "-0.003");
    let mut out = String::new();
    push_fixed_signed(&mut out, i32::MAX, Places::Two);
    assert_eq!(out, "2147.48");
    let mut out = String::new();
    push_fixed_signed(&mut out, i32::MIN, Places::Two);
    assert_eq!(out, "-2147.48");
}
