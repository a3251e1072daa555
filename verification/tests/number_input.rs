use std::borrow::Borrow;
use level_frontend::number::{parse_number, shorten_to, transform_number, NumberState};

#[test]
fn shorten_to_cuts_after_decimals() {
    assert_eq!(shorten_to("3.14159", 2), "3.14");
    assert_eq!(shorten_to("3.1", 2), "3.1");
    assert_eq!(shorten_to("42", 0), "42");
    assert_eq!(shorten_to("1.5", 0), "1.");
}

#[test]
fn transform_number_adjusts_signs_and_zeros() {
    assert_eq!(transform_number("-", 3), "");
    assert_eq!(transform_number("12-", 3), "-12");
    assert_eq!(transform_number("-12-", 3), "12");
    assert_eq!(transform_number("05", 3), "5");
    assert_eq!(transform_number("0.5", 3), "0.5");
    assert_eq!(transform_number("-05", 3), "-5");
    assert_eq!(transform_number("-0.5", 3), "-0.5");
    assert_eq!(transform_number("1.2345", 2), "1.23");
}

#[test]
fn parse_number_clamps() {
    assert_eq!(parse_number::<i32>("", 0, 10), Some((0, true)));
    assert_eq!(parse_number::<i32>("7", 0, 10), Some((7, false)));
    assert_eq!(parse_number::<i32>("70", 0, 10), Some((10, true)));
    assert_eq!(parse_number::<i32>("-3", 0, 10), Some((0, true)));
    assert_eq!(parse_number::<i32>("x", 0, 10), None);
    assert_eq!(parse_number::<u8>("-0", 0, 10), None);
    assert_eq!(parse_number::<u8>("300", 0, 255), None);
    assert_eq!(parse_number::<i64>("+12", -5, 50), Some((12, false)));
}

#[test]
fn number_state_set() {
    let mut s = NumberState::<i32>::new(5).min(0).max(100);
    assert_eq!(s.to_string(), "5");
    s.set("42");
    assert_eq!(s.number(), 42);
    assert_eq!(s.to_string(), "42");
    s.set("420");
    assert_eq!(s.number(), 100);
    assert_eq!(s.to_string(), "100");
    s.set("abc");
    assert_eq!(s.number(), 100);
    s.set("");
    assert_eq!(s.number(), 0);
    assert_eq!(s.to_string(), "0");
    s.set("7-");
    assert_eq!(s.number(), 0);
    assert_eq!(s.to_string(), "0");
}

#[test]
fn number_state_conversions() {
    let state = NumberState::from(42u8);
    assert_eq!(*state, 42);
    let held: &u8 = state.borrow();
    assert_eq!(*held, 42);
    assert_eq!(state.to_string(), "42");
}
