//! Tests for the arithmetic, branching and looping helpers.

use mylib::basics::{another_return, func_with_return};
use mylib::branches::{
    classify, count_then_double, countdown, parity_label, random_digit, NumberClass,
};
use mylib::decimal::{i32_decimal, u32_decimal};

#[test]
fn the_answer_is_returned() {
    assert_eq!(func_with_return(), 42);
}

#[test]
fn doubling_doubles() {
    let z = func_with_return();
    assert_eq!(another_return(z), 84);
    assert_eq!(another_return(0), 0);
    assert_eq!(another_return(-21), -42);
}

#[test]
fn classification_follows_the_branch_order() {
    assert_eq!(classify(4), NumberClass::Even);
    assert_eq!(classify(0), NumberClass::Even);
    assert_eq!(classify(5), NumberClass::Five);
    assert_eq!(classify(7), NumberClass::OddNotFive);
}

#[test]
fn parity_labels() {
    assert_eq!(parity_label(4), "even");
    assert_eq!(parity_label(7), "odd");
}

#[test]
fn counting_then_doubling_gives_twenty() {
    assert_eq!(count_then_double(10), 20);
    assert_eq!(count_then_double(1), 2);
}

#[test]
fn countdown_runs_to_one() {
    assert_eq!(countdown(3), vec![3, 2, 1]);
    assert_eq!(countdown(0), Vec::<u32>::new());
}

#[test]
fn random_digits_stay_below_ten() {
    for _ in 0..100 {
        assert!(random_digit() < 10);
    }
}

#[test]
fn decimal_renderings() {
    assert_eq!(u32_decimal(0), "0");
    assert_eq!(u32_decimal(7), "7");
    assert_eq!(u32_decimal(255), "255");
    assert_eq!(u32_decimal(4294967295), "4294967295");
    assert_eq!(i32_decimal(-42), "-42");
    assert_eq!(i32_decimal(42), "42");
    assert_eq!(i32_decimal(-2147483648), "-2147483648");
}
