//! Tests for the guessing game's pieces and the error demonstration's
//! guarded guess.

use mylib::guesses::{eek, judge, secret_number, Guess, Judgement};

#[test]
fn far_out_of_range_finds_nothing() {
    assert_eq!(eek(), None);
}

#[test]
fn guesses_keep_their_value() {
    let g1 = Guess::new(50);
    assert_eq!(g1.value(), 50);
    assert_eq!(Guess::new(1).value(), 1);
    assert_eq!(Guess::new(100).value(), 100);
}

#[test]
fn judging_compares_to_the_secret() {
    assert_eq!(judge(10, 42), Judgement::TooSmall);
    assert_eq!(judge(90, 42), Judgement::TooBig);
    assert_eq!(judge(42, 42), Judgement::Win);
}

#[test]
fn secret_numbers_stay_in_range() {
    for _ in 0..100 {
        let n = secret_number();
        assert!((1..=100).contains(&n));
    }
}
