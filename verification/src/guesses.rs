//! The guessing game's pieces: a guarded guess value, a judgement of a
//! guess against the secret, a fresh secret number, and a lookup that
//! stays honest about an index far out of range.

use crate::randomness::random_in_range;
use vstd::prelude::*;

verus! {

/// Reads an index far beyond the end of a three-element vector; no
/// element is ever there. An unchecked read at that index would panic,
/// which no function of this library does, so the lookup answers `None`
/// instead.
pub fn eek() -> (r: Option<i32>)
    ensures
        r is None,
{
    let v: Vec<i32> = vec![1, 2, 3];
    let index: usize = 101;
    if index < v.len() {
        Some(v[index])
    } else {
        None
    }
}

/// A guess in a guessing game; its value lies between 1 and 100.
pub struct Guess {
    value: i32,
}

impl Guess {
    /// The value held; for contracts.
    pub closed spec fn spec_value(&self) -> i32 {
        self.value
    }

    /// Wraps a value as a guess. Values outside 1..=100 are not guesses.
    pub fn new(value: i32) -> (g: Guess)
        requires
            1 <= value <= 100,
        ensures
            g.spec_value() == value,
    {
        Guess { value }
    }

    /// Reads the value back.
    pub fn value(&self) -> (v: i32)
        ensures
            v == self.spec_value(),
    {
        self.value
    }
}

/// How a guess compares to the secret number.
#[derive(Debug, PartialEq, Eq, Structural)]
pub enum Judgement {
    TooSmall,
    TooBig,
    Win,
}

/// Compares a guess to the secret number.
pub fn judge(guess: u32, secret: u32) -> (j: Judgement)
    ensures
        j == (if guess < secret {
            Judgement::TooSmall
        } else if guess > secret {
            Judgement::TooBig
        } else {
            Judgement::Win
        }),
{
    if guess < secret {
        Judgement::TooSmall
    } else if guess > secret {
        Judgement::TooBig
    } else {
        Judgement::Win
    }
}

/// Draws the secret number for a round of the game: between 1 and 100.
pub fn secret_number() -> (n: u32)
    ensures
        1 <= n <= 100,
{
    random_in_range(1, 101)
}

} // verus!
