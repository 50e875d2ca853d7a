//! Small exercise functions and types: a greeting builder, an adder, a
//! rectangle that can judge whether it holds another, and a guarded guess.

use vstd::prelude::*;
use vstd::string::*;

verus! {

/// Builds the greeting for a name: `Hello <name>!`.
pub fn greeting(name: &str) -> (r: String)
    ensures
        r@ == "Hello "@ + name@ + "!"@,
{
    let mut s: String = "Hello ".to_owned();
    s.append(name);
    s.append("!");
    s
}

/// Adds two to a number.
pub fn add_two(a: i32) -> (r: i32)
    requires
        a + 2 <= i32::MAX,
    ensures
        r == a + 2,
{
    internal_adder(a, 2)
}

/// The worker behind [`add_two`]: adds two numbers.
pub fn internal_adder(a: i32, b: i32) -> (r: i32)
    requires
        i32::MIN <= a + b <= i32::MAX,
    ensures
        r == a + b,
{
    a + b
}

/// A rectangle given by its side lengths.
#[derive(Debug)]
pub struct Rectangle {
    pub length: u32,
    pub width: u32,
}

impl Rectangle {
    /// A rectangle holds another exactly when it is strictly larger in
    /// both directions.
    pub fn can_hold(&self, other: &Rectangle) -> (r: bool)
        ensures
            r == (self.length > other.length && self.width > other.width),
    {
        self.length > other.length && self.width > other.width
    }
}

/// A guess in a guessing game; its value lies between 1 and 100.
pub struct Guess {
    pub value: i32,
}

impl Guess {
    /// Wraps a value as a guess. Values outside 1..=100 are not guesses.
    pub fn new(value: i32) -> (g: Guess)
        requires
            1 <= value <= 100,
        ensures
            g.value == value,
    {
        Guess { value }
    }
}

} // verus!
