//! Branching and looping demonstrations: classifying a number, a loop
//! that breaks with a value, and a countdown.

use crate::randomness::random_in_range;
use vstd::prelude::*;

verus! {

/// What the branching demonstration says about a number.
#[derive(Debug, PartialEq, Eq, Structural)]
pub enum NumberClass {
    Even,
    Five,
    OddNotFive,
}

/// Classifies a number the way the branching demonstration does: even
/// first, then exactly five, then everything else.
pub fn classify(n: u32) -> (c: NumberClass)
    ensures
        n % 2 == 0 ==> c == NumberClass::Even,
        n % 2 != 0 && n == 5 ==> c == NumberClass::Five,
        n % 2 != 0 && n != 5 ==> c == NumberClass::OddNotFive,
{
    if n % 2 == 0 {
        NumberClass::Even
    } else if n == 5 {
        NumberClass::Five
    } else {
        NumberClass::OddNotFive
    }
}

/// The label an even or odd number gets.
pub fn parity_label(n: u32) -> (s: &'static str)
    ensures
        n % 2 == 0 ==> s@ == "even"@,
        n % 2 != 0 ==> s@ == "odd"@,
{
    if n % 2 == 0 {
        "even"
    } else {
        "odd"
    }
}

/// Draws the digit the branching demonstration classifies: below ten.
pub fn random_digit() -> (n: u32)
    ensures
        n < 10,
{
    random_in_range(0, 10)
}

/// Counts up to `stop` one step at a time, then breaks out of the loop
/// with double the counter.
pub fn count_then_double(stop: u32) -> (r: u32)
    requires
        1 <= stop,
        2 * stop <= u32::MAX,
    ensures
        r == 2 * stop,
{
    let mut counter: u32 = 0;
    let mut result: u32 = 0;
    loop
        invariant_except_break
            counter < stop,
            2 * stop <= u32::MAX,
        ensures
            result == 2 * stop,
        decreases stop - counter,
    {
        counter += 1;
        if counter == stop {
            result = counter * 2;
            break ;
        }
    }
    result
}

/// The countdown a while-loop prints: `from` down to 1.
pub fn countdown(from: u32) -> (v: Vec<u32>)
    ensures
        v@.len() == from,
        forall|i: int| 0 <= i < from ==> v@[i] == from - i,
{
    let mut number = from;
    let mut v: Vec<u32> = Vec::new();
    while number != 0
        invariant
            number <= from,
            v@.len() == from - number,
            forall|i: int| 0 <= i < v@.len() ==> v@[i] == from - i,
        decreases number,
    {
        v.push(number);
        number = number - 1;
    }
    v
}

} // verus!
