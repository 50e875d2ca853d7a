//! Coins of the United States and their value in cents.

use vstd::prelude::*;

verus! {

/// A state, as stamped on the back of some quarters.
#[derive(Debug)]
pub enum UsState {
    Alabama,
    Alaska,
    California,
    Colorado,
}

/// A coin; a quarter carries the state it celebrates.
pub enum Coin {
    Penny,
    Nickel,
    Dime,
    Quarter(UsState),
}

/// The worth of a coin in cents: 1, 5, 10 or 25.
pub fn value_in_cents(coin: Coin) -> (v: u32)
    ensures
        coin is Penny ==> v == 1,
        coin is Nickel ==> v == 5,
        coin is Dime ==> v == 10,
        coin is Quarter ==> v == 25,
{
    match coin {
        Coin::Penny => 1,
        Coin::Nickel => 5,
        Coin::Dime => 10,
        Coin::Quarter(_state) => 25,
    }
}

/// Whether a state is California.
pub fn is_california(candidate: &UsState) -> (r: bool)
    ensures
        r == (candidate is California),
{
    match candidate {
        UsState::California => true,
        _ => false,
    }
}

} // verus!
