//! A message enum whose variants carry no value, a position, a line of
//! text, or a colour, and the sentence each variant announces itself with.

use crate::decimal::{int_rep, i32_decimal};
use vstd::prelude::*;
use vstd::string::*;

verus! {

/// A message: nothing, a move, a line of text, or a colour.
pub enum Message {
    Quit,
    Move { x: i32, y: i32 },
    Write(String),
    Color(i32, i32, i32),
}

/// The sentence a message announces itself with.
pub open spec fn message_rep(m: Message) -> Seq<char> {
    match m {
        Message::Quit => "I am a Quit"@,
        Message::Move { x, y } => "I am a Move: "@ + int_rep(x as int) + ", "@ + int_rep(y as int),
        Message::Write(text) => "I am a Write: "@ + text@,
        Message::Color(r, g, b) => "I am a Color: "@ + int_rep(r as int) + ", "@ + int_rep(
            g as int,
        ) + ", "@ + int_rep(b as int),
    }
}

impl Message {
    /// Spells out which variant this message is, fields included.
    pub fn describe(&self) -> (s: String)
        ensures
            s@ == message_rep(*self),
    {
        match self {
            Message::Quit => {
                let s: String = "I am a Quit".to_owned();
                s
            },
            Message::Move { x, y } => {
                let mut s: String = "I am a Move: ".to_owned();
                s.append(i32_decimal(*x).as_str());
                s.append(", ");
                s.append(i32_decimal(*y).as_str());
                assert(s@ =~= message_rep(*self));
                s
            },
            Message::Write(text) => {
                let mut s: String = "I am a Write: ".to_owned();
                s.append(text.as_str());
                assert(s@ =~= message_rep(*self));
                s
            },
            Message::Color(r, g, b) => {
                let mut s: String = "I am a Color: ".to_owned();
                s.append(i32_decimal(*r).as_str());
                s.append(", ");
                s.append(i32_decimal(*g).as_str());
                s.append(", ");
                s.append(i32_decimal(*b).as_str());
                assert(s@ =~= message_rep(*self));
                s
            },
        }
    }
}

} // verus!
