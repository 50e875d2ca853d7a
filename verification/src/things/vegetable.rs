//! The vegetable kind of thing.

use crate::randomness::is_ascii_alphanumeric_char;
use vstd::prelude::*;
use vstd::string::*;

verus! {

/// A vegetable: a public name and a private identifier.
#[derive(Debug)]
pub struct Vegetable {
    pub name: String,
    id: String,
}

impl Vegetable {
    /// The name's characters; for contracts.
    pub closed spec fn name_chars(&self) -> Seq<char> {
        self.name@
    }

    /// The identifier's characters; for contracts.
    pub closed spec fn id_chars(&self) -> Seq<char> {
        self.id@
    }

    /// A new vegetable with the given name and a random eight-character
    /// identifier.
    pub fn new(name: &str) -> (v: Vegetable)
        ensures
            v.name_chars() == name@,
            v.id_chars().len() == 8,
            forall|i: int| 0 <= i < v.id_chars().len() ==> is_ascii_alphanumeric_char(
                v.id_chars()[i],
            ),
    {
        Vegetable { name: name.to_owned(), id: crate::things::get_id(8) }
    }
}

} // verus!
