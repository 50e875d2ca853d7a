//! The mineral kind of thing.

use crate::randomness::is_ascii_alphanumeric_char;
use vstd::prelude::*;
use vstd::string::*;

verus! {

/// A mineral: a public name and a private identifier.
#[derive(Debug)]
pub struct Mineral {
    pub name: String,
    id: String,
}

impl Mineral {
    /// The name's characters; for contracts.
    pub closed spec fn name_chars(&self) -> Seq<char> {
        self.name@
    }

    /// The identifier's characters; for contracts.
    pub closed spec fn id_chars(&self) -> Seq<char> {
        self.id@
    }

    /// A new mineral with the given name and a random eight-character
    /// identifier.
    pub fn new(name: &str) -> (m: Mineral)
        ensures
            m.name_chars() == name@,
            m.id_chars().len() == 8,
            forall|i: int| 0 <= i < m.id_chars().len() ==> is_ascii_alphanumeric_char(
                m.id_chars()[i],
            ),
    {
        Mineral { name: name.to_owned(), id: crate::things::get_id(8) }
    }
}

} // verus!
