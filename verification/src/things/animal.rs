//! The animal kind of thing.

use crate::randomness::is_ascii_alphanumeric_char;
use vstd::prelude::*;
use vstd::string::*;

verus! {

/// An animal: a public name and a private identifier.
#[derive(Debug)]
pub struct Animal {
    pub name: String,
    id: String,
}

impl Animal {
    /// The name's characters; for contracts.
    pub closed spec fn name_chars(&self) -> Seq<char> {
        self.name@
    }

    /// The identifier's characters; for contracts.
    pub closed spec fn id_chars(&self) -> Seq<char> {
        self.id@
    }

    /// A new animal with the given name and a random eight-character
    /// identifier.
    pub fn new(name: &str) -> (a: Animal)
        ensures
            a.name_chars() == name@,
            a.id_chars().len() == 8,
            forall|i: int| 0 <= i < a.id_chars().len() ==> is_ascii_alphanumeric_char(
                a.id_chars()[i],
            ),
    {
        Animal { name: name.to_owned(), id: crate::things::get_id(8) }
    }
}

} // verus!
