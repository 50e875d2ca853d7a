//! An assortment of things — animal, mineral and vegetable — each born
//! with a random identifier.

pub mod animal;
pub mod mineral;
pub mod vegetable;

use crate::randomness::{is_ascii_alphanumeric_char, random_alphanumeric};
use vstd::prelude::*;

verus! {

/// A thing is an animal, a mineral or a vegetable.
#[derive(Debug)]
pub enum Thing {
    Ani(animal::Animal),
    Min(mineral::Mineral),
    Veg(vegetable::Vegetable),
}

/// One thing of each kind: a cat, a topaz and a rose, each with a fresh
/// eight-character alphanumeric identifier.
pub fn assortment() -> (r: [Thing; 3])
    ensures
        r@[0] matches Thing::Ani(a) && a.name_chars() == "Cat"@ && a.id_chars().len() == 8
            && forall|i: int| 0 <= i < 8 ==> is_ascii_alphanumeric_char(#[trigger] a.id_chars()[i]),
        r@[1] matches Thing::Min(m) && m.name_chars() == "Topaz"@ && m.id_chars().len() == 8
            && forall|i: int| 0 <= i < 8 ==> is_ascii_alphanumeric_char(#[trigger] m.id_chars()[i]),
        r@[2] matches Thing::Veg(v) && v.name_chars() == "Rose"@ && v.id_chars().len() == 8
            && forall|i: int| 0 <= i < 8 ==> is_ascii_alphanumeric_char(#[trigger] v.id_chars()[i]),
{
    let a = Thing::Ani(animal::Animal::new("Cat"));
    let m = Thing::Min(mineral::Mineral::new("Topaz"));
    let v = Thing::Veg(vegetable::Vegetable::new("Rose"));
    [a, m, v]
}

/// A pseudorandom identifier: letters and digits only, of the asked-for
/// length.
pub(crate) fn get_id(length: usize) -> (id: String)
    ensures
        id@.len() == length,
        forall|i: int| 0 <= i < id@.len() ==> is_ascii_alphanumeric_char(id@[i]),
{
    random_alphanumeric(length)
}

} // verus!
