//! A small library of verified demonstration modules: arithmetic and
//! branching helpers, simple data types, random identifiers, word and
//! grapheme handling, and a handful of generic utilities.

pub mod basics;
pub mod branches;
pub mod coins;
pub mod decimal;
pub mod exercises;
pub mod foo;
pub mod generics;
pub mod guesses;
pub mod longest;
pub mod messages;
pub mod randomness;
pub mod shapes;
pub mod sound;
pub mod spam;
pub mod summary;
pub mod text;
pub mod things;
pub mod users;
pub mod vectors;
pub mod words;
