//! The sound module: a thin roof over its one instrument.

pub mod instrument;
