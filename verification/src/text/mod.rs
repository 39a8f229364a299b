//! Text primitives: every function works on the characters of a string.

pub mod bytes;
pub mod case;
pub mod chars;
pub mod duration;
pub mod edit;
pub mod laws;
pub mod number;
pub mod search;
pub mod split;
