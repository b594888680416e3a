//! What the presentation backends have in common, and what is particular to the
//! terminal interface.

pub mod fancy;
pub mod shared;
