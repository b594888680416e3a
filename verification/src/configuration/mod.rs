//! The configuration of the program: raw values as a file holds them, and the
//! validated values that the rest of the library works with.

pub mod album;
pub mod base;
pub mod error;
pub mod filesystem;
pub mod traits;
pub mod utilities;
