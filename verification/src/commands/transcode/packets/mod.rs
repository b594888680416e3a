//! Units of pending work, at the level of a library, an album and a file.

pub mod album;
pub mod file;
pub mod library;
