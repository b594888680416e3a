//! One library of the collection.

pub mod configuration;
pub mod transcoding;
pub mod validation;
