//! Parts that every presentation backend can use.

pub mod queue_v2;
pub mod spinner;
