//! The terminal interface: its queue items and the state behind a render pass.

pub mod queue;
pub mod terminal;
pub mod text;
