//! The renderer-agnostic model of what is pending, running and finished.

pub mod queue;
pub mod backends;
pub mod progress;
pub mod queue_state;
pub mod state;
