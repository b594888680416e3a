//! Incremental transcoding: snapshots and their differences, the work packets
//! built on them, and the decisions of a run.

pub mod batch;
pub mod directories;
pub mod meta;
pub mod meta_file;
pub mod packets;
pub mod run;
