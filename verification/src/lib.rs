//! Incremental transcoding of hierarchical audio collections: change detection
//! between metadata snapshots, the library / album / file work packets built on
//! it, the batch scheduler's decisions, and the queue and progress model that
//! presentation backends read.

pub mod cached;
pub mod cli;
pub mod commands;
pub mod configuration;
pub mod console;
pub mod filesystem;
pub mod sorting;
pub mod text;
