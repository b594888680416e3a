//! What the commands of the program decide and compute.

pub mod transcode;
