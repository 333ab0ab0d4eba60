//! The remote store: its descriptors, and the upload pipeline that runs
//! against it.

pub mod batch;
pub mod client;
pub mod directory;
pub mod operations;
pub mod queue;
pub mod traces;
