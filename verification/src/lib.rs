//! A synchronisation client for a remote object store, with a verified
//! upload and conflict-resolution pipeline.
//!
//! The library decides; it performs no input or output. The upload queue,
//! the batch, the directory walk and the folder listing are state machines:
//! each step takes what their driver found or what the store answered, and
//! returns what to do next.

pub mod config;
pub mod dropbox;
pub mod paths;
pub mod text;
pub mod time;

pub use config::manager::ConfigManager;
pub use dropbox::queue::UploadQueue;
