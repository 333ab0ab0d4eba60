//! Application settings and the manager that owns them.

pub mod manager;
