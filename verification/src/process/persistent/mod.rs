//! Processes that outlive the instance that started them.

pub mod calls;
pub mod config;
pub mod entry;
pub mod handling;
pub mod ids;
pub mod laws;
pub mod parts;
pub mod registry;
pub mod ring;
