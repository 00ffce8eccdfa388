//! The state of a running instance of a capsule.

pub mod admissions;
pub mod authority;
pub mod calls;
pub mod grants;
pub mod invocation;
pub mod policy;
pub mod state;
pub mod types;
