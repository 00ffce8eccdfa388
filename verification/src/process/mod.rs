//! Native processes started on behalf of a capsule.

pub mod audit;
pub mod background;
pub mod child_laws;
pub mod compat;
pub mod context;
pub mod counts;
pub mod environment_laws;
pub mod foreground;
pub mod inert;
pub mod inject;
pub mod lasting;
pub mod managed;
pub mod ops;
pub mod persistent;
pub mod platform;
pub mod program_laws;
pub mod start;
pub mod start_laws;
pub mod tracker;
pub mod types;
pub mod v10;
pub mod windows;
