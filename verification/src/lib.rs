//! Decisions of a host that runs capsules in a sandbox: what a capsule may start, connect to and
//! read, on whose behalf, and what is told of it. Reading, writing and waiting are left to the
//! program around it.

pub mod audit;
pub mod cancel;
pub mod connections;
pub mod digest;
pub mod digits;
pub mod entropy;
pub mod host_state;
pub mod names;
pub mod net;
pub mod numbers;
pub mod order;
pub mod paths;
pub mod process;
pub mod request_context;
pub mod service_laws;
pub mod sys;
pub mod text;
pub mod text_laws;
pub mod uplink;
pub mod uuids;
