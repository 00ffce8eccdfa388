//! Sockets on behalf of a capsule.

pub mod accept;
pub mod audit;
pub mod by_handle;
pub mod connect;
pub mod frame;
pub mod handshake;
pub mod hosts;
pub mod lifecycle;
pub mod listeners;
pub mod peer_laws;
pub mod quota;
pub mod socket_laws;
pub mod stream;
pub mod types;
