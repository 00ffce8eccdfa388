//! Entries of the audit chain.

use vstd::prelude::*;

use crate::host_state::types::PrincipalId;

verus! {

/// What was done or tried.
pub enum AuditEvent {
    /// A program was started.
    ProcessSpawn(String),
    /// An endpoint was connected to.
    NetConnect(String, u16),
    /// An address was bound.
    NetBind(String),
    /// A connection was accepted: on this address, from that one.
    NetAccept(String, String),
}

/// How it ended.
pub enum AuditOutcome {
    Allowed,
    /// It was refused before it began, for this reason.
    Denied(String),
    /// It failed, in these words.
    Failed(String),
}

/// One entry of the chain.
pub struct AuditRecord {
    pub principal: PrincipalId,
    pub event: AuditEvent,
    pub outcome: AuditOutcome,
}

} // verus!
