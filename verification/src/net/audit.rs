//! What network operations leave in the audit chain.

use vstd::prelude::*;

use crate::audit::{AuditEvent, AuditOutcome, AuditRecord};
use crate::host_state::types::PrincipalId;
use crate::net::types::ErrorCode;

verus! {

/// The outcome says how an operation ended.
pub open spec fn tells(outcome: AuditOutcome, failure: Option<ErrorCode>) -> bool {
    match failure {
        None => outcome is Allowed,
        Some(code) => outcome is Failed && outcome->Failed_0@ == code.shown(),
    }
}

/// How an operation ended.
fn outcome_of(failure: &Option<ErrorCode>) -> (outcome: AuditOutcome)
    ensures
        tells(outcome, *failure),
{
    match failure {
        None => AuditOutcome::Allowed,
        Some(code) => AuditOutcome::Failed(code.show()),
    }
}

/// The record is of a connection to this endpoint.
pub open spec fn is_connect(record: AuditRecord, principal: PrincipalId, host: Seq<char>, port: u16)
    -> bool {
    &&& record.principal == principal
    &&& record.event is NetConnect
    &&& record.event->NetConnect_0@ == host
    &&& record.event->NetConnect_1 == port
}

/// The record is of a bind of this address.
pub open spec fn is_bind(record: AuditRecord, principal: PrincipalId, addr: Seq<char>) -> bool {
    &&& record.principal == principal
    &&& record.event is NetBind
    &&& record.event->NetBind_0@ == addr
}

/// The record is of a connection that was accepted.
pub open spec fn is_accept(
    record: AuditRecord,
    principal: PrincipalId,
    local: Seq<char>,
    peer: Seq<char>,
) -> bool {
    &&& record.principal == principal
    &&& record.event is NetAccept
    &&& record.event->NetAccept_0@ == local
    &&& record.event->NetAccept_1@ == peer
}

/// The entry of a connection.
pub fn audit_net_connect(
    principal: &PrincipalId,
    host: &str,
    port: u16,
    failure: &Option<ErrorCode>,
) -> (record: AuditRecord)
    ensures
        is_connect(record, *principal, host@, port),
        tells(record.outcome, *failure),
{
    AuditRecord {
        principal: principal.copy(),
        event: AuditEvent::NetConnect(host.to_owned(), port),
        outcome: outcome_of(failure),
    }
}

/// The entry of a denied connection.
pub fn connect_denied(principal: &PrincipalId, host: &str, port: u16, reason: &str) -> (record:
    AuditRecord)
    ensures
        is_connect(record, *principal, host@, port),
        record.outcome is Denied,
        record.outcome->Denied_0@ == reason@,
{
    AuditRecord {
        principal: principal.copy(),
        event: AuditEvent::NetConnect(host.to_owned(), port),
        outcome: AuditOutcome::Denied(reason.to_owned()),
    }
}

/// The entry of a connection that was accepted.
pub fn audit_net_accept(
    principal: &PrincipalId,
    local: &str,
    peer: &str,
    failure: &Option<ErrorCode>,
) -> (record: AuditRecord)
    ensures
        is_accept(record, *principal, local@, peer@),
        tells(record.outcome, *failure),
{
    AuditRecord {
        principal: principal.copy(),
        event: AuditEvent::NetAccept(local.to_owned(), peer.to_owned()),
        outcome: outcome_of(failure),
    }
}

/// The entry of a bind.
pub fn audit_net_bind(principal: &PrincipalId, addr: &str, outcome: AuditOutcome) -> (record:
    AuditRecord)
    ensures
        is_bind(record, *principal, addr@),
        record.outcome == outcome,
{
    AuditRecord {
        principal: principal.copy(),
        event: AuditEvent::NetBind(addr.to_owned()),
        outcome,
    }
}

} // verus!
