//! Connections that a capsule takes in: clients on the local socket, and peers on its servers.

use vstd::prelude::*;

use crate::audit::{AuditOutcome, AuditRecord};
use crate::connections::{ClientConnections, ConnectionIdentity, Connections};
use crate::host_state::types::PrincipalId;
use crate::net::audit::{audit_net_accept, is_accept, tells};
use crate::net::lifecycle::{register_and_emit_connect, LifecycleEvent};
use crate::net::quota::{StreamCounts, MAX_ACTIVE_STREAMS};
use crate::net::types::{is_unknown, map_io_err, maps_to, ErrorCode, IoError};
use crate::text::concat2;

verus! {

/// How long to wait after a peer of another user, in milliseconds.
pub const PEER_BACKOFF_MS: u64 = 100;

/// How long to wait for a client at most, in milliseconds.
pub const MAX_POLL_MS: u64 = 60000;

/// Who a client has proved to be.
pub struct Identity {
    pub principal: String,
    pub key_id: String,
}

/// What became of a handshake.
pub enum Handshake {
    /// There is no token of the session, so there is none.
    NotNeeded,
    Cancelled,
    /// The client is refused for this reason.
    Refused(String),
    /// The client is in, maybe as somebody.
    Passed(Option<Identity>),
}

/// What became of waiting for a client.
pub enum Attempt {
    Cancelled,
    TimedOut,
    Failed(IoError),
    /// A peer of another user came, or one whose user cannot be told.
    Stranger(String),
    Came(Handshake),
}

/// What to do after an attempt.
pub enum AcceptStep {
    /// Wait so long and try again.
    Retry(u64),
    /// Nobody came.
    Nobody,
    Fail(ErrorCode),
    /// Take the client in, maybe as somebody.
    Take(Option<Identity>),
}

/// Whether a client can be waited for at all.
pub fn may_accept(has_listener: bool, counts: &StreamCounts) -> (r: Result<(), ErrorCode>)
    ensures
        r == (if !has_listener {
            Err::<(), ErrorCode>(ErrorCode::Closed)
        } else if !counts.has_room() {
            Err::<(), ErrorCode>(ErrorCode::Quota)
        } else {
            Ok::<(), ErrorCode>(())
        }),
{
    if !has_listener {
        return Err(ErrorCode::Closed);
    }
    if counts.capsule >= MAX_ACTIVE_STREAMS {
        return Err(ErrorCode::Quota);
    }
    Ok(())
}

/// Whether the keys of principals can be looked up for clients that are to be accepted. They are
/// needed only where a token of the session asks for handshakes; `home` is where they are, or why
/// that cannot be told.
pub fn accept_home(has_session: bool, home: &Result<(), String>) -> (r: Result<(), ErrorCode>)
    ensures
        match *home {
            Err(text) if has_session => r is Err && is_unknown(
                r->Err_0,
                "cannot resolve astrid home: "@ + text@,
            ),
            _ => r is Ok,
        },
{
    match home {
        Err(text) => {
            if has_session {
                return Err(
                    ErrorCode::Unknown(concat2("cannot resolve astrid home: ", text.as_str())),
                );
            }
            Ok(())
        },
        Ok(()) => Ok(()),
    }
}

/// What comes of a client that was only looked for before its handshake: where the keys of
/// principals are needed and cannot be looked up, nobody came.
pub fn poll_home(has_session: bool, home: &Result<(), String>) -> (nobody: Option<AcceptStep>)
    ensures
        nobody == (if has_session && *home is Err {
            Some(AcceptStep::Nobody)
        } else {
            None
        }),
{
    match home {
        Err(_) => {
            if has_session {
                return Some(AcceptStep::Nobody);
            }
            None
        },
        Ok(()) => None,
    }
}

/// What to do after an attempt to accept a client. A client that is refused does not end the
/// wait: the next one may be let in.
pub fn accept_step(attempt: Attempt) -> (step: AcceptStep)
    ensures
        match attempt {
            Attempt::Cancelled => step == AcceptStep::Fail(ErrorCode::Closed),
            Attempt::TimedOut => step is Nobody,
            Attempt::Failed(error) => step is Fail && maps_to(error, step->Fail_0),
            Attempt::Stranger(_) => step == AcceptStep::Retry(PEER_BACKOFF_MS),
            Attempt::Came(Handshake::NotNeeded) => step == AcceptStep::Take(None),
            Attempt::Came(Handshake::Cancelled) => step == AcceptStep::Fail(ErrorCode::Closed),
            Attempt::Came(Handshake::Refused(_)) => step == AcceptStep::Retry(0),
            Attempt::Came(Handshake::Passed(identity)) => step == AcceptStep::Take(identity),
        },
{
    match attempt {
        Attempt::Cancelled => AcceptStep::Fail(ErrorCode::Closed),
        Attempt::TimedOut => AcceptStep::Nobody,
        Attempt::Failed(error) => AcceptStep::Fail(map_io_err(&error)),
        Attempt::Stranger(_) => AcceptStep::Retry(PEER_BACKOFF_MS),
        Attempt::Came(Handshake::NotNeeded) => AcceptStep::Take(None),
        Attempt::Came(Handshake::Cancelled) => AcceptStep::Fail(ErrorCode::Closed),
        Attempt::Came(Handshake::Refused(_)) => AcceptStep::Retry(0),
        Attempt::Came(Handshake::Passed(identity)) => AcceptStep::Take(identity),
    }
}

/// Whether to look for a client: without a listener that is an error, and without room nobody is
/// looked for.
pub fn may_poll(has_listener: bool, counts: &StreamCounts) -> (r: Result<bool, ErrorCode>)
    ensures
        r == (if !has_listener {
            Err::<bool, ErrorCode>(ErrorCode::Closed)
        } else {
            Ok::<bool, ErrorCode>(counts.has_room())
        }),
{
    if !has_listener {
        return Err(ErrorCode::Closed);
    }
    Ok(counts.capsule < MAX_ACTIVE_STREAMS)
}

/// What taking a client in comes to for who only looked for one: where there was no room after
/// all, nobody came.
pub fn poll_result<T>(taken: Result<T, ErrorCode>) -> (r: Result<Option<T>, ErrorCode>)
    ensures
        match taken {
            Ok(client) => r == Ok::<Option<T>, ErrorCode>(Some(client)),
            Err(ErrorCode::Quota) => r == Ok::<Option<T>, ErrorCode>(None),
            Err(code) => r == Err::<Option<T>, ErrorCode>(code),
        },
{
    match taken {
        Ok(client) => Ok(Some(client)),
        Err(ErrorCode::Quota) => Ok(None),
        Err(code) => Err(code),
    }
}

/// How long to look for a client.
pub fn poll_timeout(timeout_ms: u64) -> (ms: u64)
    ensures
        ms == (if timeout_ms <= MAX_POLL_MS {
            timeout_ms
        } else {
            MAX_POLL_MS
        }),
{
    if timeout_ms <= MAX_POLL_MS {
        timeout_ms
    } else {
        MAX_POLL_MS
    }
}

/// What to do after looking for a client once. Whatever keeps one from being let in, nobody
/// came; only a broken listener is an error.
pub fn poll_step(attempt: Attempt) -> (step: AcceptStep)
    ensures
        match attempt {
            Attempt::Failed(error) => step is Fail && maps_to(error, step->Fail_0),
            Attempt::Came(Handshake::NotNeeded) => step == AcceptStep::Take(None),
            Attempt::Came(Handshake::Passed(identity)) => step == AcceptStep::Take(identity),
            _ => step is Nobody,
        },
{
    match attempt {
        Attempt::Failed(error) => AcceptStep::Fail(map_io_err(&error)),
        Attempt::Came(Handshake::NotNeeded) => AcceptStep::Take(None),
        Attempt::Came(Handshake::Passed(identity)) => AcceptStep::Take(identity),
        _ => AcceptStep::Nobody,
    }
}

/// For whom a client counts.
pub open spec fn counts_for(identity: Option<Identity>) -> Seq<char> {
    match identity {
        Some(known) => known.principal@,
        None => "anonymous"@,
    }
}

/// Takes a client in under the handle `kept`. If there is no room after all, or no handle,
/// nothing changes. A client that proved who it is is known by that from here on; every client
/// counts and is told to have come. `request_owner` is the handle by which its requests are told
/// apart.
pub fn admit_client(
    kept: &Result<u32, String>,
    identity: &Option<Identity>,
    request_owner: &str,
    counts: &mut StreamCounts,
    connections: &mut Connections,
    clients: &mut ClientConnections,
) -> (r: Result<(u32, LifecycleEvent), ErrorCode>)
    requires
        old(counts).countable(),
    ensures
        match r {
            Err(code) => {
                &&& if !old(counts).has_room() {
                    code == ErrorCode::Quota
                } else {
                    *kept is Err && is_unknown(code, "resource table: "@ + kept->Err_0@)
                }
                &&& *final(counts) == *old(counts)
                &&& final(connections)@ == old(connections)@
                &&& final(clients)@ == old(clients)@
            },
            Ok(taken) => {
                &&& old(counts).has_room()
                &&& *kept == Ok::<u32, String>(taken.0)
                &&& *final(counts) == old(counts).opened()
                &&& taken.1.is_connect(counts_for(*identity))
                &&& final(clients)@ == old(clients)@.insert(taken.0, counts_for(*identity))
                &&& match *identity {
                    None => final(connections)@ == old(connections)@,
                    Some(known) => {
                        &&& final(connections)@.dom() == old(connections)@.dom().insert(taken.0)
                        &&& final(connections)@ == old(connections)@.insert(
                            taken.0,
                            final(connections)@[taken.0],
                        )
                        &&& final(connections)@[taken.0].principal@ == known.principal@
                        &&& final(connections)@[taken.0].device_key_id is Some
                        &&& final(connections)@[taken.0].device_key_id->Some_0@ == known.key_id@
                        &&& final(connections)@[taken.0].request_owner@ == request_owner@
                    },
                }
            },
        },
{
    if counts.capsule >= MAX_ACTIVE_STREAMS {
        return Err(ErrorCode::Quota);
    }
    let rep: u32 = match kept {
        Err(text) => {
            return Err(ErrorCode::Unknown(concat2("resource table: ", text.as_str())));
        },
        Ok(rep) => *rep,
    };
    let _ = counts.reserve_net_stream();
    match identity {
        None => {
            let event = register_and_emit_connect(clients, rep, "anonymous");
            Ok((rep, event))
        },
        Some(known) => {
            let ghost before = connections@;
            let bound = ConnectionIdentity {
                principal: known.principal.clone(),
                device_key_id: Some(known.key_id.clone()),
                request_owner: request_owner.to_owned(),
            };
            connections.bind(rep, bound);
            assert(connections@.dom() =~= before.dom().insert(rep));
            let event = register_and_emit_connect(clients, rep, known.principal.as_str());
            Ok((rep, event))
        },
    }
}

/// A peer of a server: where it came in, and from where.
pub struct Peer {
    pub local_addr: String,
    pub peer_addr: String,
}

/// The address on which a peer came in, or why it cannot be told.
pub fn local_text(local: &Result<String, String>) -> (text: String)
    ensures
        text@ == (match *local {
            Ok(addr) => addr@,
            Err(error) => "unknown ("@ + error@ + ")"@,
        }),
{
    match local {
        Ok(addr) => addr.clone(),
        Err(error) => {
            let head = concat2("unknown (", error.as_str());
            concat2(head.as_str(), ")")
        },
    }
}

/// What became of waiting for a peer of a server.
pub enum PeerAnswer {
    Cancelled,
    TimedOut,
    Failed(IoError),
    /// A peer came.
    Came(Peer),
    /// A peer that was accepted ahead, and counts and is told already.
    Waiting,
}

/// What to do next.
pub enum PeerStep {
    /// Nobody came.
    Nobody,
    Fail(ErrorCode, Option<AuditRecord>),
    /// Make a handle for the stream.
    Keep,
}

/// Whether a peer can be waited for, given how many streams the guest holds. Whoever may wait for one
/// has yielded: that is noted for the loop that receives messages.
pub fn may_accept_peer(counts: &StreamCounts, recv_yielded: &mut bool) -> (r: Result<(), ErrorCode>)
    ensures
        if counts.store >= MAX_ACTIVE_STREAMS {
            r == Err::<(), ErrorCode>(ErrorCode::Quota) && *final(recv_yielded) == *old(
                recv_yielded,
            )
        } else {
            r == Ok::<(), ErrorCode>(()) && *final(recv_yielded)
        },
{
    if counts.store >= MAX_ACTIVE_STREAMS {
        return Err(ErrorCode::Quota);
    }
    *recv_yielded = true;
    Ok(())
}

/// What to do with a peer of a server. One that waited already counts, and the guest takes it
/// over; any other is counted now, if there is room.
pub fn take_peer(
    principal: &PrincipalId,
    answer: &PeerAnswer,
    counts: &mut StreamCounts,
) -> (step: PeerStep)
    requires
        *answer is Came ==> old(counts).countable(),
        *answer is Waiting ==> old(counts).store < usize::MAX,
    ensures
        match *answer {
            PeerAnswer::Cancelled => step == PeerStep::Fail(ErrorCode::Closed, None)
                && *final(counts) == *old(counts),
            PeerAnswer::TimedOut => step is Nobody && *final(counts) == *old(counts),
            PeerAnswer::Failed(error) => step is Fail && maps_to(error, step->Fail_0)
                && step->Fail_1 is None && *final(counts) == *old(counts),
            PeerAnswer::Waiting => step is Keep && *final(counts) == old(counts).claimed(),
            PeerAnswer::Came(peer) => if old(counts).has_room() {
                step is Keep && *final(counts) == old(counts).opened()
            } else {
                &&& step is Fail
                &&& step->Fail_0 == ErrorCode::Quota
                &&& step->Fail_1 is Some
                &&& is_accept(
                    step->Fail_1->Some_0,
                    *principal,
                    peer.local_addr@,
                    peer.peer_addr@,
                )
                &&& tells(step->Fail_1->Some_0.outcome, Some(ErrorCode::Quota))
                &&& *final(counts) == *old(counts)
            },
        },
{
    match answer {
        PeerAnswer::Cancelled => PeerStep::Fail(ErrorCode::Closed, None),
        PeerAnswer::TimedOut => PeerStep::Nobody,
        PeerAnswer::Failed(error) => PeerStep::Fail(map_io_err(error), None),
        PeerAnswer::Waiting => {
            counts.claim_reserved_net_stream();
            PeerStep::Keep
        },
        PeerAnswer::Came(peer) => {
            if counts.reserve_net_stream() {
                PeerStep::Keep
            } else {
                let failure = Some(ErrorCode::Quota);
                let record = audit_net_accept(
                    principal,
                    peer.local_addr.as_str(),
                    peer.peer_addr.as_str(),
                    &failure,
                );
                PeerStep::Fail(ErrorCode::Quota, Some(record))
            }
        },
    }
}

/// Ends taking a peer in. Where there is no handle for its stream, it no longer counts. A peer
/// that waited was told before; any other is told now.
pub fn finish_peer(
    principal: &PrincipalId,
    peer: &Option<Peer>,
    kept: &Result<u32, String>,
    counts: &mut StreamCounts,
) -> (r: (Result<u32, ErrorCode>, Option<AuditRecord>))
    ensures
        match *kept {
            Ok(rep) => r.0 == Ok::<u32, ErrorCode>(rep) && *final(counts) == *old(counts),
            Err(text) => r.0 is Err && is_unknown(r.0->Err_0, "resource table: "@ + text@)
                && *final(counts) == old(counts).closed(),
        },
        match *peer {
            None => r.1 is None,
            Some(known) => {
                &&& r.1 is Some
                &&& is_accept(r.1->Some_0, *principal, known.local_addr@, known.peer_addr@)
                &&& tells(
                    r.1->Some_0.outcome,
                    match r.0 {
                        Ok(_) => None,
                        Err(code) => Some(code),
                    },
                )
            },
        },
{
    let (result, failure): (Result<u32, ErrorCode>, Option<ErrorCode>) = match kept {
        Ok(rep) => (Ok(*rep), None),
        Err(text) => {
            counts.release_net_stream();
            let code = ErrorCode::Unknown(concat2("resource table: ", text.as_str()));
            let told = Some(code.copy());
            (Err(code), told)
        },
    };
    match peer {
        None => (result, None),
        Some(known) => {
            let record = audit_net_accept(
                principal,
                known.local_addr.as_str(),
                known.peer_addr.as_str(),
                &failure,
            );
            (result, Some(record))
        },
    }
}

/// Counts a peer that came before the guest asked for it, if there is room. Either way it is
/// told, once.
pub fn await_peer(principal: &PrincipalId, peer: &Peer, counts: &mut StreamCounts) -> (r: (
    bool,
    AuditRecord,
))
    requires
        old(counts).countable(),
    ensures
        r.0 == old(counts).has_room(),
        *final(counts) == (if r.0 {
            old(counts).awaited()
        } else {
            *old(counts)
        }),
        is_accept(r.1, *principal, peer.local_addr@, peer.peer_addr@),
        if r.0 {
            r.1.outcome is Allowed
        } else {
            r.1.outcome is Failed && r.1.outcome->Failed_0@ == "network stream quota exceeded"@
        },
{
    let kept = counts.reserve_pending();
    let mut record = audit_net_accept(
        principal,
        peer.local_addr.as_str(),
        peer.peer_addr.as_str(),
        &None,
    );
    if !kept {
        record.outcome = AuditOutcome::Failed("network stream quota exceeded".to_owned());
    }
    (kept, record)
}

/// A peer that came ahead and is then taken over counts as if it had been taken at once, and one
/// for which there is no handle counts as if it had never come.
pub proof fn law_waiting_peers_count_once(counts: StreamCounts)
    requires
        counts.has_room(),
        counts.countable(),
    ensures
        counts.awaited().claimed() == counts.opened(),
        counts.awaited().claimed().closed() == counts,
        counts.opened().closed() == counts,
{
}

} // verus!
