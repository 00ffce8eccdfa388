//! Events on the clients of a capsule.
//!
//! Each connection of a client counts for one principal, from its connect event to its
//! disconnect event. The principal is the one that the host verified, and it is the same in
//! both, so that counts balance.

use vstd::prelude::*;

use crate::connections::ClientConnections;

verus! {

/// An event on the bus.
pub struct LifecycleEvent {
    pub topic: String,
    /// Why the client is gone, where it is.
    pub reason: Option<String>,
    pub principal: String,
}

impl LifecycleEvent {
    /// A client of this principal has come.
    pub open spec fn is_connect(self, principal: Seq<char>) -> bool {
        self.topic@ == "client.v1.connect"@ && self.reason is None && self.principal@ == principal
    }

    /// A client of this principal is gone.
    pub open spec fn is_disconnect(self, principal: Seq<char>) -> bool {
        &&& self.topic@ == "client.v1.disconnect"@
        &&& self.reason is Some
        &&& self.reason->Some_0@ == "socket closed"@
        &&& self.principal@ == principal
    }
}

/// Notes for whom a connection counts, and tells that it has come.
pub fn register_and_emit_connect(clients: &mut ClientConnections, rep: u32, principal: &str) -> (
    event: LifecycleEvent)
    ensures
        final(clients)@ == old(clients)@.insert(rep, principal@),
        event.is_connect(principal@),
{
    clients.bind(rep, principal.to_owned());
    LifecycleEvent {
        topic: "client.v1.connect".to_owned(),
        reason: None,
        principal: principal.to_owned(),
    }
}

/// Forgets a connection, and tells that it is gone. Nothing is told of what was never a client.
pub fn emit_client_disconnect(clients: &mut ClientConnections, rep: u32) -> (event: Option<
    LifecycleEvent,
>)
    ensures
        final(clients)@ == old(clients)@.remove(rep),
        match event {
            Some(told) => old(clients)@.contains_key(rep) && told.is_disconnect(old(clients)@[rep]),
            None => !old(clients)@.contains_key(rep),
        },
{
    match clients.unbind(rep) {
        None => None,
        Some(principal) => Some(
            LifecycleEvent {
                topic: "client.v1.disconnect".to_owned(),
                reason: Some("socket closed".to_owned()),
                principal,
            },
        ),
    }
}

/// How often the events count for a principal in all: up for each that came, down for each that
/// went.
pub open spec fn balance(events: Seq<LifecycleEvent>, principal: Seq<char>) -> int
    decreases events.len(),
{
    if events.len() == 0 {
        0
    } else {
        balance(events.drop_last(), principal) + (if events.last().is_connect(principal) {
            1int
        } else if events.last().is_disconnect(principal) {
            -1int
        } else {
            0int
        })
    }
}

/// The two events of one connection count for the same principal and leave every count where it
/// was, and so does the table of clients.
pub proof fn law_connection_balances(
    before: Map<u32, Seq<char>>,
    rep: u32,
    principal: Seq<char>,
    connect: LifecycleEvent,
    disconnect: LifecycleEvent,
    counted: Seq<char>,
)
    requires
        !before.contains_key(rep),
        connect.is_connect(principal),
        disconnect.is_disconnect(before.insert(rep, principal)[rep]),
    ensures
        before.insert(rep, principal).remove(rep) == before,
        balance(seq![connect, disconnect], counted) == 0,
        disconnect.principal@ == connect.principal@,
{
    reveal_strlit("client.v1.connect");
    reveal_strlit("client.v1.disconnect");
    assert("client.v1.connect"@.len() != "client.v1.disconnect"@.len());
    assert(before.insert(rep, principal).remove(rep) =~= before);
    let both = seq![connect, disconnect];
    assert(both.drop_last() =~= seq![connect]);
    assert(both.drop_last().drop_last() =~= Seq::<LifecycleEvent>::empty());
    assert(both.drop_last().last() == connect);
    reveal_with_fuel(balance, 3);
}

} // verus!
