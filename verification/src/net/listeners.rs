//! Servers of a capsule.
//!
//! A capsule may bind a few sockets, all of them on this machine. Where several stores of one
//! capsule serve the same port, they share one socket: the first binds it, the others hold it
//! too, and the last to let go of it closes it.

use std::collections::hash_map::RandomState;

use dashmap::DashMap;
use vstd::prelude::*;

use crate::audit::{AuditOutcome, AuditRecord};
use crate::host_state::types::PrincipalId;
use crate::net::audit::{audit_net_bind, is_bind};
use crate::net::hosts::{
    bind_host, bindable, concrete_host, host_valid, is_loopback, is_loopback_bind_host,
    stays_local, validate_host, IpAddr,
};
use crate::net::types::{is_unknown, map_io_err, maps_to, ErrorCode, IoError};
use crate::numbers::{decimal, show};
use crate::text::{concat2, concat3};

verus! {

/// How many sockets a capsule may have bound at a time.
pub const MAX_ACTIVE_TCP_LISTENERS: usize = 4;

/// A bound socket and how many stores hold it.
#[derive(Debug, Clone, Copy, PartialEq, Eq, Structural)]
pub struct SharedListener {
    pub socket: u64,
    pub holders: usize,
}

/// What a table of shared sockets holds for each host and port.
pub uninterp spec fn shared_sockets(table: DashMap<(String, u16), SharedListener, RandomState>) ->
    Map<(Seq<char>, u16), SharedListener>;

/// `DashMap::new` holds nothing.
#[verifier::external_body]
fn new_sockets() -> (table: DashMap<(String, u16), SharedListener, RandomState>)
    ensures
        forall|key: (Seq<char>, u16)| !(#[trigger] shared_sockets(table).dom().contains(key)),
{
    DashMap::new()
}

/// `DashMap::get` gives the value kept under the key.
#[verifier::external_body]
fn sockets_get(
    table: &DashMap<(String, u16), SharedListener, RandomState>,
    host: &str,
    port: u16,
) -> (value: Option<SharedListener>)
    ensures
        match value {
            Some(shared) => shared_sockets(*table).contains_key((host@, port)) && shared
                == shared_sockets(*table)[(host@, port)],
            None => !shared_sockets(*table).contains_key((host@, port)),
        },
{
    table.get(&(host.to_owned(), port)).map(|shared| *shared)
}

/// `DashMap::insert` keeps the value under the key, in place of what was there.
#[verifier::external_body]
fn sockets_insert(
    table: &mut DashMap<(String, u16), SharedListener, RandomState>,
    host: &str,
    port: u16,
    shared: SharedListener,
)
    ensures
        shared_sockets(*final(table)) == shared_sockets(*old(table)).insert((host@, port), shared),
{
    table.insert((host.to_owned(), port), shared);
}

/// `DashMap::remove` takes the key out.
#[verifier::external_body]
fn sockets_remove(
    table: &mut DashMap<(String, u16), SharedListener, RandomState>,
    host: &str,
    port: u16,
)
    ensures
        shared_sockets(*final(table)) == shared_sockets(*old(table)).remove((host@, port)),
{
    table.remove(&(host.to_owned(), port));
}

/// The bound sockets of one capsule.
pub struct TcpListeners {
    table: DashMap<(String, u16), SharedListener, RandomState>,
    count: usize,
}

/// The bound sockets as values.
pub struct ListenersView {
    pub shared: Map<(Seq<char>, u16), SharedListener>,
    /// How many sockets are bound, shared or not.
    pub count: int,
}

/// What a store holds of a bound socket.
pub enum Lease {
    /// The socket is its own.
    Own,
    /// It holds the shared socket of this host and port.
    Shared(String, u16),
}

/// What taking a socket comes to.
pub enum Take {
    /// The socket has to be bound first.
    Bind,
    /// This socket is taken, on this lease.
    Held(u64, Lease),
    /// There is none, and this is what is told of it.
    Failed(ErrorCode, String),
}

/// The address of a bound socket.
pub struct LocalAddr {
    pub text: String,
    pub ip: IpAddr,
}

/// What checking a bind comes to.
pub enum BindCheck {
    Failed(ErrorCode, Option<AuditRecord>),
    /// Bind this host. It was asked for as this address, and the socket may be shared or not.
    Go {
        host: String,
        addr: String,
        shareable: bool,
    },
}

impl Lease {
    /// The lease as a key of a shared socket.
    pub open spec fn key(self) -> Option<(Seq<char>, u16)> {
        match self {
            Lease::Own => None,
            Lease::Shared(host, port) => Some((host@, port)),
        }
    }
}

impl ListenersView {
    /// Every shared socket is held, and counts.
    pub open spec fn valid(self) -> bool {
        &&& 0 <= self.count <= MAX_ACTIVE_TCP_LISTENERS
        &&& forall|key: (Seq<char>, u16)| #[trigger]
            self.shared.contains_key(key) ==> self.shared[key].holders > 0
    }

    /// One more holder of a socket that is shared already.
    pub open spec fn joined(self, key: (Seq<char>, u16)) -> ListenersView {
        ListenersView {
            shared: self.shared.insert(
                key,
                SharedListener {
                    socket: self.shared[key].socket,
                    holders: (self.shared[key].holders + 1) as usize,
                },
            ),
            ..self
        }
    }

    /// A new socket, shared under a key or not.
    pub open spec fn bound(self, key: Option<(Seq<char>, u16)>, socket: u64) -> ListenersView {
        ListenersView {
            shared: match key {
                Some(k) => self.shared.insert(k, SharedListener { socket, holders: 1 }),
                None => self.shared,
            },
            count: self.count + 1,
        }
    }

    /// A holder lets go. The last one closes the socket, which then no longer counts.
    pub open spec fn let_go(self, key: Option<(Seq<char>, u16)>) -> ListenersView {
        match key {
            None => ListenersView { count: fewer(self.count), ..self },
            Some(k) => if !self.shared.contains_key(k) || self.shared[k].holders == 0 {
                self
            } else if self.shared[k].holders == 1 {
                ListenersView { shared: self.shared.remove(k), count: fewer(self.count) }
            } else {
                ListenersView {
                    shared: self.shared.insert(
                        k,
                        SharedListener {
                            socket: self.shared[k].socket,
                            holders: (self.shared[k].holders - 1) as usize,
                        },
                    ),
                    ..self
                }
            },
        }
    }
}

/// One less, and never below zero.
pub open spec fn fewer(n: int) -> int {
    if n > 0 {
        n - 1
    } else {
        n
    }
}

impl View for TcpListeners {
    type V = ListenersView;

    closed spec fn view(&self) -> ListenersView {
        ListenersView { shared: shared_sockets(self.table), count: self.count as int }
    }
}

/// What taking a socket comes to, and what is bound afterwards.
pub open spec fn taken(
    before: ListenersView,
    key: (Seq<char>, u16),
    shareable: bool,
    bound: Option<Result<u64, IoError>>,
    take: Take,
    after: ListenersView,
) -> bool {
    if shareable && before.shared.contains_key(key) {
        &&& take is Held
        &&& take->Held_0 == before.shared[key].socket
        &&& take->Held_1.key() == Some(key)
        &&& after == before.joined(key)
    } else {
        match bound {
            None => take is Bind && after == before,
            Some(Err(error)) => {
                &&& take is Failed
                &&& maps_to(error, take->Failed_0)
                &&& take->Failed_1@ == take->Failed_0.shown()
                &&& after == before
            },
            Some(Ok(socket)) => if before.count >= MAX_ACTIVE_TCP_LISTENERS {
                &&& take is Failed
                &&& take->Failed_0 == ErrorCode::Quota
                &&& take->Failed_1@ == "inbound TCP listener quota exceeded"@
                &&& after == before
            } else {
                &&& take is Held
                &&& take->Held_0 == socket
                &&& take->Held_1.key() == (if shareable {
                    Some(key)
                } else {
                    None
                })
                &&& after == before.bound(take->Held_1.key(), socket)
            },
        }
    }
}

/// The address that a bind is told under.
pub open spec fn asked_addr(host: Seq<char>, port: u16) -> Seq<char> {
    "tcp:"@ + host + ":"@ + decimal(port as nat)
}

/// Checks a bind: the name first, then the answer of the security gate, then that the host stays
/// on this machine. `refusal` is why the security gate refused, if it did. Only stores that share their
/// sockets share this one, and never a port that the system picks.
pub fn bind_check(
    principal: &PrincipalId,
    host: &str,
    port: u16,
    ip: Option<IpAddr>,
    refusal: &Option<String>,
    share_tcp_listeners: bool,
) -> (check: BindCheck)
    ensures
        if !host_valid(host@) {
            check == BindCheck::Failed(ErrorCode::AddressNotAvailable, None)
        } else if *refusal is Some {
            &&& check is Failed
            &&& check->Failed_0 == ErrorCode::CapabilityDenied
            &&& check->Failed_1 is Some
            &&& is_bind(check->Failed_1->Some_0, *principal, asked_addr(host@, port))
            &&& check->Failed_1->Some_0.outcome is Denied
            &&& check->Failed_1->Some_0.outcome->Denied_0@ == refusal->Some_0@
        } else if !bindable(host@, ip) {
            &&& check is Failed
            &&& check->Failed_0 == ErrorCode::AirlockRejected
            &&& check->Failed_1 is Some
            &&& is_bind(check->Failed_1->Some_0, *principal, asked_addr(host@, port))
            &&& check->Failed_1->Some_0.outcome is Failed
            &&& check->Failed_1->Some_0.outcome->Failed_0@
                == "non-loopback TCP bind refused (capsule servers are loopback-only)"@
        } else {
            &&& check is Go
            &&& check->host@ == bind_host(host@)
            &&& check->addr@ == asked_addr(host@, port)
            &&& check->shareable == (share_tcp_listeners && port != 0)
        },
{
    match validate_host(host) {
        Err(code) => {
            return BindCheck::Failed(code, None);
        },
        Ok(()) => {},
    }
    let named = concat3("tcp:", host, ":");
    let addr = concat2(named.as_str(), show(port as u64).as_str());
    match refusal {
        Some(reason) => {
            let record = audit_net_bind(
                principal,
                addr.as_str(),
                AuditOutcome::Denied(reason.clone()),
            );
            return BindCheck::Failed(ErrorCode::CapabilityDenied, Some(record));
        },
        None => {},
    }
    if !is_loopback_bind_host(host, ip) {
        let record = audit_net_bind(
            principal,
            addr.as_str(),
            AuditOutcome::Failed(
                "non-loopback TCP bind refused (capsule servers are loopback-only)".to_owned(),
            ),
        );
        return BindCheck::Failed(ErrorCode::AirlockRejected, Some(record));
    }
    BindCheck::Go {
        host: concrete_host(host),
        addr,
        shareable: share_tcp_listeners && port != 0,
    }
}

/// The address under which binding the control socket is told.
pub open spec fn control_addr() -> Seq<char> {
    "unix:cli-socket"@
}

/// What binding the control socket comes to.
pub enum UnixBind {
    /// A handle is needed.
    Keep,
    Finish(Result<u32, ErrorCode>, AuditRecord),
}

/// Binds the control socket, which the host has opened already: all there is to it is a handle.
/// `refusal` is why the security gate refused, if it did, and `kept` is what came of making the
/// handle.
pub fn bind_unix(
    principal: &PrincipalId,
    refusal: &Option<String>,
    kept: &Option<Result<u32, String>>,
) -> (bind: UnixBind)
    ensures
        match *refusal {
            Some(reason) => {
                &&& bind is Finish
                &&& bind->Finish_0 == Err::<u32, ErrorCode>(ErrorCode::CapabilityDenied)
                &&& is_bind(bind->Finish_1, *principal, control_addr())
                &&& bind->Finish_1.outcome is Denied
                &&& bind->Finish_1.outcome->Denied_0@ == reason@
            },
            None => match *kept {
                None => bind is Keep,
                Some(Err(text)) => {
                    &&& bind is Finish
                    &&& bind->Finish_0 is Err
                    &&& is_unknown(bind->Finish_0->Err_0, "resource table: "@ + text@)
                    &&& is_bind(bind->Finish_1, *principal, control_addr())
                    &&& bind->Finish_1.outcome is Failed
                    &&& bind->Finish_1.outcome->Failed_0@ == "resource table: "@ + text@
                },
                Some(Ok(rep)) => {
                    &&& bind is Finish
                    &&& bind->Finish_0 == Ok::<u32, ErrorCode>(rep)
                    &&& is_bind(bind->Finish_1, *principal, control_addr())
                    &&& bind->Finish_1.outcome is Allowed
                },
            },
        },
{
    match refusal {
        Some(reason) => {
            let record = audit_net_bind(
                principal,
                "unix:cli-socket",
                AuditOutcome::Denied(reason.clone()),
            );
            return UnixBind::Finish(Err(ErrorCode::CapabilityDenied), record);
        },
        None => {},
    }
    match kept {
        None => UnixBind::Keep,
        Some(Err(text)) => {
            let reason = concat2("resource table: ", text.as_str());
            let record = audit_net_bind(
                principal,
                "unix:cli-socket",
                AuditOutcome::Failed(reason.clone()),
            );
            UnixBind::Finish(Err(ErrorCode::Unknown(reason)), record)
        },
        Some(Ok(rep)) => {
            let record = audit_net_bind(principal, "unix:cli-socket", AuditOutcome::Allowed);
            UnixBind::Finish(Ok(*rep), record)
        },
    }
}

impl TcpListeners {
    /// Nothing is bound.
    pub fn new() -> (listeners: Self)
        ensures
            listeners@.valid(),
            listeners@.count == 0,
            listeners@.shared == Map::<(Seq<char>, u16), SharedListener>::empty(),
    {
        let listeners = TcpListeners { table: new_sockets(), count: 0 };
        assert(listeners@.shared =~= Map::<(Seq<char>, u16), SharedListener>::empty());
        listeners
    }

    /// How many sockets are bound.
    pub fn count(&self) -> (n: usize)
        ensures
            n == self@.count,
    {
        self.count
    }

    /// How many stores hold the shared socket of a host and port.
    pub fn holders(&self, host: &str, port: u16) -> (n: usize)
        ensures
            n == (if self@.shared.contains_key((host@, port)) {
                self@.shared[(host@, port)].holders
            } else {
                0
            }),
    {
        match sockets_get(&self.table, host, port) {
            Some(shared) => shared.holders,
            None => 0,
        }
    }

    /// Takes a socket for a host and port. A socket that is shared already is held by one more
    /// store, without a further charge. Else the socket has to be bound, and `bound` is what came
    /// of it; a bound socket is charged against the quota before anybody else can share it.
    pub fn take(
        &mut self,
        host: &str,
        port: u16,
        shareable: bool,
        bound: &Option<Result<u64, IoError>>,
    ) -> (take: Take)
        requires
            old(self)@.valid(),
            old(self)@.shared.contains_key((host@, port)) ==> old(self)@.shared[(host@, port)].holders
                < usize::MAX,
        ensures
            final(self)@.valid(),
            taken(old(self)@, (host@, port), shareable, *bound, take, final(self)@),
    {
        if shareable {
            match sockets_get(&self.table, host, port) {
                Some(shared) => {
                    let more = SharedListener { socket: shared.socket, holders: shared.holders + 1 };
                    sockets_insert(&mut self.table, host, port, more);
                    assert(self@ == old(self)@.joined((host@, port)));
                    return Take::Held(shared.socket, Lease::Shared(host.to_owned(), port));
                },
                None => {},
            }
        }
        match bound {
            None => Take::Bind,
            Some(Err(error)) => {
                let code = map_io_err(error);
                let reason = code.show();
                Take::Failed(code, reason)
            },
            Some(Ok(socket)) => {
                if self.count >= MAX_ACTIVE_TCP_LISTENERS {
                    return Take::Failed(
                        ErrorCode::Quota,
                        "inbound TCP listener quota exceeded".to_owned(),
                    );
                }
                self.count = self.count + 1;
                if shareable {
                    let first = SharedListener { socket: *socket, holders: 1 };
                    sockets_insert(&mut self.table, host, port, first);
                    Take::Held(*socket, Lease::Shared(host.to_owned(), port))
                } else {
                    Take::Held(*socket, Lease::Own)
                }
            },
        }
    }

    /// Lets go of a socket.
    pub fn release(&mut self, lease: &Lease)
        ensures
            final(self)@ == old(self)@.let_go(lease.key()),
            old(self)@.valid() ==> final(self)@.valid(),
    {
        match lease {
            Lease::Own => {
                if self.count > 0 {
                    self.count = self.count - 1;
                }
            },
            Lease::Shared(host, port) => match sockets_get(&self.table, host.as_str(), *port) {
                None => {},
                Some(shared) => {
                    if shared.holders == 1 {
                        sockets_remove(&mut self.table, host.as_str(), *port);
                        if self.count > 0 {
                            self.count = self.count - 1;
                        }
                    } else if shared.holders > 1 {
                        let fewer = SharedListener {
                            socket: shared.socket,
                            holders: shared.holders - 1,
                        };
                        sockets_insert(&mut self.table, host.as_str(), *port, fewer);
                    }
                },
            },
        }
    }

    /// Holds the address of a bound socket against the rule that it stays on this machine. A
    /// socket that does not, or whose address cannot be read, is let go of.
    pub fn settle(
        &mut self,
        principal: &PrincipalId,
        addr: &str,
        lease: &Lease,
        local: &Result<LocalAddr, IoError>,
    ) -> (r: Result<String, (ErrorCode, AuditRecord)>)
        requires
            old(self)@.valid(),
        ensures
            final(self)@.valid(),
            match *local {
                Ok(at) => if stays_local(at.ip) {
                    &&& r is Ok
                    &&& r->Ok_0@ == "tcp:"@ + at.text@
                    &&& final(self)@ == old(self)@
                } else {
                    &&& r is Err
                    &&& r->Err_0.0 == ErrorCode::AirlockRejected
                    &&& is_bind(r->Err_0.1, *principal, addr@)
                    &&& r->Err_0.1.outcome is Failed
                    &&& r->Err_0.1.outcome->Failed_0@ == "resolved bind escaped loopback: "@
                        + at.text@
                    &&& final(self)@ == old(self)@.let_go(lease.key())
                },
                Err(error) => {
                    &&& r is Err
                    &&& maps_to(error, r->Err_0.0)
                    &&& is_bind(r->Err_0.1, *principal, addr@)
                    &&& r->Err_0.1.outcome is Failed
                    &&& r->Err_0.1.outcome->Failed_0@ == r->Err_0.0.shown()
                    &&& final(self)@ == old(self)@.let_go(lease.key())
                },
            },
    {
        match local {
            Ok(at) => {
                if is_loopback(at.ip) {
                    return Ok(concat2("tcp:", at.text.as_str()));
                }
                let reason = concat2("resolved bind escaped loopback: ", at.text.as_str());
                let record = audit_net_bind(principal, addr, AuditOutcome::Failed(reason));
                self.release(lease);
                Err((ErrorCode::AirlockRejected, record))
            },
            Err(error) => {
                let code = map_io_err(error);
                let record = audit_net_bind(principal, addr, AuditOutcome::Failed(code.show()));
                self.release(lease);
                Err((code, record))
            },
        }
    }

    /// Ends a bind. Where there is no handle for the socket, it is let go of.
    pub fn finish(
        &mut self,
        principal: &PrincipalId,
        asked: &str,
        actual: &str,
        lease: &Lease,
        kept: &Result<u32, String>,
    ) -> (r: (Result<u32, ErrorCode>, AuditRecord))
        requires
            old(self)@.valid(),
        ensures
            final(self)@.valid(),
            match *kept {
                Ok(rep) => {
                    &&& r.0 == Ok::<u32, ErrorCode>(rep)
                    &&& is_bind(r.1, *principal, actual@)
                    &&& r.1.outcome is Allowed
                    &&& final(self)@ == old(self)@
                },
                Err(text) => {
                    &&& r.0 is Err
                    &&& is_unknown(r.0->Err_0, "resource table: "@ + text@)
                    &&& is_bind(r.1, *principal, asked@)
                    &&& r.1.outcome is Failed
                    &&& r.1.outcome->Failed_0@ == "resource table: "@ + text@
                    &&& final(self)@ == old(self)@.let_go(lease.key())
                },
            },
    {
        match kept {
            Ok(rep) => (Ok(*rep), audit_net_bind(principal, actual, AuditOutcome::Allowed)),
            Err(text) => {
                let reason = concat2("resource table: ", text.as_str());
                let record = audit_net_bind(
                    principal,
                    asked,
                    AuditOutcome::Failed(reason.clone()),
                );
                self.release(lease);
                (Err(ErrorCode::Unknown(reason)), record)
            },
        }
    }
}

/// Letting go of what was taken leaves everything as it was before.
pub proof fn law_release_undoes_take(
    before: ListenersView,
    key: (Seq<char>, u16),
    shareable: bool,
    bound: Option<Result<u64, IoError>>,
    take: Take,
    after: ListenersView,
)
    requires
        before.valid(),
        before.shared.contains_key(key) ==> before.shared[key].holders < usize::MAX,
        taken(before, key, shareable, bound, take, after),
        take is Held,
    ensures
        after.let_go(take->Held_1.key()) == before,
{
    let end = after.let_go(take->Held_1.key());
    assert(end.shared =~= before.shared);
    assert(end == before);
}

/// Stores that share a port hold one socket, and only the first is charged for it.
pub proof fn law_sharers_hold_one_socket(
    before: ListenersView,
    key: (Seq<char>, u16),
    socket: u64,
    first: Take,
    middle: ListenersView,
    second: Take,
    after: ListenersView,
)
    requires
        before.valid(),
        !before.shared.contains_key(key),
        taken(before, key, true, Some(Ok(socket)), first, middle),
        first is Held,
        taken(middle, key, true, None, second, after),
    ensures
        second is Held,
        second->Held_0 == first->Held_0,
        after.count == middle.count,
        middle.count == before.count + 1,
        after.let_go(Some(key)).count == after.count,
        after.let_go(Some(key)).let_go(Some(key)).count == before.count,
        !after.let_go(Some(key)).let_go(Some(key)).shared.contains_key(key),
{
}

/// No more sockets are bound than the quota allows, whatever is taken and let go of.
pub proof fn law_listeners_stay_within_quota(
    before: ListenersView,
    key: (Seq<char>, u16),
    shareable: bool,
    bound: Option<Result<u64, IoError>>,
    take: Take,
    after: ListenersView,
    lease: Option<(Seq<char>, u16)>,
)
    requires
        before.valid(),
        before.shared.contains_key(key) ==> before.shared[key].holders < usize::MAX,
        taken(before, key, shareable, bound, take, after),
    ensures
        after.count <= MAX_ACTIVE_TCP_LISTENERS,
        after.valid(),
        after.let_go(lease).valid(),
{
}

} // verus!
