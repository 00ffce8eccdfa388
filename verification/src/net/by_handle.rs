//! The network interface in which streams are known by numbers and errors by texts.

use vstd::prelude::*;

use crate::net::accept::{Attempt, Handshake};
use crate::net::connect::{leads_inside, ResolvedAddr};
use crate::net::quota::MAX_ACTIVE_STREAMS;
use crate::net::types::{IoError, NetReadStatus};
use crate::numbers::{decimal, show};
use crate::text::{concat2, concat3};

verus! {

/// The open streams. Numbers are never given out twice.
pub struct StreamTable {
    open: Vec<u64>,
    next: u64,
}

/// The open streams as values.
pub struct TableView {
    pub open: Seq<u64>,
    pub next: u64,
}

impl View for StreamTable {
    type V = TableView;

    closed spec fn view(&self) -> TableView {
        TableView { open: self.open@, next: self.next }
    }
}

impl TableView {
    /// Every open stream has a number of its own that was given out.
    pub open spec fn valid(self) -> bool {
        &&& self.open.no_duplicates()
        &&& forall|i: int| 0 <= i < self.open.len() ==> (#[trigger] self.open[i]) < self.next
    }

    /// There are as many streams as there may be.
    pub open spec fn full(self) -> bool {
        self.open.len() >= MAX_ACTIVE_STREAMS
    }
}

/// What a capsule is told when it has as many streams as it may.
pub open spec fn cap_text(n: int) -> Seq<char> {
    "connection cap reached ("@ + decimal(n as nat) + "/8)"@
}

/// What a capsule is told when it has as many streams as it may.
fn cap_message(n: usize) -> (text: String)
    ensures
        text@ == cap_text(n as int),
{
    concat3("connection cap reached (", show(n as u64).as_str(), "/8)")
}

/// What adding a stream comes to.
pub open spec fn added(before: TableView, r: Result<u64, String>, after: TableView) -> bool {
    if before.next == u64::MAX {
        r is Err && r->Err_0@ == "stream handle ID space exhausted"@ && after == before
    } else {
        &&& r == Ok::<u64, String>(before.next)
        &&& after.open == before.open.push(before.next)
        &&& after.next == before.next + 1
    }
}

impl StreamTable {
    /// No stream is open, and `next` is the first number.
    pub fn new(next: u64) -> (table: Self)
        ensures
            table@.valid(),
            table@.open.len() == 0,
            table@.next == next,
    {
        StreamTable { open: Vec::new(), next }
    }

    /// How many streams are open.
    pub fn len(&self) -> (n: usize)
        ensures
            n == self@.open.len(),
    {
        self.open.len()
    }

    /// Adds a stream and gives its number.
    fn add_stream(&mut self) -> (r: Result<u64, String>)
        requires
            old(self)@.valid(),
        ensures
            final(self)@.valid(),
            added(old(self)@, r, final(self)@),
    {
        let handle: u64 = self.next;
        if handle == 0xffff_ffff_ffff_ffff {
            return Err("stream handle ID space exhausted".to_owned());
        }
        self.next = handle + 1;
        self.open.push(handle);
        proof {
            let before = old(self)@.open;
            let after = self.open@;
            assert forall|i: int, j: int| 0 <= i < after.len() && 0 <= j < after.len() && i
                != j implies after[i] != after[j] by {
                if i < before.len() {
                    assert(before[i] < old(self)@.next);
                }
                if j < before.len() {
                    assert(before[j] < old(self)@.next);
                }
            }
        }
        Ok(handle)
    }

    /// Whether a stream is open.
    pub fn is_open(&self, handle: u64) -> (r: bool)
        ensures
            r == self@.open.contains(handle),
    {
        let mut i: usize = 0;
        while i < self.open.len()
            invariant
                i <= self.open@.len(),
                forall|k: int| 0 <= k < i ==> self.open@[k] != handle,
            decreases self.open.len() - i,
        {
            if self.open[i] == handle {
                assert(self.open@[i as int] == handle);
                return true;
            }
            i += 1;
        }
        false
    }

    /// Closes a stream. Closing one that is not open does nothing.
    pub fn net_close_stream(&mut self, handle: u64)
        requires
            old(self)@.valid(),
        ensures
            final(self)@.valid(),
            final(self)@.next == old(self)@.next,
            !final(self)@.open.contains(handle),
            !old(self)@.open.contains(handle) ==> final(self)@ == old(self)@,
            old(self)@.open.contains(handle) ==> exists|i: int|
                0 <= i < old(self)@.open.len() && old(self)@.open[i] == handle
                    && final(self)@.open == #[trigger] old(self)@.open.remove(i),
    {
        let ghost before = self.open@;
        let mut i: usize = 0;
        while i < self.open.len()
            invariant
                i <= self.open@.len(),
                self.open@ == before,
                self.next == old(self)@.next,
                before == old(self)@.open,
                old(self)@.valid(),
                forall|k: int| 0 <= k < i ==> self.open@[k] != handle,
            decreases self.open.len() - i,
        {
            if self.open[i] == handle {
                let _ = self.open.remove(i);
                proof {
                    let after = self.open@;
                    assert(after == before.remove(i as int));
                    assert(before[i as int] == handle);
                    assert forall|k: int| 0 <= k < after.len() implies after[k] != handle && after[k]
                        < self.next by {
                        if k < i {
                            assert(after[k] == before[k]);
                        } else {
                            assert(after[k] == before[k + 1]);
                        }
                    }
                    assert forall|a: int, b: int| 0 <= a < after.len() && 0 <= b < after.len() && a
                        != b implies after[a] != after[b] by {
                        let x = if a < i {
                            a
                        } else {
                            a + 1
                        };
                        let y = if b < i {
                            b
                        } else {
                            b + 1
                        };
                        assert(after[a] == before[x]);
                        assert(after[b] == before[y]);
                    }
                }
                return;
            }
            i += 1;
        }
    }

    /// Whether a client may be waited for: first that there is room, then that there is a
    /// listener.
    pub fn may_accept(&self, has_listener: bool) -> (r: Result<(), String>)
        ensures
            if self@.full() {
                r is Err && r->Err_0@ == cap_text(self@.open.len() as int)
            } else if !has_listener {
                r is Err && r->Err_0@ == "No CLI Socket Listener available in HostState"@
            } else {
                r is Ok
            },
    {
        if self.open.len() >= MAX_ACTIVE_STREAMS {
            return Err(cap_message(self.open.len()));
        }
        if !has_listener {
            return Err("No CLI Socket Listener available in HostState".to_owned());
        }
        Ok(())
    }

    /// What an attempt to accept a client comes to: none where it has to be tried again. A
    /// client that is refused never ends the wait.
    pub fn net_accept(&mut self, attempt: &Attempt) -> (r: Option<Result<u64, String>>)
        requires
            old(self)@.valid(),
        ensures
            final(self)@.valid(),
            match *attempt {
                Attempt::Cancelled => {
                    &&& r is Some
                    &&& r->Some_0 is Err
                    &&& r->Some_0->Err_0@ == "capsule unloading"@
                    &&& final(self)@ == old(self)@
                },
                Attempt::Came(Handshake::Cancelled) => {
                    &&& r is Some
                    &&& r->Some_0 is Err
                    &&& r->Some_0->Err_0@ == "capsule unloading"@
                    &&& final(self)@ == old(self)@
                },
                Attempt::Failed(error) => {
                    &&& r is Some
                    &&& r->Some_0 is Err
                    &&& r->Some_0->Err_0@ == "accept error: "@ + error.text@
                    &&& final(self)@ == old(self)@
                },
                Attempt::TimedOut => r is None && final(self)@ == old(self)@,
                Attempt::Stranger(_) => r is None && final(self)@ == old(self)@,
                Attempt::Came(Handshake::Refused(_)) => r is None && final(self)@ == old(self)@,
                _ => {
                    &&& r is Some
                    &&& if old(self)@.full() {
                        &&& r->Some_0 is Err
                        &&& r->Some_0->Err_0@ == cap_text(old(self)@.open.len() as int)
                        &&& final(self)@ == old(self)@
                    } else {
                        added(old(self)@, r->Some_0, final(self)@)
                    }
                },
            },
    {
        match attempt {
            Attempt::Cancelled => {
                return Some(Err("capsule unloading".to_owned()));
            },
            Attempt::Came(Handshake::Cancelled) => {
                return Some(Err("capsule unloading".to_owned()));
            },
            Attempt::Failed(error) => {
                return Some(Err(concat2("accept error: ", error.text.as_str())));
            },
            Attempt::TimedOut => {
                return None;
            },
            Attempt::Stranger(_) => {
                return None;
            },
            Attempt::Came(Handshake::Refused(_)) => {
                return None;
            },
            Attempt::Came(Handshake::NotNeeded) => {},
            Attempt::Came(Handshake::Passed(_)) => {},
        }
        if self.open.len() >= MAX_ACTIVE_STREAMS {
            return Some(Err(cap_message(self.open.len())));
        }
        Some(self.add_stream())
    }

    /// Whether looking for a client makes sense: there has to be a listener, and without room
    /// nobody comes.
    pub fn may_poll(&self, has_listener: bool) -> (r: Result<bool, String>)
        ensures
            if !has_listener {
                r is Err && r->Err_0@ == "No CLI Socket Listener available in HostState"@
            } else {
                r == Ok::<bool, String>(!self@.full())
            },
    {
        if !has_listener {
            return Err("No CLI Socket Listener available in HostState".to_owned());
        }
        Ok(self.open.len() < MAX_ACTIVE_STREAMS)
    }

    /// What looking for a client once comes to. Whatever keeps one from being let in, nobody
    /// came; only a broken listener is an error.
    pub fn net_poll_accept(&mut self, attempt: &Attempt) -> (r: Result<Option<u64>, String>)
        requires
            old(self)@.valid(),
        ensures
            final(self)@.valid(),
            match *attempt {
                Attempt::Failed(error) => {
                    &&& r is Err
                    &&& r->Err_0@ == "accept error: "@ + error.text@
                    &&& final(self)@ == old(self)@
                },
                Attempt::Came(handshake) => if (handshake is NotNeeded || handshake is Passed)
                    && !old(self)@.full() {
                    match r {
                        Ok(handle) => handle is Some && added(
                            old(self)@,
                            Ok::<u64, String>(handle->Some_0),
                            final(self)@,
                        ),
                        Err(text) => added(old(self)@, Err::<u64, String>(text), final(self)@),
                    }
                } else {
                    r == Ok::<Option<u64>, String>(None) && final(self)@ == old(self)@
                },
                _ => r == Ok::<Option<u64>, String>(None) && final(self)@ == old(self)@,
            },
    {
        match attempt {
            Attempt::Failed(error) => {
                return Err(concat2("accept error: ", error.text.as_str()));
            },
            Attempt::Came(Handshake::NotNeeded) => {},
            Attempt::Came(Handshake::Passed(_)) => {},
            _ => {
                return Ok(None);
            },
        }
        if self.open.len() >= MAX_ACTIVE_STREAMS {
            return Ok(None);
        }
        match self.add_stream() {
            Ok(handle) => Ok(Some(handle)),
            Err(text) => Err(text),
        }
    }

    /// What a read of a frame comes to. One that was cancelled looks as if nothing had arrived.
    pub fn net_read(&self, handle: u64, outcome: Option<Result<NetReadStatus, String>>) -> (r:
        Result<NetReadStatus, String>)
        ensures
            if !self@.open.contains(handle) {
                r is Err && r->Err_0@ == "Stream handle not found"@
            } else {
                match outcome {
                    Some(result) => r == result,
                    None => r == Ok::<NetReadStatus, String>(NetReadStatus::Pending),
                }
            },
    {
        if !self.is_open(handle) {
            return Err("Stream handle not found".to_owned());
        }
        match outcome {
            Some(result) => result,
            None => Ok(NetReadStatus::Pending),
        }
    }

    /// What a write of a frame comes to. One that failed is passed over: the next read shows
    /// that the peer is gone. `None` means that it was cancelled.
    pub fn net_write(&self, handle: u64, outcome: &Option<Result<(), IoError>>) -> (r: Result<
        (),
        String,
    >)
        ensures
            if !self@.open.contains(handle) {
                r is Err && r->Err_0@ == "Stream handle not found"@
            } else if *outcome is None {
                r is Err && r->Err_0@ == "capsule unloading"@
            } else {
                r is Ok
            },
    {
        if !self.is_open(handle) {
            return Err("Stream handle not found".to_owned());
        }
        match outcome {
            Some(_) => Ok(()),
            None => Err("capsule unloading".to_owned()),
        }
    }

    /// Whether a connection may be opened. `refusal` is why the security gate refused, if it did.
    pub fn may_connect(&self, refusal: &Option<String>) -> (r: Result<(), String>)
        ensures
            match *refusal {
                Some(reason) => r is Err && r->Err_0@ == "security denied net_connect: "@ + reason@,
                None => if self@.full() {
                    r is Err && r->Err_0@ == cap_text(self@.open.len() as int)
                } else {
                    r is Ok
                },
            },
    {
        match refusal {
            Some(reason) => {
                return Err(concat2("security denied net_connect: ", reason.as_str()));
            },
            None => {},
        }
        if self.open.len() >= MAX_ACTIVE_STREAMS {
            return Err(cap_message(self.open.len()));
        }
        Ok(())
    }

    /// What opening a connection comes to. A name that leads anywhere inside is refused as a
    /// whole, whatever became of connecting to it.
    pub fn net_connect_tcp(&mut self, answer: &DialAnswer) -> (r: Result<u64, String>)
        requires
            old(self)@.valid(),
        ensures
            final(self)@.valid(),
            if connected(*answer) && !old(self)@.full() {
                added(old(self)@, r, final(self)@)
            } else {
                &&& r is Err
                &&& final(self)@ == old(self)@
                &&& if connected(*answer) {
                    r->Err_0@ == cap_text(old(self)@.open.len() as int)
                } else {
                    dial_failure(*answer, r->Err_0@)
                }
            },
    {
        match answer {
            DialAnswer::Cancelled => Err("capsule unloading".to_owned()),
            DialAnswer::TimedOut => Err("connect timeout after 10s".to_owned()),
            DialAnswer::LookupFailed(text) => Err(concat2("dns: ", text.as_str())),
            DialAnswer::Resolved(addrs, tried) => {
                match check_dial(addrs) {
                    Err(text) => {
                        return Err(text);
                    },
                    Ok(()) => {},
                }
                match tried {
                    Err(text) => {
                        return Err(concat2("connect: ", text.as_str()));
                    },
                    Ok(()) => {},
                }
                if self.open.len() >= MAX_ACTIVE_STREAMS {
                    return Err(cap_message(self.open.len()));
                }
                self.add_stream()
            },
        }
    }
}

/// What became of looking a name up and connecting to it.
pub enum DialAnswer {
    Cancelled,
    TimedOut,
    /// The name could not be looked up.
    LookupFailed(String),
    /// It leads to these addresses, and this became of connecting to them.
    Resolved(Vec<ResolvedAddr>, Result<(), String>),
}

/// The addresses may be connected to.
pub open spec fn dialable(addrs: Seq<ResolvedAddr>) -> bool {
    addrs.len() > 0 && !leads_inside(addrs)
}

/// The outside has connected to what may be connected to.
pub open spec fn connected(answer: DialAnswer) -> bool {
    match answer {
        DialAnswer::Resolved(addrs, tried) => dialable(addrs@) && tried is Ok,
        _ => false,
    }
}

/// `text` is what a capsule is told of addresses that may not be connected to: that there are
/// none, or the first that leads inside.
pub open spec fn refuses_dial(addrs: Seq<ResolvedAddr>, text: Seq<char>) -> bool {
    if addrs.len() == 0 {
        text == "dns: no addresses returned"@
    } else {
        exists|i: int|
            0 <= i < addrs.len() && !(#[trigger] addrs[i]).safe && text == inside_text(
                addrs[i].text@,
            ) && forall|k: int| 0 <= k < i ==> (#[trigger] addrs[k]).safe
    }
}

/// `text` is what a capsule is told of a connection that was not made.
pub open spec fn dial_failure(answer: DialAnswer, text: Seq<char>) -> bool {
    match answer {
        DialAnswer::Cancelled => text == "capsule unloading"@,
        DialAnswer::TimedOut => text == "connect timeout after 10s"@,
        DialAnswer::LookupFailed(why) => text == "dns: "@ + why@,
        DialAnswer::Resolved(addrs, tried) => if !dialable(addrs@) {
            refuses_dial(addrs@, text)
        } else {
            tried is Err && text == "connect: "@ + tried->Err_0@
        },
    }
}

/// What a capsule is told of an address that leads inside.
pub open spec fn inside_text(addr: Seq<char>) -> Seq<char> {
    "net.connect-tcp denied: resolved IP "@ + addr
        + " is in a private/loopback/link-local range (SSRF protection)"@
}

/// Whether the addresses of a name may be connected to. The first that leads inside is told.
pub fn check_dial(addrs: &Vec<ResolvedAddr>) -> (r: Result<(), String>)
    ensures
        match r {
            Ok(()) => dialable(addrs@),
            Err(text) => !dialable(addrs@) && refuses_dial(addrs@, text@),
        },
{
    if addrs.len() == 0 {
        return Err("dns: no addresses returned".to_owned());
    }
    let mut i: usize = 0;
    while i < addrs.len()
        invariant
            0 < addrs@.len(),
            i <= addrs@.len(),
            forall|k: int| 0 <= k < i ==> (#[trigger] addrs@[k]).safe,
        decreases addrs.len() - i,
    {
        if !addrs[i].safe {
            assert(!addrs@[i as int].safe);
            let text = concat3(
                "net.connect-tcp denied: resolved IP ",
                addrs[i].text.as_str(),
                " is in a private/loopback/link-local range (SSRF protection)",
            );
            return Err(text);
        }
        i += 1;
    }
    Ok(())
}

/// Whether the local socket may be served. The socket is there already, so its handle is fixed.
pub fn net_bind_unix(refusal: &Option<String>) -> (r: Result<u64, String>)
    ensures
        match *refusal {
            Some(reason) => r is Err && r->Err_0@ == "security denied net_bind: "@ + reason@,
            None => r == Ok::<u64, String>(1),
        },
{
    match refusal {
        Some(reason) => Err(concat2("security denied net_bind: ", reason.as_str())),
        None => Ok(1),
    }
}

/// There are never more streams than there may be, and no number is given out twice: a stream
/// that was closed leaves its number behind.
pub proof fn law_handles_are_fresh(before: TableView, r: Result<u64, String>, after: TableView)
    requires
        before.valid(),
        !before.full(),
        added(before, r, after),
        r is Ok,
    ensures
        !before.open.contains(r->Ok_0),
        after.open.contains(r->Ok_0),
        after.open.len() <= MAX_ACTIVE_STREAMS,
        r->Ok_0 >= before.next,
        after.next > r->Ok_0,
{
    assert(after.open[before.open.len() as int] == r->Ok_0);
}

} // verus!
