//! What a capsule can rely on when it reaches out and moves bytes.

use vstd::prelude::*;

use crate::audit::{AuditOutcome, AuditRecord};
use crate::connections::{ClientConnections, ConnectionIdentity, Connections};
use crate::host_state::types::{MessageOrigin, PrincipalId};
use crate::net::accept::{Attempt, Handshake};
use crate::net::audit::{audit_net_accept, audit_net_bind, audit_net_connect, connect_denied};
use crate::net::by_handle::{check_dial, inside_text, net_bind_unix, DialAnswer, StreamTable};
use crate::net::connect::{
    connect_tcp, leads_inside, lookup_check, lookup_host, outside, ConnectAnswer, ConnectAnswers, ConnectStep,
    LookupAnswer, ResolvedAddr,
};
use crate::net::frame::{encode_frame, FrameEvent, FrameReadState, FrameStep};
use crate::net::hosts::{
    concrete_host, is_loopback, is_loopback_bind_host, validate_host, IpAddr,
};
use crate::net::lifecycle::LifecycleEvent;
use crate::net::quota::StreamCounts;
use crate::net::stream::{
    close_stream, keepalive, keepalive_secs, linger, peek_result, read_bytes_result, read_limit, read_result,
    with_tcp_stream, write_bytes_result, write_deadline, write_result, ByteRead, ByteWrite,
    FrameWrite, Ingress, Transport,
};
use crate::net::types::{
    is_peer_disconnect, map_io_err, map_write_frame_err, ErrorCode, IoError, IoErrorKind,
    NetReadStatus,
};
use crate::numbers::show;
use crate::process::types::quoted;
use crate::text::views;

verus! {

/// An error of the operating system reaches the capsule as the error of the same meaning; a
/// connection that was aborted or broken counts as reset, and what has no name keeps its text.
pub proof fn law_system_errors_keep_their_meaning(error: &IoError, code: ErrorCode)
    requires
        call_ensures(map_io_err, (error,), code),
    ensures
        error.kind is WouldBlock <==> code is WouldBlock,
        error.kind is ConnectionRefused <==> code is ConnectionRefused,
        error.kind is ConnectionReset || error.kind is ConnectionAborted || error.kind is BrokenPipe
            <==> code is ConnectionReset,
        error.kind is TimedOut <==> code is Timeout,
        error.kind is AddrInUse <==> code is AddressInUse,
        error.kind is AddrNotAvailable <==> code is AddressNotAvailable,
        error.kind is UnexpectedEof || error.kind is PermissionDenied || error.kind is InvalidInput
            || error.kind is Other <==> code is Unknown,
        code is Unknown ==> code->Unknown_0@ == error.text@,
{
}

/// Whoever writes to a peer that is gone is told that the connection was reset; any other failure
/// is told with its text. A peer is gone when the pipe broke, when the connection was reset or
/// aborted, or when the stream ended early, and in no other case.
pub proof fn law_gone_peers_reset_writes(error: &IoError, gone: bool, code: ErrorCode)
    requires
        call_ensures(is_peer_disconnect, (error,), gone),
        call_ensures(map_write_frame_err, (error,), code),
    ensures
        gone <==> error.kind is BrokenPipe || error.kind is ConnectionReset
            || error.kind is ConnectionAborted || error.kind is UnexpectedEof,
        gone ==> code is ConnectionReset,
        !gone ==> code is Unknown && code->Unknown_0@ == "write: "@ + error.text@,
{
}

/// A name of a host is accepted if it is not empty, takes no more than two hundred and fifty-five
/// bytes and holds no zero byte.
pub proof fn law_host_names(host: &str, r: Result<(), ErrorCode>)
    requires
        call_ensures(validate_host, (host,), r),
    ensures
        r is Ok <==> host@.len() > 0 && vstd::utf8::encode_utf8(host@).len() <= 255
            && !host@.contains('\0'),
        r is Err ==> r == Err::<(), ErrorCode>(ErrorCode::AddressNotAvailable),
{
    crate::text::lemma_utf8_len(host@);
}

/// A capsule serves the machine alone: it may bind to the loopback addresses and to the name of the
/// local host in any case, which stands for the first of them, and to nothing else.
pub proof fn law_binding_stays_local(
    host: &str,
    ip: Option<IpAddr>,
    a: u8,
    b: u8,
    c: u8,
    d: u8,
    v6: u128,
    four: bool,
    six: bool,
    bound: bool,
    concrete: String,
)
    requires
        call_ensures(is_loopback, (IpAddr::V4(a, b, c, d),), four),
        call_ensures(is_loopback, (IpAddr::V6(v6),), six),
        call_ensures(is_loopback_bind_host, (host, ip), bound),
        call_ensures(concrete_host, (host,), concrete),
    ensures
        four <==> a == 127,
        six <==> v6 == 1,
        host@ == "localhost"@ ==> bound && concrete@ == "127.0.0.1"@,
        host@ == "LocalHost"@ ==> bound && concrete@ == "127.0.0.1"@,
        ip == Some(IpAddr::V4(a, b, c, d)) && a == 127 ==> bound,
        host@.len() != "localhost"@.len() ==> concrete@ == host@,
        host@.len() != "localhost"@.len() && ip is None ==> !bound,
        host@.len() != "localhost"@.len() && ip == Some(IpAddr::V4(a, b, c, d)) ==> (bound <==> a
            == 127),
{
    reveal_strlit("localhost");
    reveal_strlit("LocalHost");
    let low = crate::text::ascii_lowered("localhost"@);
    assert(low.len() == 9);
    assert(crate::text::ascii_lowered(host@).len() == host@.len());
    assert(crate::text::ascii_lowered("LocalHost"@) =~= low);
}

/// A connection that every answer lets go on is counted once and given to the capsule under the
/// number it was kept under; the record of it names the host, the port and the principal.
pub proof fn law_connecting_completes(
    principal: &PrincipalId,
    host: &str,
    port: u16,
    addrs: Vec<ResolvedAddr>,
    rep: u32,
    first: &mut StreamCounts,
    second: &mut StreamCounts,
    third: &mut StreamCounts,
    fourth: &mut StreamCounts,
    a: ConnectStep,
    b: ConnectStep,
    c: ConnectStep,
    d: ConnectStep,
    valid: Result<(), ErrorCode>,
)
    requires
        call_ensures(validate_host, (host,), valid),
        valid is Ok,
        addrs@.len() > 0,
        forall|i: int| 0 <= i < addrs@.len() ==> (#[trigger] addrs@[i]).safe,
        old(first).capsule < 8,
        old(first).local < 8,
        old(first).store < 8,
        call_ensures(
            connect_tcp,
            (
                principal,
                host,
                port,
                true,
                &(ConnectAnswers { gate: Some(None), outcome: None, kept: None }),
                first,
            ),
            a,
        ),
        *old(second) == *final(first),
        call_ensures(
            connect_tcp,
            (
                principal,
                host,
                port,
                true,
                &(ConnectAnswers {
                    gate: Some(None),
                    outcome: Some(ConnectAnswer::Resolved(addrs, None)),
                    kept: None,
                }),
                second,
            ),
            b,
        ),
        *old(third) == *final(second),
        call_ensures(
            connect_tcp,
            (
                principal,
                host,
                port,
                true,
                &(ConnectAnswers {
                    gate: Some(None),
                    outcome: Some(ConnectAnswer::Resolved(addrs, Some(Ok(())))),
                    kept: None,
                }),
                third,
            ),
            c,
        ),
        *old(fourth) == *final(third),
        call_ensures(
            connect_tcp,
            (
                principal,
                host,
                port,
                true,
                &(ConnectAnswers {
                    gate: Some(None),
                    outcome: Some(ConnectAnswer::Resolved(addrs, Some(Ok(())))),
                    kept: Some(Ok(rep)),
                }),
                fourth,
            ),
            d,
        ),
    ensures
        a is Resolve,
        b is Connect,
        c is Keep,
        d is Finish && d->Finish_0 == Ok::<u32, ErrorCode>(rep),
        d->Finish_1 is Some,
        d->Finish_1->Some_0.principal == *principal,
        d->Finish_1->Some_0.event is NetConnect,
        d->Finish_1->Some_0.event->NetConnect_0@ == host@,
        d->Finish_1->Some_0.event->NetConnect_1 == port,
        d->Finish_1->Some_0.outcome is Allowed,
        final(fourth).capsule == old(first).capsule + 1,
        final(fourth).local == old(first).local + 1,
        final(fourth).store == old(first).store + 1,
{
}

/// A connection is refused for the first thing in its way: a name that is no name, a policy or a
/// gate that denies it, a name that leads nowhere or inside, a peer that refuses.
pub proof fn law_connecting_is_refused(
    principal: &PrincipalId,
    host: &str,
    port: u16,
    allowed: bool,
    answers: &ConnectAnswers,
    counts: &mut StreamCounts,
    step: ConnectStep,
    valid: Result<(), ErrorCode>,
)
    requires
        call_ensures(validate_host, (host,), valid),
        call_ensures(connect_tcp, (principal, host, port, allowed, answers, counts), step),
        answers.kept is None,
    ensures
        valid is Err ==> step is Finish && step->Finish_0 == Err::<u32, ErrorCode>(
            ErrorCode::AddressNotAvailable,
        ) && step->Finish_1 is None,
        valid is Ok && !allowed ==> step is Finish && step->Finish_0 == Err::<u32, ErrorCode>(
            ErrorCode::CapabilityDenied,
        ) && step->Finish_1 is Some && step->Finish_1->Some_0.outcome is Denied,
        valid is Ok && allowed && answers.gate is None ==> step is AskGate,
        valid is Ok && allowed && answers.gate is Some && answers.gate->Some_0 is Some ==> {
            &&& step is Finish && step->Finish_0 == Err::<u32, ErrorCode>(
                ErrorCode::CapabilityDenied,
            )
            &&& step->Finish_1 is Some && step->Finish_1->Some_0.outcome is Denied
            &&& step->Finish_1->Some_0.outcome->Denied_0@ == answers.gate->Some_0->Some_0@
        },
        valid is Ok && allowed && answers.gate == Some(None::<String>) ==> {
            &&& old(counts).capsule >= 8 && answers.outcome is None ==> step is Finish
                && step->Finish_0 == Err::<u32, ErrorCode>(ErrorCode::Quota)
            &&& answers.outcome is Some ==> match answers.outcome->Some_0 {
                ConnectAnswer::Cancelled => step is Finish && step->Finish_0 == Err::<
                    u32,
                    ErrorCode,
                >(ErrorCode::Closed),
                ConnectAnswer::TimedOut => step is Finish && step->Finish_0 == Err::<
                    u32,
                    ErrorCode,
                >(ErrorCode::Timeout),
                ConnectAnswer::Unresolved => step is Finish && step->Finish_0 == Err::<
                    u32,
                    ErrorCode,
                >(ErrorCode::NameUnresolvable),
                ConnectAnswer::Resolved(addrs, tried) => {
                    &&& addrs@.len() == 0 ==> step is Finish && step->Finish_0 == Err::<
                        u32,
                        ErrorCode,
                    >(ErrorCode::NameUnresolvable)
                    &&& addrs@.len() > 0 && !addrs@[0].safe ==> step is Finish && step->Finish_0
                        == Err::<u32, ErrorCode>(ErrorCode::AirlockRejected)
                    &&& addrs@.len() > 0 && !addrs@.last().safe ==> step is Finish
                        && step->Finish_0 == Err::<u32, ErrorCode>(ErrorCode::AirlockRejected)
                },
            }
        },
        step is Finish ==> *final(counts) == *old(counts),
{
    if answers.outcome is Some && answers.outcome->Some_0 is Resolved {
        let addrs = answers.outcome->Some_0->Resolved_0@;
        if addrs.len() > 0 {
            assert(addrs[0] == addrs[0]);
            assert(addrs.last() == addrs[addrs.len() - 1]);
        }
    }
}

/// A connection that could not be kept is given back, and the capsule is told why.
pub proof fn law_unkept_connections_are_given_back(
    principal: &PrincipalId,
    host: &str,
    port: u16,
    text: String,
    outcome: Option<ConnectAnswer>,
    counts: &mut StreamCounts,
    step: ConnectStep,
    valid: Result<(), ErrorCode>,
)
    requires
        call_ensures(validate_host, (host,), valid),
        valid is Ok,
        old(counts).capsule > 0 && old(counts).local > 0 && old(counts).store > 0,
        call_ensures(
            connect_tcp,
            (
                principal,
                host,
                port,
                true,
                &(ConnectAnswers { gate: Some(None), outcome, kept: Some(Err(text)) }),
                counts,
            ),
            step,
        ),
    ensures
        step is Finish && step->Finish_0 is Err && step->Finish_0->Err_0 is Unknown,
        step->Finish_0->Err_0->Unknown_0@ == "resource table: "@ + text@,
        final(counts).capsule == old(counts).capsule - 1,
        final(counts).local == old(counts).local - 1,
        final(counts).store == old(counts).store - 1,
{
}

/// A lookup is checked as a connection is, and shows the addresses outside the machine, in order;
/// those inside stay hidden.
pub proof fn law_lookups_show_what_is_outside(
    host: &str,
    allowed: bool,
    refused: bool,
    valid: Result<(), ErrorCode>,
    check: Result<(), ErrorCode>,
    none: Result<Vec<String>, ErrorCode>,
    addrs: Vec<ResolvedAddr>,
    r: Result<Vec<String>, ErrorCode>,
)
    requires
        call_ensures(validate_host, (host,), valid),
        call_ensures(lookup_check, (host, allowed, refused), check),
        call_ensures(lookup_host, (&LookupAnswer::Unresolved,), none),
        call_ensures(lookup_host, (&LookupAnswer::Resolved(addrs),), r),
        addrs@.len() == 2,
    ensures
        valid is Err ==> check == Err::<(), ErrorCode>(ErrorCode::AddressNotAvailable),
        valid is Ok && (!allowed || refused) ==> check == Err::<(), ErrorCode>(
            ErrorCode::CapabilityDenied,
        ),
        valid is Ok && allowed && !refused ==> check is Ok,
        none == Err::<Vec<String>, ErrorCode>(ErrorCode::NameUnresolvable),
        r is Ok,
        addrs@[0].safe && addrs@[1].safe ==> r->Ok_0@.len() == 2 && r->Ok_0@[0]@ == addrs@[0].text@
            && r->Ok_0@[1]@ == addrs@[1].text@,
        addrs@[0].safe && !addrs@[1].safe ==> r->Ok_0@.len() == 1 && r->Ok_0@[0]@
            == addrs@[0].text@,
        !addrs@[0].safe && addrs@[1].safe ==> r->Ok_0@.len() == 1 && r->Ok_0@[0]@
            == addrs@[1].text@,
        !addrs@[0].safe && !addrs@[1].safe ==> r->Ok_0@.len() == 0,
{
    reveal_with_fuel(outside, 3);
    let rest = addrs@.drop_last();
    assert(rest.last() == addrs@[0]);
    assert(rest.drop_last() =~= Seq::empty());
    let shown = r->Ok_0@;
    assert(views(shown).len() == shown.len());
    if shown.len() > 0 {
        assert(views(shown)[0] == shown[0]@);
    }
    if shown.len() > 1 {
        assert(views(shown)[1] == shown[1]@);
    }
}

/// Eight streams may be open at once; a stream that is closed makes room for another, and one that
/// was only waited for counts for the capsule without being its own.
pub proof fn law_streams_are_capped(
    reserved: &mut StreamCounts,
    released: &mut StreamCounts,
    pending: &mut StreamCounts,
    dropped: &mut StreamCounts,
    claimed: &mut StreamCounts,
    a: bool,
    b: bool,
)
    requires
        old(reserved).local < 100 && old(reserved).store < 100,
        call_ensures(StreamCounts::reserve_net_stream, (reserved,), a),
        *old(released) == *final(reserved),
        call_ensures(StreamCounts::release_net_stream, (released,), ()),
        *old(pending) == *old(reserved),
        call_ensures(StreamCounts::reserve_pending, (pending,), b),
        *old(dropped) == *final(pending),
        call_ensures(StreamCounts::drop_pending, (dropped,), ()),
        *old(claimed) == *final(pending),
        call_ensures(StreamCounts::claim_reserved_net_stream, (claimed,), ()),
    ensures
        a <==> old(reserved).capsule < 8,
        b <==> old(reserved).capsule < 8,
        !a ==> *final(reserved) == *old(reserved) && *final(pending) == *old(reserved),
        a ==> final(reserved).capsule == old(reserved).capsule + 1 && final(reserved).local == old(reserved).local + 1 && final(reserved).store == old(reserved).store + 1,
        a ==> *final(released) == *old(reserved),
        b ==> final(pending).store == old(reserved).store && final(pending).capsule == old(reserved).capsule + 1,
        b ==> *final(dropped) == *old(reserved),
        b ==> *final(claimed) == *final(reserved),
{
}

/// A stream that is closed is known no more: its identity and its client are forgotten, and the
/// client is told to be gone once. One that was closed before gives nothing back again.
pub proof fn law_closing_a_stream(
    rep: u32,
    other: u32,
    counts: &mut StreamCounts,
    connections: &mut Connections,
    clients: &mut ClientConnections,
    event: Option<LifecycleEvent>,
    again_counts: &mut StreamCounts,
    again_connections: &mut Connections,
    again_clients: &mut ClientConnections,
    again: Option<LifecycleEvent>,
)
    requires
        other != rep,
        call_ensures(close_stream, (rep, true, counts, connections, clients), event),
        *old(again_counts) == *final(counts),
        *old(again_connections) == *final(connections),
        *old(again_clients) == *final(clients),
        call_ensures(
            close_stream,
            (rep, false, again_counts, again_connections, again_clients),
            again,
        ),
    ensures
        !final(connections)@.contains_key(rep),
        !final(clients)@.contains_key(rep),
        old(connections)@.contains_key(other) ==> final(connections)@.contains_key(other)
            && final(connections)@[other] == old(connections)@[other],
        old(clients)@.contains_key(rep) <==> event is Some,
        event is Some ==> event->Some_0.principal@ == old(clients)@[rep]
            && event->Some_0.topic@ == "client.v1.disconnect"@ && event->Some_0.reason is Some
            && event->Some_0.reason->Some_0@ == "socket closed"@,
        old(counts).capsule > 0 ==> final(counts).capsule == old(counts).capsule - 1,
        again is None,
        *final(again_counts) == *final(counts),
{
}

/// A time limit that was set is the one that is read back, on each side by itself; only a TCP
/// stream has any.
pub proof fn law_time_limits_read_back(
    reading: &mut Transport,
    writing: &mut Transport,
    unix: &mut Transport,
    ms: Option<u64>,
    other: Option<u64>,
    a: Result<(), ErrorCode>,
    b: Result<(), ErrorCode>,
    c: Result<(), ErrorCode>,
    read: Result<Option<u64>, ErrorCode>,
    write: Result<Option<u64>, ErrorCode>,
)
    requires
        *old(reading) is Tcp,
        call_ensures(Transport::set_read_timeout, (reading, ms), a),
        *old(writing) == *final(reading),
        call_ensures(Transport::set_write_timeout, (writing, other), b),
        call_ensures(Transport::read_timeout, (&*final(writing),), read),
        call_ensures(Transport::write_timeout, (&*final(writing),), write),
        *old(unix) is Unix,
        call_ensures(Transport::set_read_timeout, (unix, ms), c),
    ensures
        a is Ok && b is Ok,
        read == Ok::<Option<u64>, ErrorCode>(ms),
        write == Ok::<Option<u64>, ErrorCode>(other),
        c == Err::<(), ErrorCode>(ErrorCode::NotTcp),
        *final(unix) == *old(unix),
{
}

/// A write has the time that was set for it, else five seconds and one millisecond more for every
/// kibibyte.
pub proof fn law_writes_have_time(
    len: usize,
    ms: u64,
    read: Option<u64>,
    set: u64,
    unset: u64,
    unix: u64,
)
    requires
        call_ensures(
            write_deadline,
            (Transport::Tcp { read_timeout: read, write_timeout: Some(ms) }, len),
            set,
        ),
        call_ensures(
            write_deadline,
            (Transport::Tcp { read_timeout: read, write_timeout: None }, len),
            unset,
        ),
        call_ensures(write_deadline, (Transport::Unix, len), unix),
    ensures
        set == ms,
        unset == unix,
        unset >= 5000,
        len < 1024 ==> unset == 5000,
        (unset - 5000) * 1024 <= len < (unset - 5000 + 1) * 1024,
{
}

/// What was read is passed on; a peer that is gone has sent its last byte; a read that ran out of
/// time can be tried again, and one of a stream that closes cannot.
pub proof fn law_reads_are_passed_on(
    bytes: Vec<u8>,
    error: IoError,
    got: Result<Vec<u8>, ErrorCode>,
    failed: Result<Vec<u8>, ErrorCode>,
    late: Result<Vec<u8>, ErrorCode>,
    cancelled: Result<Vec<u8>, ErrorCode>,
    gone: bool,
)
    requires
        call_ensures(is_peer_disconnect, (&error,), gone),
        call_ensures(read_bytes_result, (ByteRead::Bytes(bytes),), got),
        call_ensures(read_bytes_result, (ByteRead::Failed(error),), failed),
        call_ensures(read_bytes_result, (ByteRead::TimedOut,), late),
        call_ensures(read_bytes_result, (ByteRead::Cancelled,), cancelled),
    ensures
        got == Ok::<Vec<u8>, ErrorCode>(bytes),
        gone ==> failed is Ok && failed->Ok_0@.len() == 0,
        !gone ==> failed is Err && failed->Err_0 is Unknown && failed->Err_0->Unknown_0@
            == "read error: "@ + error.text@,
        late == Err::<Vec<u8>, ErrorCode>(ErrorCode::WouldBlock),
        cancelled == Err::<Vec<u8>, ErrorCode>(ErrorCode::Closed),
{
}

/// Looking ahead takes a TCP stream, and then answers as a read does.
pub proof fn law_looking_ahead_takes_tcp(
    read: Option<u64>,
    write: Option<u64>,
    bytes: Vec<u8>,
    unix: Result<Vec<u8>, ErrorCode>,
    tcp: Result<Vec<u8>, ErrorCode>,
    late: Result<Vec<u8>, ErrorCode>,
)
    requires
        call_ensures(peek_result, (Transport::Unix, ByteRead::Bytes(bytes)), unix),
        call_ensures(
            peek_result,
            (Transport::Tcp { read_timeout: read, write_timeout: write }, ByteRead::Bytes(bytes)),
            tcp,
        ),
        call_ensures(
            peek_result,
            (Transport::Tcp { read_timeout: read, write_timeout: write }, ByteRead::TimedOut),
            late,
        ),
    ensures
        unix == Err::<Vec<u8>, ErrorCode>(ErrorCode::NotTcp),
        tcp == Ok::<Vec<u8>, ErrorCode>(bytes),
        late == Err::<Vec<u8>, ErrorCode>(ErrorCode::WouldBlock),
{
}

/// A write tells how much was written; a frame is written whole or not at all.
pub proof fn law_writes_tell_how_much(
    n: usize,
    error: IoError,
    wrote: Result<u32, ErrorCode>,
    failed: Result<u32, ErrorCode>,
    late: Result<u32, ErrorCode>,
    whole: Result<(), ErrorCode>,
    cancelled: Result<(), ErrorCode>,
    slow: Result<(), ErrorCode>,
)
    requires
        call_ensures(write_bytes_result, (&ByteWrite::Wrote(n),), wrote),
        call_ensures(write_bytes_result, (&ByteWrite::Failed(error),), failed),
        call_ensures(write_bytes_result, (&ByteWrite::TimedOut,), late),
        call_ensures(write_result, (&FrameWrite::Written,), whole),
        call_ensures(write_result, (&FrameWrite::Cancelled,), cancelled),
        call_ensures(write_result, (&FrameWrite::TimedOut,), slow),
    ensures
        n <= u32::MAX ==> wrote is Ok && wrote->Ok_0 == n,
        failed is Err && failed->Err_0 is Unknown && failed->Err_0->Unknown_0@ == "write error: "@
            + error.text@,
        late == Err::<u32, ErrorCode>(ErrorCode::WouldBlock),
        whole is Ok,
        cancelled == Err::<(), ErrorCode>(ErrorCode::Closed),
        slow is Err && slow->Err_0 is Unknown,
{
}

/// One read takes ten mebibytes at most; a keep-alive waits at least a second; a lingering close
/// keeps its time.
pub proof fn law_socket_numbers(
    max: u32,
    n: usize,
    secs: u64,
    kept: u64,
    ms: u64,
    lingers: Option<u64>,
    never: Option<u64>,
)
    requires
        call_ensures(read_limit, (max,), n),
        call_ensures(keepalive_secs, (secs,), kept),
        call_ensures(linger, (Some(ms as u128),), lingers),
        call_ensures(linger, (None::<u128>,), never),
    ensures
        max <= 10 * 1024 * 1024 ==> n == max,
        max > 10 * 1024 * 1024 ==> n == 10 * 1024 * 1024,
        secs >= 1 ==> kept == secs,
        secs == 0 ==> kept == 1,
        lingers == Some(ms),
        never is None,
{
}

/// What only a TCP stream can do is refused of a stream that is none or not there; else it is done,
/// or fails as the system says.
pub proof fn law_tcp_only(
    read: Option<u64>,
    write: Option<u64>,
    value: u32,
    missing: Result<u32, ErrorCode>,
    unix: Result<u32, ErrorCode>,
    closed: Result<u32, ErrorCode>,
    done: Result<u32, ErrorCode>,
)
    requires
        call_ensures(with_tcp_stream::<u32>, (None::<Transport>, Some(Ok(value))), missing),
        call_ensures(with_tcp_stream::<u32>, (Some(Transport::Unix), Some(Ok(value))), unix),
        call_ensures(
            with_tcp_stream::<u32>,
            (Some(Transport::Tcp { read_timeout: read, write_timeout: write }), None),
            closed,
        ),
        call_ensures(
            with_tcp_stream::<u32>,
            (Some(Transport::Tcp { read_timeout: read, write_timeout: write }), Some(Ok(value))),
            done,
        ),
    ensures
        missing == Err::<u32, ErrorCode>(ErrorCode::InvalidHandle),
        unix == Err::<u32, ErrorCode>(ErrorCode::NotTcp),
        closed == Err::<u32, ErrorCode>(ErrorCode::Closed),
        done == Ok::<u32, ErrorCode>(value),
{
}

/// Bytes that come in over a connection are known by the identity of that connection and by no
/// other: the principal, its device and that they came over a local socket. A read that brings no
/// bytes, or a connection without an identity, leaves nobody.
pub proof fn law_ingress_is_the_connections(
    ingress: &mut Ingress,
    quiet: &mut Ingress,
    connections: &Connections,
    rep: u32,
    data: Vec<u8>,
)
    requires
        call_ensures(
            Ingress::record_read,
            (ingress, true, connections, rep, &Ok(NetReadStatus::Data(data))),
            (),
        ),
        call_ensures(
            Ingress::record_read,
            (quiet, true, connections, rep, &Ok(NetReadStatus::Pending)),
            (),
        ),
    ensures
        connections@.contains_key(rep) ==> {
            &&& final(ingress).principal == Some(connections@[rep].principal)
            &&& final(ingress).device_key_id == connections@[rep].device_key_id
            &&& final(ingress).origin == Some(MessageOrigin::LocalSocket)
        },
        !connections@.contains_key(rep) ==> final(ingress).principal is None
            && final(ingress).device_key_id is None && final(ingress).origin is None,
        final(quiet).principal is None && final(quiet).device_key_id is None
            && final(quiet).origin is None,
{
}

/// A read that failed is told with its text, and one that was cancelled finds the stream closed.
pub proof fn law_frame_reads_are_passed_on(
    status: NetReadStatus,
    text: String,
    got: Result<NetReadStatus, ErrorCode>,
    failed: Result<NetReadStatus, ErrorCode>,
    cancelled: Result<NetReadStatus, ErrorCode>,
)
    requires
        call_ensures(read_result, (Some(Ok(status)),), got),
        call_ensures(read_result, (Some(Err(text)),), failed),
        call_ensures(read_result, (None::<Result<NetReadStatus, String>>,), cancelled),
    ensures
        got == Ok::<NetReadStatus, ErrorCode>(status),
        failed is Err && failed->Err_0 is Unknown && failed->Err_0->Unknown_0@ == text@,
        cancelled == Ok::<NetReadStatus, ErrorCode>(NetReadStatus::Closed),
{
}

/// A frame is four bytes that spell the length, the highest first, and then the data.
pub proof fn law_frames_spell_their_length(data: &[u8], r: Result<Vec<u8>, IoError>)
    requires
        call_ensures(encode_frame, (data,), r),
        data@.len() <= 0xffff_ffff,
    ensures
        r is Ok,
        r->Ok_0@.len() == data@.len() + 4,
        r->Ok_0@.skip(4) == data@,
        r->Ok_0@[0] * 256 * 256 * 256 + r->Ok_0@[1] * 256 * 256 + r->Ok_0@[2] * 256 + r->Ok_0@[3]
            == data@.len(),
{
    let n = data@.len() as int;
    let frame = r->Ok_0@;
    assert(frame.skip(4) =~= data@);
    assert(n == n / 16777216 * 16777216 + n / 65536 % 256 * 65536 + n / 256 % 256 * 256 + n % 256)
        by (nonlinear_arith)
        requires
            0 <= n <= 0xffff_ffff,
    ;
    assert(0 <= n / 16777216 < 256) by (nonlinear_arith)
        requires
            0 <= n <= 0xffff_ffff,
    ;
}

/// A frame that comes whole is its data; one that announces more than ten mebibytes is refused; a
/// reader that waits in vain for the first bytes may come back, and one that waits for the rest may
/// not.
pub proof fn law_frames_are_read_whole(
    head: &mut FrameReadState,
    body: &mut FrameReadState,
    late: &mut FrameReadState,
    stuck: &mut FrameReadState,
    header: Vec<u8>,
    data: Vec<u8>,
    first: FrameStep,
    second: FrameStep,
    pending: FrameStep,
    broken: FrameStep,
)
    requires
        old(head)@.len() == 0,
        header@.len() == 4,
        data@.len() > 0,
        call_ensures(FrameReadState::advance, (head, FrameEvent::Bytes(header)), first),
        *old(body) == *final(head),
        call_ensures(FrameReadState::advance, (body, FrameEvent::Bytes(data)), second),
        *old(late) == *old(head),
        call_ensures(FrameReadState::advance, (late, FrameEvent::TimedOut), pending),
        *old(stuck) == *final(head),
        call_ensures(FrameReadState::advance, (stuck, FrameEvent::TimedOut), broken),
    ensures
        ({
            let n = header@[0] * 16777216 + header@[1] * 65536 + header@[2] * 256 + header@[3];
            &&& n > 10 * 1024 * 1024 ==> first is Done && first->Done_0 is Err && final(head)@.len() == 0
            &&& 0 < n <= 10 * 1024 * 1024 ==> first == FrameStep::Read(
                n as usize,
                (5000 + n / 1024) as u64,
            )
            &&& n == 0 ==> first is Done && first->Done_0 is Ok && first->Done_0->Ok_0 is Data
                && first->Done_0->Ok_0->Data_0@.len() == 0
            &&& 0 < n <= 10 * 1024 * 1024 && data@.len() == n ==> second is Done
                && second->Done_0 is Ok && second->Done_0->Ok_0 is Data
                && second->Done_0->Ok_0->Data_0@ == data@ && final(body)@.len() == 0
            &&& 0 < n <= 10 * 1024 * 1024 && data@.len() < n ==> second == FrameStep::ReadOn(
                (n - data@.len()) as usize,
            )
            &&& 0 < n <= 10 * 1024 * 1024 ==> broken is Done && broken->Done_0 is Err
        }),
        pending == FrameStep::Done(Ok(NetReadStatus::Pending)),
{
    let none = old(head)@;
    let all = none + header@;
    assert(all =~= header@);
    let more = header@ + data@;
    assert(more[0] == header@[0] && more[1] == header@[1] && more[2] == header@[2] && more[3]
        == header@[3]);
    assert(more.skip(4) =~= data@);
    assert(header@.skip(4).len() == 0);
}

/// A peer that closes its side, properly or not, ends the reading without an error.
pub proof fn law_closing_ends_the_reading(
    closed: &mut FrameReadState,
    failed: &mut FrameReadState,
    error: IoError,
    gone: bool,
    a: FrameStep,
    b: FrameStep,
)
    requires
        call_ensures(is_peer_disconnect, (&error,), gone),
        call_ensures(FrameReadState::advance, (closed, FrameEvent::Eof), a),
        call_ensures(FrameReadState::advance, (failed, FrameEvent::Failed(error)), b),
    ensures
        a == FrameStep::Done(Ok(NetReadStatus::Closed)),
        gone ==> b == FrameStep::Done(Ok(NetReadStatus::Closed)),
        !gone ==> b is Done && b->Done_0 is Err,
        !gone && old(failed)@.len() < 4 ==> b->Done_0->Err_0@ == "socket read error: "@
            + error.text@,
        !gone && old(failed)@.len() >= 4 ==> b->Done_0->Err_0@ == "socket payload read error: "@
            + error.text@,
        final(failed)@ == old(failed)@,
{
}

/// A stream that is open under a handle is read and written under that handle until it is closed;
/// then, and under any other handle, there is none.
pub proof fn law_handles_name_streams(
    connected: &mut StreamTable,
    closed: &mut StreamTable,
    addrs: Vec<ResolvedAddr>,
    handle: Result<u64, String>,
    open: bool,
    after: bool,
    read: Result<NetReadStatus, String>,
    write: Result<(), String>,
    lost: Result<NetReadStatus, String>,
)
    requires
        old(connected)@.valid(),
        old(connected)@.open.len() < 8,
        old(connected)@.next < u64::MAX,
        addrs@.len() > 0,
        forall|i: int| 0 <= i < addrs@.len() ==> (#[trigger] addrs@[i]).safe,
        call_ensures(
            StreamTable::net_connect_tcp,
            (connected, &DialAnswer::Resolved(addrs, Ok(()))),
            handle,
        ),
        handle is Ok ==> {
            &&& call_ensures(StreamTable::is_open, (&*final(connected), handle->Ok_0), open)
            &&& call_ensures(
                StreamTable::net_read,
                (&*final(connected), handle->Ok_0, None::<Result<NetReadStatus, String>>),
                read,
            )
            &&& call_ensures(
                StreamTable::net_write,
                (&*final(connected), handle->Ok_0, &Some(Ok::<(), IoError>(()))),
                write,
            )
            &&& *old(closed) == *final(connected)
            &&& call_ensures(StreamTable::net_close_stream, (closed, handle->Ok_0), ())
            &&& call_ensures(StreamTable::is_open, (&*final(closed), handle->Ok_0), after)
            &&& call_ensures(
                StreamTable::net_read,
                (&*final(closed), handle->Ok_0, None::<Result<NetReadStatus, String>>),
                lost,
            )
        },
    ensures
        handle is Ok,
        !old(connected)@.open.contains(handle->Ok_0),
        open,
        read == Ok::<NetReadStatus, String>(NetReadStatus::Pending),
        write is Ok,
        !after,
        lost is Err && lost->Err_0@ == "Stream handle not found"@,
{
    let opened = final(connected)@.open;
    assert(opened[opened.len() - 1] == handle->Ok_0);
}

/// Under a handle eight streams may be open; one more is refused, and so is what policy refuses.
pub proof fn law_handles_are_capped(
    table: &StreamTable,
    reason: String,
    allowed: Result<(), String>,
    denied: Result<(), String>,
    accepts: Result<(), String>,
    polls: Result<bool, String>,
    unheard: Result<bool, String>,
    bound: Result<u64, String>,
    unbound: Result<u64, String>,
)
    requires
        call_ensures(StreamTable::may_connect, (table, &None::<String>), allowed),
        call_ensures(StreamTable::may_connect, (table, &Some(reason)), denied),
        call_ensures(StreamTable::may_accept, (table, true), accepts),
        call_ensures(StreamTable::may_poll, (table, true), polls),
        call_ensures(StreamTable::may_poll, (table, false), unheard),
        call_ensures(net_bind_unix, (&None::<String>,), bound),
        call_ensures(net_bind_unix, (&Some(reason),), unbound),
    ensures
        allowed is Ok <==> table@.open.len() < 8,
        denied is Err && denied->Err_0@ == "security denied net_connect: "@ + reason@,
        accepts is Ok <==> table@.open.len() < 8,
        polls == Ok::<bool, String>(table@.open.len() < 8),
        unheard is Err,
        bound == Ok::<u64, String>(1),
        unbound is Err && unbound->Err_0@ == "security denied net_bind: "@ + reason@,
{
}

/// A record of a connection names who, where to and how it ended.
pub proof fn law_connections_are_recorded(
    principal: &PrincipalId,
    host: &str,
    port: u16,
    reason: &str,
    code: ErrorCode,
    good: AuditRecord,
    bad: AuditRecord,
    denied: AuditRecord,
    came: AuditRecord,
)
    requires
        call_ensures(audit_net_connect, (principal, host, port, &None::<ErrorCode>), good),
        call_ensures(audit_net_connect, (principal, host, port, &Some(code)), bad),
        call_ensures(connect_denied, (principal, host, port, reason), denied),
        call_ensures(audit_net_accept, (principal, host, reason, &None::<ErrorCode>), came),
    ensures
        good.principal == *principal && bad.principal == *principal && denied.principal
            == *principal && came.principal == *principal,
        good.event is NetConnect && good.event->NetConnect_0@ == host@ && good.event->NetConnect_1
            == port,
        good.outcome is Allowed,
        bad.outcome is Failed && bad.outcome->Failed_0@ == code.shown(),
        denied.outcome is Denied && denied.outcome->Denied_0@ == reason@,
        came.event is NetAccept && came.event->NetAccept_0@ == host@ && came.event->NetAccept_1@
            == reason@ && came.outcome is Allowed,
{
}

/// Under a handle a peer is taken in where there is room for it, whatever way it proved itself; a
/// stranger and one that was refused are passed over, and a host that closes takes nobody in.
pub proof fn law_peers_under_handles(
    came: &mut StreamTable,
    refused: &mut StreamTable,
    cancelled: &mut StreamTable,
    polled: &mut StreamTable,
    quiet: &mut StreamTable,
    text: String,
    a: Option<Result<u64, String>>,
    b: Option<Result<u64, String>>,
    c: Option<Result<u64, String>>,
    d: Result<Option<u64>, String>,
    e: Result<Option<u64>, String>,
    n: usize,
)
    requires
        old(came)@.next < u64::MAX,
        call_ensures(StreamTable::net_accept, (came, &Attempt::Came(Handshake::NotNeeded)), a),
        call_ensures(
            StreamTable::net_accept,
            (refused, &Attempt::Came(Handshake::Refused(text))),
            b,
        ),
        call_ensures(StreamTable::net_accept, (cancelled, &Attempt::Cancelled), c),
        *old(polled) == *old(came),
        call_ensures(
            StreamTable::net_poll_accept,
            (polled, &Attempt::Came(Handshake::NotNeeded)),
            d,
        ),
        call_ensures(StreamTable::net_poll_accept, (quiet, &Attempt::TimedOut), e),
        call_ensures(StreamTable::len, (&*old(came),), n),
    ensures
        n < 8 ==> a is Some && a->Some_0 is Ok && final(came)@.open == old(came)@.open.push(
            a->Some_0->Ok_0,
        ),
        n >= 8 ==> a is Some && a->Some_0 is Err && final(came)@ == old(came)@,
        b is None && final(refused)@ == old(refused)@,
        c is Some && c->Some_0 is Err && c->Some_0->Err_0@ == "capsule unloading"@,
        n < 8 ==> d is Ok && d->Ok_0 is Some && Some(Ok::<u64, String>(d->Ok_0->Some_0)) == a,
        n >= 8 ==> d == Ok::<Option<u64>, String>(None) && final(polled)@ == old(polled)@,
        e == Ok::<Option<u64>, String>(None) && final(quiet)@ == old(quiet)@,
{
}

/// Under a handle, too, nothing inside the machine is reached: the first such address is named.
pub proof fn law_handles_stay_outside(
    addrs: &Vec<ResolvedAddr>,
    r: Result<(), String>,
    table: &mut StreamTable,
    tried: Result<(), String>,
    handle: Result<u64, String>,
)
    requires
        addrs@.len() == 1,
        call_ensures(check_dial, (addrs,), r),
        call_ensures(
            StreamTable::net_connect_tcp,
            (table, &DialAnswer::Resolved(*addrs, tried)),
            handle,
        ),
    ensures
        addrs@[0].safe <==> r is Ok,
        !addrs@[0].safe ==> r->Err_0@ == "net.connect-tcp denied: resolved IP "@ + addrs@[0].text@
            + " is in a private/loopback/link-local range (SSRF protection)"@,
        !addrs@[0].safe ==> handle is Err && final(table)@ == old(table)@,
        addrs@[0].safe && tried is Err ==> handle is Err && handle->Err_0@ == "connect: "@
            + tried->Err_0@,
{
    assert(addrs@[0] == addrs@.last());
    if !addrs@[0].safe {
        assert(leads_inside(addrs@));
        let i = choose|i: int|
            0 <= i < addrs@.len() && !(#[trigger] addrs@[i]).safe && r->Err_0@ == inside_text(
                addrs@[i].text@,
            ) && forall|k: int| 0 <= k < i ==> (#[trigger] addrs@[k]).safe;
        assert(i == 0);
    } else {
        assert(!leads_inside(addrs@));
    }
}

/// A reader of frames asks for the header first, and for no more of it than is missing.
pub proof fn law_headers_are_asked_for_first(
    state: &FrameReadState,
    new: FrameReadState,
    step: FrameStep,
    first: FrameStep,
    n: usize,
    probing: Option<u64>,
    silent: Option<u64>,
)
    requires
        call_ensures(FrameReadState::new, (), new),
        call_ensures(FrameReadState::start, (&new,), first),
        call_ensures(FrameReadState::start, (state,), step),
        call_ensures(FrameReadState::header_read, (state,), n),
        call_ensures(keepalive, (true,), probing),
        call_ensures(keepalive, (false,), silent),
    ensures
        first == FrameStep::Read(4usize, 50u64),
        state@.len() < 4 ==> step == FrameStep::Read((4 - state@.len()) as usize, 50u64) && n
            == state@.len(),
        state@.len() >= 4 ==> n == 4,
        probing == Some(0u64) && silent is None,
{
}

/// A record of a bound socket names who, where and how it ended.
pub proof fn law_sockets_are_recorded(
    principal: &PrincipalId,
    addr: &str,
    outcome: AuditOutcome,
    record: AuditRecord,
)
    requires
        call_ensures(audit_net_bind, (principal, addr, outcome), record),
    ensures
        record.principal == *principal,
        record.event is NetBind && record.event->NetBind_0@ == addr@,
        record.outcome == outcome,
{
}

/// Every address is shown or hidden on its own account.
pub proof fn law_each_address_is_judged(
    some: Vec<ResolvedAddr>,
    more: Vec<ResolvedAddr>,
    one: ResolvedAddr,
    a: Result<Vec<String>, ErrorCode>,
    b: Result<Vec<String>, ErrorCode>,
)
    requires
        more@ == some@.push(one),
        call_ensures(lookup_host, (&LookupAnswer::Resolved(some),), a),
        call_ensures(lookup_host, (&LookupAnswer::Resolved(more),), b),
    ensures
        a is Ok && b is Ok,
        one.safe ==> views(b->Ok_0@) == views(a->Ok_0@).push(one.text@),
        !one.safe ==> views(b->Ok_0@) == views(a->Ok_0@),
{
    assert(more@.drop_last() =~= some@);
    assert(more@.last() == one);
}

/// Whoever is refused for want of room is told how many streams are open.
pub proof fn law_full_tables_tell_the_count(
    table: &StreamTable,
    n: usize,
    written: String,
    connect: Result<(), String>,
    accept: Result<(), String>,
    deaf: Result<(), String>,
)
    requires
        call_ensures(StreamTable::len, (table,), n),
        call_ensures(show, (n as u64,), written),
        call_ensures(StreamTable::may_connect, (table, &None::<String>), connect),
        call_ensures(StreamTable::may_accept, (table, true), accept),
        call_ensures(StreamTable::may_accept, (table, false), deaf),
    ensures
        n >= 8 ==> connect is Err && connect->Err_0@ == "connection cap reached ("@ + written@
            + "/8)"@ && accept is Err && accept->Err_0@ == connect->Err_0@,
        n < 8 ==> deaf is Err && deaf->Err_0@ == "No CLI Socket Listener available in HostState"@,
{
}

/// A connection under a handle that did not come about is told with the reason.
pub proof fn law_dials_that_fail(
    cancelled: &mut StreamTable,
    late: &mut StreamTable,
    unknown: &mut StreamTable,
    text: String,
    a: Result<u64, String>,
    b: Result<u64, String>,
    c: Result<u64, String>,
)
    requires
        call_ensures(StreamTable::net_connect_tcp, (cancelled, &DialAnswer::Cancelled), a),
        call_ensures(StreamTable::net_connect_tcp, (late, &DialAnswer::TimedOut), b),
        call_ensures(StreamTable::net_connect_tcp, (unknown, &DialAnswer::LookupFailed(text)), c),
    ensures
        a is Err && a->Err_0@ == "capsule unloading"@ && final(cancelled)@ == old(cancelled)@,
        b is Err && b->Err_0@ == "connect timeout after 10s"@ && final(late)@ == old(late)@,
        c is Err && c->Err_0@ == "dns: "@ + text@ && final(unknown)@ == old(unknown)@,
{
}

/// A stream that is read or written under a handle answers as the stream does.
pub proof fn law_streams_answer_under_handles(
    table: &StreamTable,
    handle: u64,
    outcome: Result<NetReadStatus, String>,
    open: bool,
    read: Result<NetReadStatus, String>,
    closing: Result<(), String>,
)
    requires
        call_ensures(StreamTable::is_open, (table, handle), open),
        call_ensures(StreamTable::net_read, (table, handle, Some(outcome)), read),
        call_ensures(
            StreamTable::net_write,
            (table, handle, &None::<Result<(), IoError>>),
            closing,
        ),
    ensures
        open ==> read == outcome && closing is Err && closing->Err_0@ == "capsule unloading"@,
        !open ==> read is Err && read->Err_0@ == "Stream handle not found"@ && closing is Err
            && closing->Err_0@ == "Stream handle not found"@,
{
}

/// Connecting, reading a header and shaking hands each have their own time.
pub proof fn law_times_of_the_network()
    ensures
        crate::net::connect::CONNECT_TIMEOUT_MS == 10 * 1000,
        crate::net::frame::HEADER_TIMEOUT_MS == 50,
        crate::net::handshake::HANDSHAKE_TIMEOUT_MS == 5 * 1000,
        crate::net::accept::PEER_BACKOFF_MS == 100,
        crate::net::accept::MAX_POLL_MS == 60 * 1000,
{
}

/// A connection that the peer or the system refuses is told as the system tells it.
pub proof fn law_refused_connections_are_told(
    principal: &PrincipalId,
    host: &str,
    port: u16,
    addrs: Vec<ResolvedAddr>,
    error: IoError,
    code: ErrorCode,
    counts: &mut StreamCounts,
    step: ConnectStep,
    valid: Result<(), ErrorCode>,
)
    requires
        call_ensures(validate_host, (host,), valid),
        valid is Ok,
        addrs@.len() > 0,
        forall|i: int| 0 <= i < addrs@.len() ==> (#[trigger] addrs@[i]).safe,
        call_ensures(map_io_err, (&error,), code),
        call_ensures(
            connect_tcp,
            (
                principal,
                host,
                port,
                true,
                &(ConnectAnswers {
                    gate: Some(None),
                    outcome: Some(ConnectAnswer::Resolved(addrs, Some(Err(error)))),
                    kept: None,
                }),
                counts,
            ),
            step,
        ),
    ensures
        step is Finish && step->Finish_0 is Err,
        code is ConnectionRefused <==> step->Finish_0->Err_0 is ConnectionRefused,
        code is Timeout <==> step->Finish_0->Err_0 is Timeout,
        code is Unknown <==> step->Finish_0->Err_0 is Unknown,
        code is Unknown ==> step->Finish_0->Err_0->Unknown_0@ == error.text@,
        step->Finish_1 is Some && step->Finish_1->Some_0.outcome is Failed,
        step->Finish_1->Some_0.outcome->Failed_0@ == step->Finish_0->Err_0.shown(),
        step->Finish_1->Some_0.event is NetConnect && step->Finish_1->Some_0.event->NetConnect_0@
            == host@ && step->Finish_1->Some_0.event->NetConnect_1 == port,
        *final(counts) == *old(counts),
{
}

/// Frames that announce too much, and payloads that do not come in time, are told as such.
pub proof fn law_broken_frames_are_told(
    long: &mut FrameReadState,
    stuck: &mut FrameReadState,
    header: Vec<u8>,
    a: FrameStep,
    b: FrameStep,
)
    requires
        old(long)@.len() == 0,
        header@.len() == 4,
        header@[0] > 0,
        call_ensures(FrameReadState::advance, (long, FrameEvent::Bytes(header)), a),
        old(stuck)@.len() >= 4,
        call_ensures(FrameReadState::advance, (stuck, FrameEvent::TimedOut), b),
    ensures
        a is Done && a->Done_0 is Err && a->Done_0->Err_0@ == "Payload too large (max 10MB)"@,
        final(long)@.len() == 0,
        b is Done && b->Done_0 is Err && b->Done_0->Err_0@ == "Payload read timed out"@,
{
    let none = old(long)@;
    assert(none + header@ =~= header@);
}

/// A read that brings no bytes finds the stream closed.
pub proof fn law_empty_reads_close(state: &mut FrameReadState, none: Vec<u8>, step: FrameStep)
    requires
        none@.len() == 0,
        call_ensures(FrameReadState::advance, (state, FrameEvent::Bytes(none)), step),
    ensures
        step == FrameStep::Done(Ok(NetReadStatus::Closed)),
        final(state)@ == old(state)@,
{
}

/// A header that comes in two parts is the header; what is still missing is asked for.
pub proof fn law_headers_in_parts(
    first: &mut FrameReadState,
    second: &mut FrameReadState,
    a: Vec<u8>,
    b: Vec<u8>,
    x: FrameStep,
    y: FrameStep,
)
    requires
        old(first)@.len() == 0,
        0 < a@.len() < 4,
        a@.len() + b@.len() == 4,
        call_ensures(FrameReadState::advance, (first, FrameEvent::Bytes(a)), x),
        *old(second) == *final(first),
        call_ensures(FrameReadState::advance, (second, FrameEvent::Bytes(b)), y),
    ensures
        x == FrameStep::ReadOn((4 - a@.len()) as usize),
        final(first)@ == a@,
        ({
            let all = a@ + b@;
            let n = all[0] * 16777216 + all[1] * 65536 + all[2] * 256 + all[3];
            0 < n <= 10 * 1024 * 1024 ==> y == FrameStep::Read(
                n as usize,
                (5000 + n / 1024) as u64,
            ) && final(second)@ == all
        }),
{
    let none = old(first)@;
    assert(none + a@ =~= a@);
}

/// A listener that fails is told with the reason.
pub proof fn law_failing_listeners(
    accepted: &mut StreamTable,
    polled: &mut StreamTable,
    error: IoError,
    a: Option<Result<u64, String>>,
    b: Result<Option<u64>, String>,
)
    requires
        call_ensures(StreamTable::net_accept, (accepted, &Attempt::Failed(error)), a),
        call_ensures(StreamTable::net_poll_accept, (polled, &Attempt::Failed(error)), b),
    ensures
        a is Some && a->Some_0 is Err && a->Some_0->Err_0@ == "accept error: "@ + error.text@,
        b is Err && b->Err_0@ == "accept error: "@ + error.text@,
        final(accepted)@ == old(accepted)@ && final(polled)@ == old(polled)@,
{
}

/// A stream that is closed under its handle leaves the others open.
pub proof fn law_closing_leaves_the_others(
    table: &mut StreamTable,
    handle: u64,
    other: u64,
    before: bool,
    after: bool,
)
    requires
        old(table)@.valid(),
        other != handle,
        call_ensures(StreamTable::is_open, (&*old(table), other), before),
        call_ensures(StreamTable::net_close_stream, (table, handle), ()),
        call_ensures(StreamTable::is_open, (&*final(table), other), after),
    ensures
        before == after,
        !final(table)@.open.contains(handle),
        final(table)@.next == old(table)@.next,
{
    let open = old(table)@.open;
    if open.contains(handle) {
        let i = choose|i: int|
            0 <= i < open.len() && open[i] == handle && final(table)@.open == #[trigger] open.remove(
                i,
            );
        let left = open.remove(i);
        if open.contains(other) {
            let k = choose|k: int| 0 <= k < open.len() && open[k] == other;
            if k < i {
                assert(left[k] == other);
            } else {
                assert(left[k - 1] == other);
            }
        }
        if left.contains(other) {
            let k = choose|k: int| 0 <= k < left.len() && left[k] == other;
            if k < i {
                assert(open[k] == other);
            } else {
                assert(open[k + 1] == other);
            }
        }
    }
}

/// A capsule with as many streams as it may have is told so, with their number, and nothing is
/// added.
pub proof fn law_full_tables_say_so(
    table: &mut StreamTable,
    n: usize,
    shown: String,
    r: Option<Result<u64, String>>,
)
    requires
        call_ensures(StreamTable::len, (&*old(table),), n),
        n >= 8,
        call_ensures(show, (n as u64,), shown),
        call_ensures(
            StreamTable::net_accept,
            (table, &Attempt::Came(Handshake::NotNeeded)),
            r,
        ),
    ensures
        r is Some && r->Some_0 is Err,
        r->Some_0->Err_0@ == "connection cap reached ("@ + shown@ + "/8)"@,
        final(table)@ == old(table)@,
{
}

/// What arrived is kept when a read gives up, breaks or finds the stream ended: the next read goes on
/// from there.
pub proof fn law_broken_reads_keep_what_came(
    late: &mut FrameReadState,
    broken: &mut FrameReadState,
    ended: &mut FrameReadState,
    error: IoError,
    a: FrameStep,
    b: FrameStep,
    c: FrameStep,
    gone: bool,
)
    requires
        call_ensures(FrameReadState::advance, (late, FrameEvent::TimedOut), a),
        call_ensures(FrameReadState::advance, (broken, FrameEvent::Failed(error)), b),
        call_ensures(FrameReadState::advance, (ended, FrameEvent::Eof), c),
        call_ensures(is_peer_disconnect, (&error,), gone),
    ensures
        final(late)@ == old(late)@,
        final(broken)@ == old(broken)@,
        final(ended)@ == old(ended)@,
        old(late)@.len() < 4 ==> a == FrameStep::Done(Ok(NetReadStatus::Pending)),
        c == FrameStep::Done(Ok(NetReadStatus::Closed)),
        gone <==> b == FrameStep::Done(Ok(NetReadStatus::Closed)),
        !gone ==> b is Done && b->Done_0 is Err,
        !gone && old(broken)@.len() < 4 ==> b->Done_0->Err_0@ == "socket read error: "@
            + error.text@,
        !gone && old(broken)@.len() >= 4 ==> b->Done_0->Err_0@ == "socket payload read error: "@
            + error.text@,
{
}

/// A read begins with what is missing: the rest of the four bytes of the length, or the rest of the
/// payload that the length announces.
pub proof fn law_reads_begin_with_what_is_missing(state: &FrameReadState, step: FrameStep)
    requires
        call_ensures(FrameReadState::start, (state,), step),
    ensures
        step is Read,
        state@.len() < 4 ==> step->Read_0 == 4 - state@.len(),
        state@.len() >= 4 ==> ({
            let n = state@[0] * 16777216 + state@[1] * 65536 + state@[2] * 256 + state@[3];
            &&& step->Read_0 == n + 4 - state@.len()
            &&& step->Read_1 == 5000 + n / 1024
        }),
        0 < step->Read_0 <= 10 * 1024 * 1024,
{
}

/// A capsule that is unloaded waits no longer, and its table stays as it is; without a client that
/// may come in nothing is added.
pub proof fn law_unloading_ends_the_wait(
    table: &mut StreamTable,
    midway: &mut StreamTable,
    late: &mut StreamTable,
    strange: &mut StreamTable,
    who: String,
    a: Option<Result<u64, String>>,
    b: Option<Result<u64, String>>,
    c: Option<Result<u64, String>>,
    d: Option<Result<u64, String>>,
    new: StreamTable,
    next: u64,
)
    requires
        call_ensures(StreamTable::net_accept, (table, &Attempt::Cancelled), a),
        call_ensures(
            StreamTable::net_accept,
            (midway, &Attempt::Came(Handshake::Cancelled)),
            b,
        ),
        call_ensures(StreamTable::net_accept, (late, &Attempt::TimedOut), c),
        call_ensures(StreamTable::net_accept, (strange, &Attempt::Stranger(who)), d),
        call_ensures(StreamTable::new, (next,), new),
    ensures
        a is Some && a->Some_0 is Err && a->Some_0->Err_0@ == "capsule unloading"@,
        b is Some && b->Some_0 is Err && b->Some_0->Err_0@ == "capsule unloading"@,
        c is None && d is None,
        final(table)@ == old(table)@ && final(midway)@ == old(midway)@ && final(late)@ == old(late)@ && final(strange)@ == old(strange)@,
        new@.open.len() == 0 && new@.next == next,
{
}

/// Whatever keeps a frame from being written is told.
pub proof fn law_no_lost_frame_is_passed_over(
    error: IoError,
    written: Result<(), ErrorCode>,
    failed: Result<(), ErrorCode>,
    late: Result<(), ErrorCode>,
    cancelled: Result<(), ErrorCode>,
    gone: bool,
)
    requires
        call_ensures(is_peer_disconnect, (&error,), gone),
        call_ensures(write_result, (&FrameWrite::Written,), written),
        call_ensures(write_result, (&FrameWrite::Failed(error),), failed),
        call_ensures(write_result, (&FrameWrite::TimedOut,), late),
        call_ensures(write_result, (&FrameWrite::Cancelled,), cancelled),
    ensures
        written is Ok,
        failed is Err && late is Err && cancelled is Err,
        gone <==> failed->Err_0 is ConnectionReset,
        !gone ==> failed->Err_0 is Unknown && failed->Err_0->Unknown_0@ == "write: "@ + error.text@,
        late->Err_0 is Unknown && late->Err_0->Unknown_0@ == "write timed out: peer not draining"@,
        cancelled->Err_0 is Closed,
{
}

/// A code appears in a message under its own name, and an unknown one with its text.
pub proof fn law_codes_appear_by_name(code: &ErrorCode, text: String)
    requires
        call_ensures(ErrorCode::show, (code,), text),
    ensures
        *code is CapabilityDenied ==> text@ == "ErrorCode::CapabilityDenied"@,
        *code is AirlockRejected ==> text@ == "ErrorCode::AirlockRejected"@,
        *code is Quota ==> text@ == "ErrorCode::Quota"@,
        *code is InvalidHandle ==> text@ == "ErrorCode::InvalidHandle"@,
        *code is NotTcp ==> text@ == "ErrorCode::NotTcp"@,
        *code is Closed ==> text@ == "ErrorCode::Closed"@,
        *code is Timeout ==> text@ == "ErrorCode::Timeout"@,
        *code is WouldBlock ==> text@ == "ErrorCode::WouldBlock"@,
        *code is NameUnresolvable ==> text@ == "ErrorCode::NameUnresolvable"@,
        *code is ConnectionRefused ==> text@ == "ErrorCode::ConnectionRefused"@,
        *code is ConnectionReset ==> text@ == "ErrorCode::ConnectionReset"@,
        *code is AddressInUse ==> text@ == "ErrorCode::AddressInUse"@,
        *code is AddressNotAvailable ==> text@ == "ErrorCode::AddressNotAvailable"@,
        *code is Unknown ==> text@ == "ErrorCode::Unknown("@ + quoted(
            code->Unknown_0@,
        ) + ")"@,
{
}

/// A connection that was accepted and then lost is told with its two ends and with the failure, and a
/// connection that was refused with where it was to lead.
pub proof fn law_lost_peers_are_told(
    principal: &PrincipalId,
    local: &str,
    peer: &str,
    port: u16,
    reason: String,
    code: ErrorCode,
    text: String,
    lost: AuditRecord,
    counts: &mut StreamCounts,
    step: ConnectStep,
    valid: Result<(), ErrorCode>,
    ingress: Ingress,
)
    requires
        call_ensures(audit_net_accept, (principal, local, peer, &Some(code)), lost),
        call_ensures(ErrorCode::show, (&code,), text),
        call_ensures(validate_host, (local,), valid),
        valid is Ok,
        call_ensures(
            connect_tcp,
            (
                principal,
                local,
                port,
                true,
                &(ConnectAnswers { gate: Some(Some(reason)), outcome: None, kept: None }),
                counts,
            ),
            step,
        ),
        call_ensures(Ingress::new, (), ingress),
    ensures
        lost.principal == *principal && lost.event is NetAccept && lost.event->NetAccept_0@ == local@
            && lost.event->NetAccept_1@ == peer@,
        lost.outcome is Failed && lost.outcome->Failed_0@ == text@,
        step is Finish && step->Finish_0 == Err::<u32, ErrorCode>(ErrorCode::CapabilityDenied),
        step->Finish_1 is Some && step->Finish_1->Some_0.principal == *principal,
        step->Finish_1->Some_0.event is NetConnect && step->Finish_1->Some_0.event->NetConnect_0@
            == local@ && step->Finish_1->Some_0.event->NetConnect_1 == port,
        step->Finish_1->Some_0.outcome is Denied && step->Finish_1->Some_0.outcome->Denied_0@
            == reason@,
        *final(counts) == *old(counts),
        ingress.principal is None && ingress.device_key_id is None && ingress.origin is None,
{
}

} // verus!
