//! Connections that a capsule opens, and names that it looks up.

use vstd::prelude::*;

use crate::audit::AuditRecord;
use crate::host_state::types::PrincipalId;
use crate::net::audit::{audit_net_connect, connect_denied, is_connect, tells};
use crate::net::hosts::{host_valid, validate_host};
use crate::net::quota::{StreamCounts, MAX_ACTIVE_STREAMS};
use crate::net::types::{is_unknown, map_io_err, maps_to, ErrorCode, IoError};
use crate::text::{concat2, views};

verus! {

/// How long a connection may take, in milliseconds: looking the name up and connecting together.
pub const CONNECT_TIMEOUT_MS: u64 = 10000;

/// An address that a name leads to.
pub struct ResolvedAddr {
    pub text: String,
    /// Whether it leads outside and may be reached.
    pub safe: bool,
}

/// What became of looking a name up and connecting to it.
pub enum ConnectAnswer {
    /// The capsule is being unloaded.
    Cancelled,
    /// The time was up.
    TimedOut,
    /// The name leads nowhere.
    Unresolved,
    /// It leads to these addresses, and this became of connecting to them, if it was tried.
    Resolved(Vec<ResolvedAddr>, Option<Result<(), IoError>>),
}

/// The answers so far.
pub struct ConnectAnswers {
    /// What the security gate said, if it was asked: why it refused, or nothing.
    pub gate: Option<Option<String>>,
    pub outcome: Option<ConnectAnswer>,
    /// The handle of the stream, or why there is none.
    pub kept: Option<Result<u32, String>>,
}

/// What to do next.
pub enum ConnectStep {
    /// Ask the security gate.
    AskGate,
    /// Look the name up.
    Resolve,
    /// Connect to the addresses that were found.
    Connect,
    /// Make a handle for the stream.
    Keep,
    /// It is over, and this is what is told of it.
    Finish(Result<u32, ErrorCode>, Option<AuditRecord>),
}

/// One of the addresses leads inside.
pub open spec fn leads_inside(addrs: Seq<ResolvedAddr>) -> bool {
    exists|i: int| 0 <= i < addrs.len() && !(#[trigger] addrs[i]).safe
}

/// Whether one of the addresses leads inside.
fn any_unsafe(addrs: &Vec<ResolvedAddr>) -> (r: bool)
    ensures
        r == leads_inside(addrs@),
{
    let mut i: usize = 0;
    while i < addrs.len()
        invariant
            i <= addrs@.len(),
            forall|k: int| 0 <= k < i ==> (#[trigger] addrs@[k]).safe,
        decreases addrs.len() - i,
    {
        if !addrs[i].safe {
            assert(!addrs@[i as int].safe);
            return true;
        }
        i += 1;
    }
    false
}

/// The addresses may be connected to: there are some, and none leads inside.
pub open spec fn reachable(addrs: Seq<ResolvedAddr>) -> bool {
    addrs.len() > 0 && !leads_inside(addrs)
}

/// `code` is why the outside did not connect.
pub open spec fn connect_failure(answer: ConnectAnswer, code: ErrorCode) -> bool {
    match answer {
        ConnectAnswer::Cancelled => code == ErrorCode::Closed,
        ConnectAnswer::TimedOut => code == ErrorCode::Timeout,
        ConnectAnswer::Unresolved => code == ErrorCode::NameUnresolvable,
        ConnectAnswer::Resolved(addrs, tried) => if addrs@.len() == 0 {
            code == ErrorCode::NameUnresolvable
        } else if leads_inside(addrs@) {
            code == ErrorCode::AirlockRejected
        } else {
            tried is Some && tried->Some_0 is Err && maps_to(tried->Some_0->Err_0, code)
        },
    }
}

/// The outside has connected.
pub open spec fn connected(answer: ConnectAnswer) -> bool {
    &&& answer is Resolved
    &&& reachable(answer->Resolved_0@)
    &&& answer->Resolved_1 is Some
    &&& answer->Resolved_1->Some_0 is Ok
}

/// The addresses are known and may be connected to, and that was not tried yet.
pub open spec fn ready_to_connect(answer: ConnectAnswer) -> bool {
    &&& answer is Resolved
    &&& reachable(answer->Resolved_0@)
    &&& answer->Resolved_1 is None
}

/// How far the outside got: why it did not connect, or whether it has.
fn judge(answer: &ConnectAnswer) -> (r: Result<bool, ErrorCode>)
    ensures
        match r {
            Err(code) => connect_failure(*answer, code) && !connected(*answer)
                && !ready_to_connect(*answer),
            Ok(true) => connected(*answer),
            Ok(false) => ready_to_connect(*answer),
        },
{
    match answer {
        ConnectAnswer::Cancelled => Err(ErrorCode::Closed),
        ConnectAnswer::TimedOut => Err(ErrorCode::Timeout),
        ConnectAnswer::Unresolved => Err(ErrorCode::NameUnresolvable),
        ConnectAnswer::Resolved(addrs, tried) => {
            if addrs.len() == 0 {
                return Err(ErrorCode::NameUnresolvable);
            }
            if any_unsafe(addrs) {
                return Err(ErrorCode::AirlockRejected);
            }
            match tried {
                None => Ok(false),
                Some(Err(error)) => Err(map_io_err(error)),
                Some(Ok(())) => Ok(true),
            }
        },
    }
}

/// The end is a refusal: it is told as one, with its reason.
pub open spec fn ends_denied(
    step: ConnectStep,
    principal: PrincipalId,
    host: Seq<char>,
    port: u16,
    reason: Seq<char>,
) -> bool {
    &&& step is Finish
    &&& step->Finish_0 == Err::<u32, ErrorCode>(ErrorCode::CapabilityDenied)
    &&& step->Finish_1 is Some
    &&& is_connect(step->Finish_1->Some_0, principal, host, port)
    &&& step->Finish_1->Some_0.outcome is Denied
    &&& step->Finish_1->Some_0.outcome->Denied_0@ == reason
}

/// The end is told as what it is.
pub open spec fn ends_told(step: ConnectStep, principal: PrincipalId, host: Seq<char>, port: u16)
    -> bool {
    &&& step is Finish
    &&& step->Finish_1 is Some
    &&& is_connect(step->Finish_1->Some_0, principal, host, port)
    &&& tells(
        step->Finish_1->Some_0.outcome,
        match step->Finish_0 {
            Ok(_) => None,
            Err(code) => Some(code),
        },
    )
}

/// An end with this error.
fn fail(principal: &PrincipalId, host: &str, port: u16, code: ErrorCode) -> (step: ConnectStep)
    ensures
        ends_told(step, *principal, host@, port),
        step->Finish_0 == Err::<u32, ErrorCode>(code),
{
    let failure = Some(code.copy());
    let record = audit_net_connect(principal, host, port, &failure);
    ConnectStep::Finish(Err(code), Some(record))
}

/// What to do next to connect to an endpoint. The name is checked first, then the policy of the
/// principal, then the security gate, then the quota, which is looked at again once the stream is
/// connected. A name that leads anywhere inside is not connected to at all. A stream counts from
/// the moment it is connected; if there is no handle for it, it no longer does.
pub fn connect_tcp(
    principal: &PrincipalId,
    host: &str,
    port: u16,
    egress_allowed: bool,
    answers: &ConnectAnswers,
    counts: &mut StreamCounts,
) -> (step: ConnectStep)
    requires
        old(counts).countable(),
    ensures
        if !host_valid(host@) {
            &&& step == ConnectStep::Finish(Err(ErrorCode::AddressNotAvailable), None)
            &&& *final(counts) == *old(counts)
        } else if !egress_allowed {
            &&& ends_denied(
                step,
                *principal,
                host@,
                port,
                "restricted principal network policy denied endpoint"@,
            )
            &&& *final(counts) == *old(counts)
        } else {
            match answers.gate {
                None => step is AskGate && *final(counts) == *old(counts),
                Some(Some(reason)) => {
                    &&& ends_denied(step, *principal, host@, port, reason@)
                    &&& *final(counts) == *old(counts)
                },
                Some(None) => match answers.kept {
                    None => match answers.outcome {
                        None if old(counts).has_room() => step is Resolve && *final(counts) == *old(
                            counts,
                        ),
                        Some(answer) if connected(answer) && old(counts).has_room() => step is Keep
                            && *final(counts) == old(counts).opened(),
                        Some(answer) if !connected(answer) => {
                            &&& *final(counts) == *old(counts)
                            &&& if ready_to_connect(answer) {
                                step is Connect
                            } else {
                                &&& ends_told(step, *principal, host@, port)
                                &&& step->Finish_0 is Err
                                &&& connect_failure(answer, step->Finish_0->Err_0)
                            }
                        },
                        _ => {
                            &&& ends_told(step, *principal, host@, port)
                            &&& step->Finish_0 == Err::<u32, ErrorCode>(ErrorCode::Quota)
                            &&& *final(counts) == *old(counts)
                        },
                    },
                    Some(Ok(rep)) => {
                        &&& ends_told(step, *principal, host@, port)
                        &&& step->Finish_0 == Ok::<u32, ErrorCode>(rep)
                        &&& *final(counts) == *old(counts)
                    },
                    Some(Err(text)) => {
                        &&& ends_told(step, *principal, host@, port)
                        &&& step->Finish_0 is Err
                        &&& is_unknown(step->Finish_0->Err_0, "resource table: "@ + text@)
                        &&& *final(counts) == old(counts).closed()
                    },
                },
            }
        },
{
    match validate_host(host) {
        Err(code) => {
            return ConnectStep::Finish(Err(code), None);
        },
        Ok(()) => {},
    }
    if !egress_allowed {
        let record = connect_denied(
            principal,
            host,
            port,
            "restricted principal network policy denied endpoint",
        );
        return ConnectStep::Finish(Err(ErrorCode::CapabilityDenied), Some(record));
    }
    match &answers.gate {
        None => {
            return ConnectStep::AskGate;
        },
        Some(Some(reason)) => {
            let record = connect_denied(principal, host, port, reason.as_str());
            return ConnectStep::Finish(Err(ErrorCode::CapabilityDenied), Some(record));
        },
        Some(None) => {},
    }
    match &answers.kept {
        Some(Ok(rep)) => {
            let record = audit_net_connect(principal, host, port, &None);
            return ConnectStep::Finish(Ok(*rep), Some(record));
        },
        Some(Err(text)) => {
            counts.release_net_stream();
            return fail(
                principal,
                host,
                port,
                ErrorCode::Unknown(concat2("resource table: ", text.as_str())),
            );
        },
        None => {},
    }
    match &answers.outcome {
        None => {
            if counts.capsule >= MAX_ACTIVE_STREAMS {
                return fail(principal, host, port, ErrorCode::Quota);
            }
            ConnectStep::Resolve
        },
        Some(answer) => match judge(answer) {
            Err(code) => fail(principal, host, port, code),
            Ok(false) => ConnectStep::Connect,
            Ok(true) => {
                if !counts.reserve_net_stream() {
                    return fail(principal, host, port, ErrorCode::Quota);
                }
                ConnectStep::Keep
            },
        },
    }
}

/// What became of looking a name up.
pub enum LookupAnswer {
    Unresolved,
    Resolved(Vec<ResolvedAddr>),
}

/// The addresses that lead outside, in order.
pub open spec fn outside(addrs: Seq<ResolvedAddr>) -> Seq<Seq<char>>
    decreases addrs.len(),
{
    if addrs.len() == 0 {
        Seq::empty()
    } else if addrs.last().safe {
        outside(addrs.drop_last()).push(addrs.last().text@)
    } else {
        outside(addrs.drop_last())
    }
}

/// Why a name may not be looked up. `gate_refused` is what the security gate said.
pub fn lookup_check(host: &str, egress_allowed: bool, gate_refused: bool) -> (r: Result<
    (),
    ErrorCode,
>)
    ensures
        r == (if !host_valid(host@) {
            Err::<(), ErrorCode>(ErrorCode::AddressNotAvailable)
        } else if !egress_allowed || gate_refused {
            Err::<(), ErrorCode>(ErrorCode::CapabilityDenied)
        } else {
            Ok::<(), ErrorCode>(())
        }),
{
    match validate_host(host) {
        Err(code) => {
            return Err(code);
        },
        Ok(()) => {},
    }
    if !egress_allowed || gate_refused {
        return Err(ErrorCode::CapabilityDenied);
    }
    Ok(())
}

/// What a capsule gets of a name that was looked up: only the addresses that lead outside.
pub fn lookup_host(answer: &LookupAnswer) -> (r: Result<Vec<String>, ErrorCode>)
    ensures
        match *answer {
            LookupAnswer::Unresolved => r == Err::<Vec<String>, ErrorCode>(
                ErrorCode::NameUnresolvable,
            ),
            LookupAnswer::Resolved(addrs) => r is Ok && views(r->Ok_0@) == outside(addrs@),
        },
{
    let addrs = match answer {
        LookupAnswer::Unresolved => {
            return Err(ErrorCode::NameUnresolvable);
        },
        LookupAnswer::Resolved(addrs) => addrs,
    };
    let mut out: Vec<String> = Vec::new();
    let mut i: usize = 0;
    proof {
        assert(addrs@.take(0) =~= Seq::<ResolvedAddr>::empty());
        assert(views(out@) =~= outside(addrs@.take(0)));
    }
    while i < addrs.len()
        invariant
            i <= addrs@.len(),
            views(out@) == outside(addrs@.take(i as int)),
        decreases addrs.len() - i,
    {
        proof {
            assert(addrs@.take(i + 1).drop_last() =~= addrs@.take(i as int));
            assert(addrs@.take(i + 1).last() == addrs@[i as int]);
        }
        let ghost before = out@;
        if addrs[i].safe {
            out.push(addrs[i].text.clone());
            assert(views(out@) =~= views(before).push(addrs@[i as int].text@));
        }
        i += 1;
    }
    assert(addrs@.take(addrs@.len() as int) =~= addrs@);
    Ok(out)
}

/// Nothing that leads inside is ever connected to: a name of which even one address does is
/// refused as a whole.
pub proof fn law_nothing_inside_is_connected(answer: ConnectAnswer, i: int)
    requires
        connected(answer) || ready_to_connect(answer),
        0 <= i < answer->Resolved_0@.len(),
    ensures
        answer->Resolved_0@[i].safe,
{
}

} // verus!
