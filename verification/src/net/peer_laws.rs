//! What holds of those who connect to the host and of the sockets that capsules serve.

use vstd::prelude::*;

use crate::connections::{ClientConnections, Connections};
use crate::audit::AuditRecord;
use crate::entropy::may_draw;
use crate::host_state::types::PrincipalId;
use crate::net::accept::{
    accept_home, accept_step, admit_client, await_peer, finish_peer, local_text, may_accept,
    may_accept_peer, may_poll, poll_home, poll_result, poll_step, poll_timeout, take_peer,
    AcceptStep, Attempt, Handshake, Identity, Peer, PeerAnswer, PeerStep,
};
use crate::net::handshake::{
    challenge_message, first_verified, generate_nonce_hex, handshake_length, handshake_request,
    hex_pairs, none_verified, validate_handshake, verify_peer_credentials, verify_principal_signature,
    verify_signature_against_keys, CheckedKey, Evidence, HandshakeAnswers, HandshakeRequest,
    HandshakeStep, HeaderAnswer, KeyCheck, PayloadAnswer, Reply, TokenCheck,
};
use crate::net::hosts::{concrete_host, is_loopback_bind_host, validate_host, IpAddr};
use crate::net::lifecycle::{
    emit_client_disconnect, register_and_emit_connect, LifecycleEvent,
};
use crate::net::listeners::{
    bind_check, bind_unix, BindCheck, Lease, LocalAddr, Take, TcpListeners, UnixBind,
};
use crate::net::quota::StreamCounts;
use crate::net::types::{map_io_err, ErrorCode, IoError};
use crate::numbers::show;
use crate::process::persistent::ring::hex_char;

verus! {

/// A peer that claims nobody is let in, as nobody, once it has spoken the version of the host, shown
/// the token and been told so.
pub proof fn law_anonymous_peers_are_let_in(
    answers: &HandshakeAnswers,
    version: u32,
    step: HandshakeStep,
)
    requires
        call_ensures(validate_handshake, (answers, version), step),
        answers.first is Some && answers.first->Some_0 is Ok,
        answers.first->Some_0->Ok_0.protocol_version == version,
        answers.token is Right,
        answers.first->Some_0->Ok_0.claimed_principal is None,
    ensures
        answers.accept_sent is None ==> step is SendAccept,
        answers.accept_sent is Some && answers.accept_sent->Some_0 is Ok ==> step is LetIn
            && step->LetIn_0 is None,
        answers.accept_sent is Some && answers.accept_sent->Some_0 is Err ==> step is Refuse
            && step->Refuse_0@ == "failed to send handshake response: "@
            + answers.accept_sent->Some_0->Err_0@ && step->Refuse_1 is None,
{
}

/// A peer that claims a principal is let in as that principal, by the key that it proved, and only
/// after it has answered a challenge that holds the claim and the nonce.
pub proof fn law_claimed_peers_are_let_in_as_claimed(
    answers: &HandshakeAnswers,
    version: u32,
    step: HandshakeStep,
    principal: &str,
    nonce: String,
    nonce_text: &str,
    message: String,
    verdict: Result<String, String>,
)
    requires
        call_ensures(validate_handshake, (answers, version), step),
        answers.first is Some && answers.first->Some_0 is Ok,
        answers.first->Some_0->Ok_0.protocol_version == version,
        answers.token is Right,
        answers.first->Some_0->Ok_0.claimed_principal is Some,
        principal@ == answers.first->Some_0->Ok_0.claimed_principal->Some_0@,
        answers.principal is Ok,
        answers.nonce == Some(Ok::<String, String>(nonce)),
        nonce_text@ == nonce@,
        answers.challenge_sent is Some && answers.challenge_sent->Some_0 is Ok,
        answers.second is Some && answers.second->Some_0 is Ok,
        answers.second->Some_0->Ok_0.signature is Some,
        call_ensures(challenge_message, (principal, nonce_text), message),
        answers.evidence is Some ==> call_ensures(
            verify_principal_signature,
            (principal, &answers.evidence->Some_0),
            verdict,
        ),
    ensures
        answers.evidence is None ==> step is CheckKeys && step->CheckKeys_0@ == message@,
        message@ == "astrid-principal-auth:v1:"@ + principal@ + ":"@ + nonce@,
        answers.evidence is Some && verdict is Err ==> step is Refuse && step->Refuse_0@
            == verdict->Err_0@ && step->Refuse_1 is Some && step->Refuse_1->Some_0 is Refused
            && step->Refuse_1->Some_0->Refused_0@ == "authentication failed"@,
        answers.evidence is Some && verdict is Ok && answers.accept_sent is None
            ==> step is SendAccept,
        answers.evidence is Some && verdict is Ok && answers.accept_sent is Some
            && answers.accept_sent->Some_0 is Ok ==> {
            &&& step is LetIn && step->LetIn_0 is Some
            &&& step->LetIn_0->Some_0.0@ == principal@
            &&& step->LetIn_0->Some_0.1@ == verdict->Ok_0@
        },
{
}

/// The steps of a challenge come in order: a nonce is drawn, it is sent, the answer is read, and an
/// answer without a signature is refused.
pub proof fn law_challenges_go_step_by_step(
    answers: &HandshakeAnswers,
    version: u32,
    step: HandshakeStep,
)
    requires
        call_ensures(validate_handshake, (answers, version), step),
        answers.first is Some && answers.first->Some_0 is Ok,
        answers.first->Some_0->Ok_0.protocol_version == version,
        answers.token is Right,
        answers.first->Some_0->Ok_0.claimed_principal is Some,
        answers.principal is Ok,
    ensures
        answers.nonce is None ==> step is DrawNonce,
        answers.nonce is Some && answers.nonce->Some_0 is Ok ==> {
            &&& answers.challenge_sent is None ==> step is SendChallenge && step->SendChallenge_0@
                == answers.nonce->Some_0->Ok_0@
            &&& answers.challenge_sent is Some && answers.challenge_sent->Some_0 is Ok ==> {
                &&& answers.second is None ==> step is ReadSecond
                &&& answers.second is Some && answers.second->Some_0 is Ok
                    && answers.second->Some_0->Ok_0.signature is None ==> step is Refuse
                    && step->Refuse_0@ == "missing signature in second handshake frame"@
            }
        },
{
}

/// A peer that speaks another version is told both versions; one with a wrong token or a malformed
/// one is told nothing but that it failed; before it has spoken, it is read.
pub proof fn law_handshakes_are_refused(
    answers: &HandshakeAnswers,
    version: u32,
    step: HandshakeStep,
)
    requires
        call_ensures(validate_handshake, (answers, version), step),
    ensures
        answers.first is None ==> step is ReadFirst,
        answers.first is Some && answers.first->Some_0 is Err ==> step is Refuse && step->Refuse_0@
            == answers.first->Some_0->Err_0@ && step->Refuse_1 is None,
        answers.first is Some && answers.first->Some_0 is Ok
            && answers.first->Some_0->Ok_0.protocol_version != version ==> {
            &&& step is Refuse
            &&& step->Refuse_1 is Some && step->Refuse_1->Some_0 is Refused
            &&& step->Refuse_1->Some_0->Refused_0@ == step->Refuse_0@
        },
        answers.first is Some && answers.first->Some_0 is Ok
            && answers.first->Some_0->Ok_0.protocol_version == version && !(
        answers.token is Right) ==> {
            &&& step is Refuse && step->Refuse_0@ == "invalid session token"@
            &&& step->Refuse_1 is Some && step->Refuse_1->Some_0 is Refused
            &&& step->Refuse_1->Some_0->Refused_0@ == "authentication failed"@
        },
{
}

/// A principal is proved by the first of its keys that verifies; a disabled principal, a malformed
/// signature, keys that all fail and no key at all prove nobody.
pub proof fn law_keys_prove_principals(
    principal: &str,
    evidence: &Evidence,
    r: Result<String, String>,
    alone: Result<String, String>,
    i: int,
)
    requires
        call_ensures(verify_principal_signature, (principal, evidence), r),
        call_ensures(verify_signature_against_keys, (principal, &evidence.keys), alone),
    ensures
        r is Ok ==> evidence.profile == Ok::<bool, String>(true) && evidence.signature is Ok,
        r is Ok ==> exists|k: int|
            0 <= k < evidence.keys@.len() && (#[trigger] evidence.keys@[k]).check is Verified
                && r->Ok_0@ == evidence.keys@[k].key_id@,
        evidence.profile == Ok::<bool, String>(true) && evidence.signature is Ok && 0 <= i
            < evidence.keys@.len() && evidence.keys@[i].check is Verified ==> r is Ok,
        0 <= i < evidence.keys@.len() && evidence.keys@[i].check is Verified && (forall|k: int|
            0 <= k < i ==> !((#[trigger] evidence.keys@[k]).check is Verified)) ==> alone is Ok
            && alone->Ok_0@ == evidence.keys@[i].key_id@,
        evidence.keys@.len() == 0 ==> alone is Err,
        evidence.profile == Ok::<bool, String>(false) ==> r is Err && r->Err_0@ == "principal "@
            + principal@ + " is disabled"@,
{
    let keys = evidence.keys@;
    if r is Ok {
        assert(!none_verified(keys));
        let k = choose|k: int| first_verified(keys, k);
        let some = choose|some: int| 0 <= some < keys.len() && (#[trigger] keys[some]).check
            == KeyCheck::Verified;
        lemma_first_verified(keys, some);
        assert(first_verified(keys, k));
        assert(keys[k].check is Verified);
    }
    if 0 <= i < keys.len() && keys[i].check is Verified {
        assert(!none_verified(keys));
        lemma_first_verified(keys, i);
        if forall|k: int| 0 <= k < i ==> !((#[trigger] keys[k]).check is Verified) {
            let k = choose|k: int| #[trigger] first_verified(keys, k) && alone->Ok_0
                == keys[k].key_id;
            assert(keys[i].check == KeyCheck::Verified);
            assert(k == i);
        }
    }
}

/// Where some key verifies, one is the first that does.
proof fn lemma_first_verified(keys: Seq<CheckedKey>, i: int)
    requires
        0 <= i < keys.len(),
        keys[i].check == KeyCheck::Verified,
    ensures
        exists|k: int| first_verified(keys, k),
    decreases i,
{
    if exists|k: int| 0 <= k < i && (#[trigger] keys[k]).check == KeyCheck::Verified {
        let k = choose|k: int| 0 <= k < i && (#[trigger] keys[k]).check == KeyCheck::Verified;
        lemma_first_verified(keys, k);
    } else {
        assert(first_verified(keys, i));
    }
}

/// A handshake takes four kibibytes at most, and what was read is what is judged.
pub proof fn law_handshakes_are_small(
    bytes: Vec<u8>,
    request: HandshakeRequest,
    length: Result<usize, String>,
    late: Result<usize, String>,
    read: Result<HandshakeRequest, String>,
)
    requires
        bytes@.len() == 4,
        call_ensures(handshake_length, (&HeaderAnswer::Bytes(bytes),), length),
        call_ensures(handshake_length, (&HeaderAnswer::TimedOut,), late),
        call_ensures(handshake_request, (PayloadAnswer::Request(request),), read),
    ensures
        ({
            let n = bytes@[0] * 16777216 + bytes@[1] * 65536 + bytes@[2] * 256 + bytes@[3];
            &&& n <= 4096 ==> length is Ok && length->Ok_0 == n
            &&& n > 4096 ==> length is Err
        }),
        late is Err,
        read == Ok::<HandshakeRequest, String>(request),
{
}

/// Only a peer that runs under the same user is let near.
pub proof fn law_peers_run_as_the_same_user(
    uid: u32,
    own: u32,
    text: String,
    known: Result<(), String>,
    unknown: Result<(), String>,
)
    requires
        call_ensures(verify_peer_credentials, (&Ok(uid), own), known),
        call_ensures(verify_peer_credentials, (&Err(text), own), unknown),
    ensures
        known is Ok <==> uid == own,
        unknown is Err && unknown->Err_0@ == "failed to check peer credentials: "@ + text@,
{
}

/// Accepting takes a listener and room for one stream more; without room it is refused, while a
/// poll just finds nobody.
pub proof fn law_accepting_takes_room(
    counts: &StreamCounts,
    listens: Result<(), ErrorCode>,
    deaf: Result<(), ErrorCode>,
    polls: Result<bool, ErrorCode>,
    unheard: Result<bool, ErrorCode>,
    rep: u32,
    full: Result<Option<u32>, ErrorCode>,
    taken: Result<Option<u32>, ErrorCode>,
    ms: u64,
    waits: u64,
)
    requires
        call_ensures(may_accept, (true, counts), listens),
        call_ensures(may_accept, (false, counts), deaf),
        call_ensures(may_poll, (true, counts), polls),
        call_ensures(may_poll, (false, counts), unheard),
        call_ensures(poll_result::<u32>, (Err(ErrorCode::Quota),), full),
        call_ensures(poll_result::<u32>, (Ok(rep),), taken),
        call_ensures(poll_timeout, (ms,), waits),
    ensures
        deaf == Err::<(), ErrorCode>(ErrorCode::Closed),
        counts.capsule < 8 <==> listens is Ok,
        counts.capsule >= 8 ==> listens == Err::<(), ErrorCode>(ErrorCode::Quota),
        unheard == Err::<bool, ErrorCode>(ErrorCode::Closed),
        polls == Ok::<bool, ErrorCode>(counts.capsule < 8),
        full == Ok::<Option<u32>, ErrorCode>(None),
        taken == Ok::<Option<u32>, ErrorCode>(Some(rep)),
        ms <= 60000 ==> waits == ms,
        ms > 60000 ==> waits == 60000,
{
}

/// A peer that passed is taken as the one it proved to be; a stranger and one that was refused are
/// passed over, and accepting goes on; a poll that meets them finds nobody.
pub proof fn law_only_proved_peers_are_taken(
    identity: Option<Identity>,
    text: String,
    passed: AcceptStep,
    open: AcceptStep,
    refused: AcceptStep,
    stranger: AcceptStep,
    cancelled: AcceptStep,
    late: AcceptStep,
    polled: AcceptStep,
    polled_refused: AcceptStep,
)
    requires
        call_ensures(accept_step, (Attempt::Came(Handshake::Passed(identity)),), passed),
        call_ensures(accept_step, (Attempt::Came(Handshake::NotNeeded),), open),
        call_ensures(accept_step, (Attempt::Came(Handshake::Refused(text)),), refused),
        call_ensures(accept_step, (Attempt::Stranger(text),), stranger),
        call_ensures(accept_step, (Attempt::Cancelled,), cancelled),
        call_ensures(accept_step, (Attempt::TimedOut,), late),
        call_ensures(poll_step, (Attempt::Came(Handshake::Passed(identity)),), polled),
        call_ensures(poll_step, (Attempt::Came(Handshake::Refused(text)),), polled_refused),
    ensures
        passed == AcceptStep::Take(identity),
        open is Take && open->Take_0 is None,
        refused is Retry,
        stranger is Retry && stranger->Retry_0 > 0,
        cancelled == AcceptStep::Fail(ErrorCode::Closed),
        late is Nobody,
        polled == AcceptStep::Take(identity),
        polled_refused is Nobody,
{
}

/// Where there is a session, its home has to be found: accepting fails without it, a poll finds
/// nobody.
pub proof fn law_sessions_need_a_home(
    text: String,
    accepted: Result<(), ErrorCode>,
    sessionless: Result<(), ErrorCode>,
    found: Result<(), ErrorCode>,
    polled: Option<AcceptStep>,
    polled_found: Option<AcceptStep>,
)
    requires
        call_ensures(accept_home, (true, &Err(text)), accepted),
        call_ensures(accept_home, (false, &Err(text)), sessionless),
        call_ensures(accept_home, (true, &Ok(())), found),
        call_ensures(poll_home, (true, &Err(text)), polled),
        call_ensures(poll_home, (true, &Ok(())), polled_found),
    ensures
        accepted is Err && accepted->Err_0 is Unknown && accepted->Err_0->Unknown_0@
            == "cannot resolve astrid home: "@ + text@,
        sessionless is Ok,
        found is Ok,
        polled is Some && polled->Some_0 is Nobody,
        polled_found is None,
{
}

/// A client that is let in is counted, told of as connected and known from then on as the one it
/// proved to be; when it goes it is told of as disconnected, under the same name. One that proved
/// nobody counts as anonymous and is bound to no identity.
pub proof fn law_clients_come_and_go(
    rep: u32,
    known: Identity,
    owner: &str,
    counts: &mut StreamCounts,
    connections: &mut Connections,
    clients: &mut ClientConnections,
    r: Result<(u32, LifecycleEvent), ErrorCode>,
    gone: &mut ClientConnections,
    event: Option<LifecycleEvent>,
    again: &mut ClientConnections,
    twice: Option<LifecycleEvent>,
)
    requires
        old(counts).capsule < 8 && old(counts).local < 8 && old(counts).store < 8,
        call_ensures(
            admit_client,
            (&Ok(rep), &Some(known), owner, counts, connections, clients),
            r,
        ),
        *old(gone) == *final(clients),
        call_ensures(emit_client_disconnect, (gone, rep), event),
        *old(again) == *final(gone),
        call_ensures(emit_client_disconnect, (again, rep), twice),
    ensures
        r is Ok && r->Ok_0.0 == rep,
        r->Ok_0.1.topic@ == "client.v1.connect"@ && r->Ok_0.1.principal@ == known.principal@,
        r->Ok_0.1.reason is None,
        final(counts).capsule == old(counts).capsule + 1,
        final(connections)@.contains_key(rep),
        final(connections)@[rep].principal@ == known.principal@,
        final(connections)@[rep].device_key_id is Some
            && final(connections)@[rep].device_key_id->Some_0@ == known.key_id@,
        final(connections)@[rep].request_owner@ == owner@,
        event is Some && event->Some_0.topic@ == "client.v1.disconnect"@
            && event->Some_0.principal@ == known.principal@,
        twice is None,
{
}

/// A client that cannot be kept, or for which there is no room, leaves nothing behind.
pub proof fn law_unkept_clients_leave_nothing(
    kept: &Result<u32, String>,
    identity: &Option<Identity>,
    owner: &str,
    counts: &mut StreamCounts,
    connections: &mut Connections,
    clients: &mut ClientConnections,
    r: Result<(u32, LifecycleEvent), ErrorCode>,
)
    requires
        call_ensures(admit_client, (kept, identity, owner, counts, connections, clients), r),
    ensures
        old(counts).capsule >= 8 ==> r == Err::<(u32, LifecycleEvent), ErrorCode>(
            ErrorCode::Quota,
        ),
        old(counts).capsule < 8 && *kept is Err ==> r is Err && r->Err_0 is Unknown
            && r->Err_0->Unknown_0@ == "resource table: "@ + kept->Err_0@,
        old(counts).capsule < 8 && *kept is Ok ==> r is Ok,
        r is Err ==> *final(counts) == *old(counts) && final(connections)@ == old(connections)@
            && final(clients)@ == old(clients)@,
        r is Ok && *identity is None ==> final(connections)@ == old(connections)@
            && r->Ok_0.1.principal@ == "anonymous"@,
{
}

/// A client is told of as connected under the name that it is registered under.
pub proof fn law_registering_a_client(
    clients: &mut ClientConnections,
    rep: u32,
    principal: &str,
    event: LifecycleEvent,
)
    requires
        call_ensures(register_and_emit_connect, (clients, rep, principal), event),
    ensures
        event.topic@ == "client.v1.connect"@,
        event.principal@ == principal@,
        event.reason is None,
        final(clients)@.contains_key(rep) && final(clients)@[rep] == principal@,
{
}

/// A peer of a socket that a capsule serves is counted when it is taken, whether it came just now
/// or was waiting; where there is no room it is refused, and that is recorded.
pub proof fn law_taking_a_peer(
    principal: &PrincipalId,
    peer: Peer,
    came_counts: &mut StreamCounts,
    waiting_counts: &mut StreamCounts,
    none_counts: &mut StreamCounts,
    came: PeerStep,
    waiting: PeerStep,
    none: PeerStep,
)
    requires
        old(came_counts).local < 100 && old(came_counts).store < 100,
        call_ensures(take_peer, (principal, &PeerAnswer::Came(peer), came_counts), came),
        old(waiting_counts).store < 100,
        call_ensures(take_peer, (principal, &PeerAnswer::Waiting, waiting_counts), waiting),
        call_ensures(take_peer, (principal, &PeerAnswer::TimedOut, none_counts), none),
    ensures
        old(came_counts).capsule < 8 ==> came is Keep && final(came_counts).capsule == old(came_counts).capsule + 1 && final(came_counts).store == old(came_counts).store + 1,
        old(came_counts).capsule >= 8 ==> {
            &&& came is Fail && came->Fail_0 is Quota && came->Fail_1 is Some
            &&& came->Fail_1->Some_0.principal == *principal
            &&& came->Fail_1->Some_0.event is NetAccept
            &&& came->Fail_1->Some_0.event->NetAccept_0@ == peer.local_addr@
            &&& came->Fail_1->Some_0.event->NetAccept_1@ == peer.peer_addr@
            &&& came->Fail_1->Some_0.outcome is Failed
            &&& *final(came_counts) == *old(came_counts)
        },
        waiting is Keep,
        final(waiting_counts).store == old(waiting_counts).store + 1,
        final(waiting_counts).capsule == old(waiting_counts).capsule,
        final(waiting_counts).local == old(waiting_counts).local,
        none is Nobody && *final(none_counts) == *old(none_counts),
{
}

/// A peer that is kept is given to the capsule and recorded; one that cannot be kept is given back.
pub proof fn law_keeping_a_peer(
    principal: &PrincipalId,
    peer: Peer,
    rep: u32,
    text: String,
    kept_counts: &mut StreamCounts,
    lost_counts: &mut StreamCounts,
    kept: (Result<u32, ErrorCode>, Option<AuditRecord>),
    lost: (Result<u32, ErrorCode>, Option<AuditRecord>),
)
    requires
        call_ensures(finish_peer, (principal, &Some(peer), &Ok(rep), kept_counts), kept),
        old(lost_counts).capsule > 0,
        call_ensures(finish_peer, (principal, &Some(peer), &Err(text), lost_counts), lost),
    ensures
        kept.0 == Ok::<u32, ErrorCode>(rep),
        kept.1 is Some && kept.1->Some_0.outcome is Allowed && kept.1->Some_0.principal
            == *principal,
        kept.1->Some_0.event is NetAccept && kept.1->Some_0.event->NetAccept_0@ == peer.local_addr@
            && kept.1->Some_0.event->NetAccept_1@ == peer.peer_addr@,
        *final(kept_counts) == *old(kept_counts),
        lost.0 is Err && lost.0->Err_0 is Unknown && lost.0->Err_0->Unknown_0@ == "resource table: "@
            + text@,
        lost.1 is Some && lost.1->Some_0.outcome is Failed,
        final(lost_counts).capsule == old(lost_counts).capsule - 1,
{
}

/// A peer may wait while there is room for it, and is recorded either way; a capsule takes no more
/// than eight.
pub proof fn law_waiting_peers(
    principal: &PrincipalId,
    peer: &Peer,
    counts: &mut StreamCounts,
    r: (bool, AuditRecord),
    seen: &StreamCounts,
    yielded: &mut bool,
    may: Result<(), ErrorCode>,
    local: String,
    shown: String,
    error: String,
    unknown: String,
)
    requires
        old(counts).local < 100,
        call_ensures(await_peer, (principal, peer, counts), r),
        call_ensures(may_accept_peer, (seen, yielded), may),
        call_ensures(local_text, (&Err(error),), unknown),
        call_ensures(local_text, (&Ok(local),), shown),
    ensures
        r.0 <==> old(counts).capsule < 8,
        r.0 ==> final(counts).capsule == old(counts).capsule + 1 && final(counts).store == old(counts).store && r.1.outcome is Allowed,
        !r.0 ==> *final(counts) == *old(counts) && r.1.outcome is Failed
            && r.1.outcome->Failed_0@ == "network stream quota exceeded"@,
        r.1.principal == *principal,
        seen.store >= 8 ==> may == Err::<(), ErrorCode>(ErrorCode::Quota) && *final(yielded) == *old(yielded),
        seen.store < 8 ==> may is Ok && *final(yielded),
        shown@ == local@,
        unknown@ == "unknown ("@ + error@ + ")"@,
{
}

/// A socket is bound only on the loopback, for a host with a proper name, and with leave to
/// bind; one on a fixed port can be shared, one on a port that the system picks cannot.
pub proof fn law_binding_a_socket(
    principal: &PrincipalId,
    host: &str,
    port: u16,
    ip: Option<IpAddr>,
    refusal: &Option<String>,
    share: bool,
    check: BindCheck,
    valid: Result<(), ErrorCode>,
    local: bool,
)
    requires
        call_ensures(bind_check, (principal, host, port, ip, refusal, share), check),
        call_ensures(validate_host, (host,), valid),
        call_ensures(is_loopback_bind_host, (host, ip), local),
    ensures
        valid is Err ==> check == BindCheck::Failed(ErrorCode::AddressNotAvailable, None),
        valid is Ok && *refusal is Some ==> {
            &&& check is Failed && check->Failed_0 is CapabilityDenied
            &&& check->Failed_1 is Some && check->Failed_1->Some_0.outcome is Denied
            &&& check->Failed_1->Some_0.outcome->Denied_0@ == refusal->Some_0@
            &&& check->Failed_1->Some_0.principal == *principal
        },
        valid is Ok && *refusal is None && !local ==> check is Failed
            && check->Failed_0 is AirlockRejected && check->Failed_1 is Some
            && check->Failed_1->Some_0.outcome is Failed,
        valid is Ok && *refusal is None && local ==> check is Go && (check->shareable <==> share
            && port != 0),
{
}

/// Binding the control socket takes leave to bind, and is recorded as it ends.
pub proof fn law_binding_the_control_socket(
    principal: &PrincipalId,
    reason: String,
    rep: u32,
    kept: &Option<Result<u32, String>>,
    denied: UnixBind,
    first: UnixBind,
    done: UnixBind,
)
    requires
        call_ensures(bind_unix, (principal, &Some(reason), kept), denied),
        call_ensures(bind_unix, (principal, &None::<String>, &None::<Result<u32, String>>), first),
        call_ensures(
            bind_unix,
            (principal, &None::<String>, &Some(Ok::<u32, String>(rep))),
            done,
        ),
    ensures
        denied is Finish && denied->Finish_0 == Err::<u32, ErrorCode>(ErrorCode::CapabilityDenied),
        denied->Finish_1.outcome is Denied && denied->Finish_1.outcome->Denied_0@ == reason@,
        first is Keep,
        done is Finish && done->Finish_0 == Ok::<u32, ErrorCode>(rep),
        done->Finish_1.outcome is Allowed && done->Finish_1.principal == *principal,
        done->Finish_1.event is NetBind && done->Finish_1.event->NetBind_0@ == "unix:cli-socket"@,
{
}

/// Whoever asks for a socket that is shared gets the one that is there; the socket goes when the
/// last of its holders lets it go, and counts once however many there are.
pub proof fn law_shared_sockets(
    first: &mut TcpListeners,
    second: &mut TcpListeners,
    one_left: &mut TcpListeners,
    none_left: &mut TcpListeners,
    host: &str,
    port: u16,
    socket: u64,
    a: Take,
    b: Take,
    holders: usize,
    last: usize,
    gone: usize,
)
    requires
        old(first)@.valid(),
        old(first)@.count < 4,
        !old(first)@.shared.contains_key((host@, port)),
        call_ensures(
            TcpListeners::take,
            (first, host, port, true, &Some(Ok::<u64, IoError>(socket))),
            a,
        ),
        *old(second) == *final(first),
        call_ensures(
            TcpListeners::take,
            (second, host, port, true, &None::<Result<u64, IoError>>),
            b,
        ),
        call_ensures(TcpListeners::holders, (&*final(second), host, port), holders),
        *old(one_left) == *final(second),
        a is Held ==> call_ensures(TcpListeners::release, (one_left, &a->Held_1), ()),
        call_ensures(TcpListeners::holders, (&*final(one_left), host, port), last),
        *old(none_left) == *final(one_left),
        b is Held ==> call_ensures(TcpListeners::release, (none_left, &b->Held_1), ()),
        call_ensures(TcpListeners::holders, (&*final(none_left), host, port), gone),
    ensures
        a is Held && a->Held_0 == socket,
        b is Held && b->Held_0 == socket,
        holders == 2,
        final(second)@.count == old(first)@.count + 1,
        last == 1,
        final(one_left)@.count == old(first)@.count + 1,
        gone == 0,
        final(none_left)@.count == old(first)@.count,
{
}

/// A capsule serves four sockets at most; one of its own is never shared, and a socket that could
/// not be bound is told as the system told it.
pub proof fn law_sockets_are_capped(
    own: &mut TcpListeners,
    failed: &mut TcpListeners,
    asked: &mut TcpListeners,
    host: &str,
    port: u16,
    socket: u64,
    error: IoError,
    a: Take,
    b: Take,
    c: Take,
    code: ErrorCode,
    n: usize,
)
    requires
        call_ensures(TcpListeners::count, (&*old(own),), n),
        call_ensures(
            TcpListeners::take,
            (own, host, port, false, &Some(Ok::<u64, IoError>(socket))),
            a,
        ),
        call_ensures(
            TcpListeners::take,
            (failed, host, port, false, &Some(Err::<u64, IoError>(error))),
            b,
        ),
        call_ensures(
            TcpListeners::take,
            (asked, host, port, false, &None::<Result<u64, IoError>>),
            c,
        ),
        call_ensures(map_io_err, (&error,), code),
    ensures
        n < 4 ==> a is Held && a->Held_0 == socket && a->Held_1 is Own && final(own)@.count == n + 1
            && final(own)@.shared == old(own)@.shared,
        n >= 4 ==> a is Failed && a->Failed_0 is Quota && final(own)@ == old(own)@,
        b is Failed && final(failed)@ == old(failed)@,
        b->Failed_0 is AddressInUse <==> code is AddressInUse,
        b->Failed_0 is Timeout <==> code is Timeout,
        c is Bind && final(asked)@ == old(asked)@,
{
}

/// A socket that turns out to lie outside the loopback is let go, and so is one that cannot be
/// kept; one that stays is recorded under its actual address.
pub proof fn law_settling_a_socket(
    settled: &mut TcpListeners,
    finished: &mut TcpListeners,
    dropped: &mut TcpListeners,
    principal: &PrincipalId,
    asked: &str,
    at: LocalAddr,
    rep: u32,
    text: String,
    actual: &str,
    r: Result<String, (ErrorCode, AuditRecord)>,
    kept: (Result<u32, ErrorCode>, AuditRecord),
    lost: (Result<u32, ErrorCode>, AuditRecord),
)
    requires
        old(settled)@.count > 0,
        call_ensures(TcpListeners::settle, (settled, principal, asked, &Lease::Own, &Ok(at)), r),
        call_ensures(
            TcpListeners::finish,
            (finished, principal, asked, actual, &Lease::Own, &Ok(rep)),
            kept,
        ),
        old(dropped)@.count > 0,
        call_ensures(
            TcpListeners::finish,
            (dropped, principal, asked, actual, &Lease::Own, &Err(text)),
            lost,
        ),
    ensures
        at.ip matches IpAddr::V4(first, _, _, _) && first == 127 ==> r is Ok && r->Ok_0@ == "tcp:"@
            + at.text@ && final(settled)@ == old(settled)@,
        at.ip matches IpAddr::V4(first, _, _, _) && first != 127 ==> r is Err
            && r->Err_0.0 is AirlockRejected && final(settled)@.count == old(settled)@.count - 1,
        kept.0 == Ok::<u32, ErrorCode>(rep) && kept.1.outcome is Allowed,
        kept.1.event is NetBind && kept.1.event->NetBind_0@ == actual@ && kept.1.principal
            == *principal,
        final(finished)@ == old(finished)@,
        lost.0 is Err && lost.0->Err_0 is Unknown && lost.1.outcome is Failed,
        lost.1.event is NetBind && lost.1.event->NetBind_0@ == asked@,
        final(dropped)@.count == old(dropped)@.count - 1,
{
}

/// A nonce spells its bytes in two digits each, so that different bytes make different nonces.
pub proof fn law_nonces_spell_their_bytes(n: usize, r: Result<String, String>, i: int)
    requires
        n * 2 <= isize::MAX,
        call_ensures(generate_nonce_hex, (n,), r),
    ensures
        r is Ok ==> r->Ok_0@.len() == 2 * n,
        r is Ok && 0 <= i < r->Ok_0@.len() ==> 48 <= r->Ok_0@[i] as int <= 57 || 97
            <= r->Ok_0@[i] as int <= 102,
{
    if r is Ok && 0 <= i < r->Ok_0@.len() {
        let drawn = choose|drawn: Result<Vec<u8>, String>| #[trigger]
            may_draw(n, drawn) && drawn is Ok && drawn->Ok_0@.len() == n && r->Ok_0@ == hex_pairs(
                drawn->Ok_0@,
            );
        let raw = drawn->Ok_0@;
        let d = if i % 2 == 0 {
            raw[i / 2] as int / 16
        } else {
            raw[i / 2] as int % 16
        };
        assert(r->Ok_0@[i] == hex_char(d));
    }
}

/// A peer that speaks another version is told its own version and that of the host, each as such.
pub proof fn law_versions_are_told(
    answers: &HandshakeAnswers,
    version: u32,
    step: HandshakeStep,
    theirs: String,
    ours: String,
)
    requires
        call_ensures(validate_handshake, (answers, version), step),
        answers.first is Some && answers.first->Some_0 is Ok,
        answers.first->Some_0->Ok_0.protocol_version != version,
        call_ensures(show, (answers.first->Some_0->Ok_0.protocol_version as u64,), theirs),
        call_ensures(show, (version as u64,), ours),
    ensures
        step is Refuse,
        step->Refuse_0@ == "Protocol version mismatch (client="@ + theirs@ + ", server="@ + ours@
            + "). Restart the daemon with `astrid daemon restart`."@,
{
}

/// What keeps a principal from being proved is told: a profile that is not to be had, a signature
/// that is none, keys of which none verifies, and no key at all.
pub proof fn law_unproved_principals_are_told_why(
    principal: &str,
    evidence: &Evidence,
    r: Result<String, String>,
)
    requires
        call_ensures(verify_principal_signature, (principal, evidence), r),
    ensures
        evidence.profile is Err ==> r is Err && r->Err_0@ == "cannot load principal profile: "@
            + evidence.profile->Err_0@,
        evidence.profile == Ok::<bool, String>(true) && evidence.signature is Err ==> r is Err
            && r->Err_0@ == "malformed signature: "@ + evidence.signature->Err_0@,
        evidence.profile == Ok::<bool, String>(true) && evidence.signature is Ok
            && evidence.keys@.len() == 0 ==> r is Err && r->Err_0@ == "principal "@ + principal@
            + " has no registered ed25519 key"@,
        evidence.profile == Ok::<bool, String>(true) && evidence.signature is Ok
            && evidence.keys@.len() == 1 && !(evidence.keys@[0].check is Verified) ==> r is Err
            && r->Err_0@ == "signature did not verify against any registered key for "@
            + principal@,
{
    if evidence.keys@.len() <= 1 && (evidence.keys@.len() == 0 || !(
    evidence.keys@[0].check is Verified)) {
        assert(none_verified(evidence.keys@));
    }
}

/// A claim, a nonce or a challenge that comes to nothing refuses the peer; what went wrong in
/// sending is not sent.
pub proof fn law_broken_challenges(
    answers: &HandshakeAnswers,
    version: u32,
    step: HandshakeStep,
)
    requires
        call_ensures(validate_handshake, (answers, version), step),
        answers.first is Some && answers.first->Some_0 is Ok,
        answers.first->Some_0->Ok_0.protocol_version == version,
        answers.token is Right,
        answers.first->Some_0->Ok_0.claimed_principal is Some,
    ensures
        answers.principal is Err ==> step is Refuse && step->Refuse_0@
            == "invalid claimed principal: "@ + answers.principal->Err_0@ && step->Refuse_1 is Some,
        answers.principal is Ok && answers.nonce is Some && answers.nonce->Some_0 is Err
            ==> step is Refuse && step->Refuse_0@ == "challenge nonce generation failed: "@
            + answers.nonce->Some_0->Err_0@ && step->Refuse_1 is Some,
        answers.principal is Ok && answers.nonce is Some && answers.nonce->Some_0 is Ok
            && answers.challenge_sent is Some && answers.challenge_sent->Some_0 is Err
            ==> step is Refuse && step->Refuse_0@ == "failed to send challenge: "@
            + answers.challenge_sent->Some_0->Err_0@ && step->Refuse_1 is None,
{
}

/// A handshake that is too long is told with its length, and one that does not come or is none with
/// the reason.
pub proof fn law_broken_handshakes(
    bytes: Vec<u8>,
    text: String,
    n: u64,
    written: String,
    long: Result<usize, String>,
    late: Result<usize, String>,
    failed: Result<usize, String>,
    slow: Result<HandshakeRequest, String>,
    broken: Result<HandshakeRequest, String>,
    invalid: Result<HandshakeRequest, String>,
)
    requires
        bytes@.len() == 4,
        n == bytes@[0] * 16777216 + bytes@[1] * 65536 + bytes@[2] * 256 + bytes@[3],
        call_ensures(show, (n,), written),
        call_ensures(handshake_length, (&HeaderAnswer::Bytes(bytes),), long),
        call_ensures(handshake_length, (&HeaderAnswer::TimedOut,), late),
        call_ensures(handshake_length, (&HeaderAnswer::Failed(text),), failed),
        call_ensures(handshake_request, (PayloadAnswer::TimedOut,), slow),
        call_ensures(handshake_request, (PayloadAnswer::Failed(text),), broken),
        call_ensures(handshake_request, (PayloadAnswer::Invalid(text),), invalid),
    ensures
        n > 4096 ==> long is Err && long->Err_0@ == "handshake too large: "@ + written@ + " bytes"@,
        late is Err && late->Err_0@ == "handshake timed out (5s)"@,
        failed is Err && failed->Err_0@ == "handshake read error: "@ + text@,
        slow is Err && slow->Err_0@ == "handshake payload timed out"@,
        broken is Err && broken->Err_0@ == "handshake payload read error: "@ + text@,
        invalid is Err && invalid->Err_0@ == "invalid handshake JSON: "@ + text@,
{
}

/// A peer of another user is told both users, each as such.
pub proof fn law_other_users_are_told(
    uid: u32,
    own: u32,
    theirs: String,
    ours: String,
    r: Result<(), String>,
)
    requires
        uid != own,
        call_ensures(verify_peer_credentials, (&Ok(uid), own), r),
        call_ensures(show, (uid as u64,), theirs),
        call_ensures(show, (own as u64,), ours),
    ensures
        r is Err && r->Err_0@ == "peer UID "@ + theirs@ + " does not match daemon UID "@ + ours@,
{
}

/// After a stranger accepting waits a moment, after a peer that was refused it does not.
pub proof fn law_strangers_are_waited_out(
    text: String,
    error: IoError,
    code: ErrorCode,
    stranger: AcceptStep,
    refused: AcceptStep,
    failed: AcceptStep,
    polled: AcceptStep,
)
    requires
        call_ensures(accept_step, (Attempt::Stranger(text),), stranger),
        call_ensures(accept_step, (Attempt::Came(Handshake::Refused(text)),), refused),
        call_ensures(accept_step, (Attempt::Failed(error),), failed),
        call_ensures(poll_step, (Attempt::Failed(error),), polled),
        call_ensures(map_io_err, (&error,), code),
    ensures
        stranger == AcceptStep::Retry(100),
        refused == AcceptStep::Retry(0),
        failed is Fail && polled is Fail,
        code is Timeout <==> failed->Fail_0 is Timeout,
        code is ConnectionReset <==> polled->Fail_0 is ConnectionReset,
{
}

/// What a socket was to be bound to is told with the host and the port.
pub proof fn law_bound_addresses_are_told(
    principal: &PrincipalId,
    host: &str,
    port: u16,
    ip: Option<IpAddr>,
    share: bool,
    reason: String,
    check: BindCheck,
    denied: BindCheck,
    written: String,
    valid: Result<(), ErrorCode>,
    local: bool,
    concrete: String,
)
    requires
        call_ensures(bind_check, (principal, host, port, ip, &None::<String>, share), check),
        call_ensures(bind_check, (principal, host, port, ip, &Some(reason), share), denied),
        call_ensures(show, (port as u64,), written),
        call_ensures(validate_host, (host,), valid),
        valid is Ok,
        call_ensures(is_loopback_bind_host, (host, ip), local),
        call_ensures(concrete_host, (host,), concrete),
    ensures
        local ==> check is Go && check->addr@ == "tcp:"@ + host@ + ":"@ + written@ && check->host@
            == concrete@,
        denied is Failed && denied->Failed_1 is Some && denied->Failed_1->Some_0.event is NetBind
            && denied->Failed_1->Some_0.event->NetBind_0@ == "tcp:"@ + host@ + ":"@ + written@,
        !local ==> check is Failed && check->Failed_1 is Some
            && check->Failed_1->Some_0.event is NetBind
            && check->Failed_1->Some_0.event->NetBind_0@ == "tcp:"@ + host@ + ":"@ + written@
            && check->Failed_1->Some_0.principal == *principal,
{
}

/// A socket whose address is not to be had is let go, also where it was shared, and the failure is
/// told as the system tells it.
pub proof fn law_lost_sockets_are_let_go(
    own: &mut TcpListeners,
    shared: &mut TcpListeners,
    principal: &PrincipalId,
    asked: &str,
    host: String,
    port: u16,
    error: IoError,
    code: ErrorCode,
    a: Result<String, (ErrorCode, AuditRecord)>,
    b: Result<String, (ErrorCode, AuditRecord)>,
)
    requires
        old(own)@.count > 0,
        call_ensures(TcpListeners::settle, (own, principal, asked, &Lease::Own, &Err(error)), a),
        old(shared)@.shared.contains_key((host@, port)),
        old(shared)@.shared[(host@, port)].holders > 1,
        call_ensures(
            TcpListeners::settle,
            (shared, principal, asked, &Lease::Shared(host, port), &Err(error)),
            b,
        ),
        call_ensures(map_io_err, (&error,), code),
    ensures
        a is Err && b is Err,
        final(own)@.count == old(own)@.count - 1,
        a->Err_0.1.event is NetBind && a->Err_0.1.event->NetBind_0@ == asked@
            && a->Err_0.1.principal == *principal && a->Err_0.1.outcome is Failed,
        a->Err_0.0 is AddressInUse <==> code is AddressInUse,
        final(shared)@.shared.contains_key((host@, port)),
        final(shared)@.shared[(host@, port)].holders == old(shared)@.shared[(host@, port)].holders
            - 1,
        final(shared)@.shared[(host@, port)].socket == old(shared)@.shared[(host@, port)].socket,
        final(shared)@.count == old(shared)@.count,
{
}

/// Binding the control socket is told under its own address, whatever comes of it, with the reason
/// of a refusal or a failure.
pub proof fn law_control_socket_is_told(
    principal: &PrincipalId,
    reason: String,
    text: String,
    rep: u32,
    refused: UnixBind,
    failed: UnixBind,
    bound: UnixBind,
)
    requires
        call_ensures(
            bind_unix,
            (principal, &Some(reason), &None::<Result<u32, String>>),
            refused,
        ),
        call_ensures(bind_unix, (principal, &None::<String>, &Some(Err::<u32, String>(text))), failed),
        call_ensures(bind_unix, (principal, &None::<String>, &Some(Ok::<u32, String>(rep))), bound),
    ensures
        refused is Finish && failed is Finish && bound is Finish,
        refused->Finish_0 == Err::<u32, ErrorCode>(ErrorCode::CapabilityDenied),
        refused->Finish_1.outcome is Denied && refused->Finish_1.outcome->Denied_0@ == reason@,
        failed->Finish_0 is Err && failed->Finish_0->Err_0 is Unknown
            && failed->Finish_0->Err_0->Unknown_0@ == "resource table: "@ + text@,
        failed->Finish_1.outcome is Failed && failed->Finish_1.outcome->Failed_0@
            == "resource table: "@ + text@,
        bound->Finish_0 == Ok::<u32, ErrorCode>(rep) && bound->Finish_1.outcome is Allowed,
        refused->Finish_1.principal == *principal && failed->Finish_1.principal == *principal
            && bound->Finish_1.principal == *principal,
        refused->Finish_1.event is NetBind && refused->Finish_1.event->NetBind_0@
            == "unix:cli-socket"@,
        failed->Finish_1.event is NetBind && failed->Finish_1.event->NetBind_0@
            == "unix:cli-socket"@,
        bound->Finish_1.event is NetBind && bound->Finish_1.event->NetBind_0@ == "unix:cli-socket"@,
{
}

/// Nothing is bound at first.
pub proof fn law_nothing_is_bound_at_first(listeners: TcpListeners, host: Seq<char>, port: u16)
    requires
        call_ensures(TcpListeners::new, (), listeners),
    ensures
        listeners@.count == 0 && !listeners@.shared.contains_key((host, port)),
{
}

/// A client that came and went is told of twice, under the same principal, and each time as what
/// happened.
pub proof fn law_comings_and_goings_are_told(
    came: &mut ClientConnections,
    went: &mut ClientConnections,
    rep: u32,
    principal: &str,
    a: LifecycleEvent,
    b: Option<LifecycleEvent>,
)
    requires
        call_ensures(register_and_emit_connect, (came, rep, principal), a),
        *old(went) == *final(came),
        call_ensures(emit_client_disconnect, (went, rep), b),
    ensures
        a.topic@ == "client.v1.connect"@ && a.reason is None && a.principal@ == principal@,
        b is Some && b->Some_0.topic@ == "client.v1.disconnect"@ && b->Some_0.principal@
            == principal@,
        b->Some_0.reason is Some && b->Some_0.reason->Some_0@ == "socket closed"@,
        !final(went)@.contains_key(rep),
{
}

} // verus!
