//! How a client on the local socket is let in.
//!
//! A client sends a request with the version it speaks and the token of the session. A client
//! that claims to act for a principal is challenged: it has to sign a fresh nonce with a key
//! that the principal has registered. A claim that is not proved ends the handshake; it is never
//! passed over.

use vstd::prelude::*;

use crate::entropy::{draw, may_draw};
use crate::net::frame::spelled;
use crate::numbers::{decimal, show};
use crate::process::persistent::ring::hex_char;
use crate::text::{concat2, concat3};

verus! {

/// How long each step of a handshake may take, in milliseconds.
pub const HANDSHAKE_TIMEOUT_MS: u64 = 5000;

/// How many bytes a request may have.
pub const MAX_HANDSHAKE_SIZE: usize = 4096;

/// What a client sends.
pub struct HandshakeRequest {
    pub protocol_version: u32,
    pub token: String,
    pub client_version: String,
    pub claimed_principal: Option<String>,
    pub signature: Option<String>,
}

/// What a client is answered.
pub enum Reply {
    Accepted,
    /// Sign this nonce.
    Challenge(String),
    Refused(String),
}

/// What became of holding the token of a client against that of the session.
#[derive(Debug, Clone, Copy, PartialEq, Eq, Structural)]
pub enum TokenCheck {
    Malformed,
    Wrong,
    Right,
}

/// What became of reading the length of a request.
pub enum HeaderAnswer {
    TimedOut,
    Failed(String),
    Bytes(Vec<u8>),
}

/// What became of reading a request.
pub enum PayloadAnswer {
    TimedOut,
    Failed(String),
    /// It is no request.
    Invalid(String),
    Request(HandshakeRequest),
}

/// What became of holding a signature against a key.
#[derive(Debug, Clone, Copy, PartialEq, Eq, Structural)]
pub enum KeyCheck {
    /// The key cannot be read.
    Unreadable,
    Refused,
    Verified,
}

/// A key that a principal has registered, and what the signature is under it.
pub struct CheckedKey {
    pub key_id: String,
    pub check: KeyCheck,
}

/// What is known of the signature of a client.
pub struct Evidence {
    /// Whether the principal is enabled, or why its profile cannot be read.
    pub profile: Result<bool, String>,
    /// Whether the signature is one at all, or why not.
    pub signature: Result<(), String>,
    pub keys: Vec<CheckedKey>,
}

/// The answers so far.
pub struct HandshakeAnswers {
    pub first: Option<Result<HandshakeRequest, String>>,
    /// What the token of the first request is.
    pub token: TokenCheck,
    /// Whether the name of the claimed principal is one, or why not.
    pub principal: Result<(), String>,
    pub nonce: Option<Result<String, String>>,
    pub challenge_sent: Option<Result<(), String>>,
    pub second: Option<Result<HandshakeRequest, String>>,
    pub evidence: Option<Evidence>,
    pub accept_sent: Option<Result<(), String>>,
}

/// What to do next.
pub enum HandshakeStep {
    ReadFirst,
    /// Draw a nonce.
    DrawNonce,
    /// Challenge the client to sign this nonce.
    SendChallenge(String),
    ReadSecond,
    /// Hold the signature of the client over this message against the keys of the principal.
    CheckKeys(String),
    SendAccept,
    /// The client is in: as this principal with this key, or as nobody in particular.
    LetIn(Option<(String, String)>),
    /// The client is refused for this reason, and told so if there is an answer.
    Refuse(String, Option<Reply>),
}

/// What to do next, as a value.
pub enum HandshakeNext {
    ReadFirst,
    DrawNonce,
    SendChallenge(Seq<char>),
    ReadSecond,
    CheckKeys(Seq<char>),
    SendAccept,
    LetIn(Option<(Seq<char>, Seq<char>)>),
    Refuse(Seq<char>, Option<Seq<char>>),
}

impl HandshakeStep {
    /// The step is `next`.
    pub open spec fn is_next(self, next: HandshakeNext) -> bool {
        match (self, next) {
            (HandshakeStep::ReadFirst, HandshakeNext::ReadFirst) => true,
            (HandshakeStep::DrawNonce, HandshakeNext::DrawNonce) => true,
            (HandshakeStep::SendChallenge(a), HandshakeNext::SendChallenge(b)) => a@ == b,
            (HandshakeStep::ReadSecond, HandshakeNext::ReadSecond) => true,
            (HandshakeStep::CheckKeys(a), HandshakeNext::CheckKeys(b)) => a@ == b,
            (HandshakeStep::SendAccept, HandshakeNext::SendAccept) => true,
            (HandshakeStep::LetIn(a), HandshakeNext::LetIn(b)) => match (a, b) {
                (Some(x), Some(y)) => x.0@ == y.0 && x.1@ == y.1,
                (None, None) => true,
                _ => false,
            },
            (HandshakeStep::Refuse(a, x), HandshakeNext::Refuse(b, y)) => a@ == b && match (x, y) {
                (Some(Reply::Refused(text)), Some(words)) => text@ == words,
                (None, None) => true,
                _ => false,
            },
            _ => false,
        }
    }
}

/// The length of a request, or why there is none.
pub fn handshake_length(answer: &HeaderAnswer) -> (r: Result<usize, String>)
    requires
        *answer is Bytes ==> answer->Bytes_0@.len() == 4,
    ensures
        match *answer {
            HeaderAnswer::TimedOut => r is Err && r->Err_0@ == "handshake timed out (5s)"@,
            HeaderAnswer::Failed(text) => r is Err && r->Err_0@ == "handshake read error: "@ + text@,
            HeaderAnswer::Bytes(bytes) => if spelled(bytes@) > MAX_HANDSHAKE_SIZE {
                r is Err && r->Err_0@ == "handshake too large: "@ + decimal(spelled(bytes@) as nat)
                    + " bytes"@
            } else {
                r is Ok && r->Ok_0 == spelled(bytes@)
            },
        },
{
    match answer {
        HeaderAnswer::TimedOut => Err("handshake timed out (5s)".to_owned()),
        HeaderAnswer::Failed(text) => Err(concat2("handshake read error: ", text.as_str())),
        HeaderAnswer::Bytes(bytes) => {
            let n: u64 = bytes[0] as u64 * 16777216 + bytes[1] as u64 * 65536 + bytes[2] as u64 * 256
                + bytes[3] as u64;
            if n > 4096 {
                return Err(concat3("handshake too large: ", show(n).as_str(), " bytes"));
            }
            Ok(n as usize)
        },
    }
}

/// The request that was read, or why there is none.
pub fn handshake_request(answer: PayloadAnswer) -> (r: Result<HandshakeRequest, String>)
    ensures
        match answer {
            PayloadAnswer::TimedOut => r is Err && r->Err_0@ == "handshake payload timed out"@,
            PayloadAnswer::Failed(text) => r is Err && r->Err_0@
                == "handshake payload read error: "@ + text@,
            PayloadAnswer::Invalid(text) => r is Err && r->Err_0@ == "invalid handshake JSON: "@
                + text@,
            PayloadAnswer::Request(request) => r == Ok::<HandshakeRequest, String>(request),
        },
{
    match answer {
        PayloadAnswer::TimedOut => Err("handshake payload timed out".to_owned()),
        PayloadAnswer::Failed(text) => Err(
            concat2("handshake payload read error: ", text.as_str()),
        ),
        PayloadAnswer::Invalid(text) => Err(concat2("invalid handshake JSON: ", text.as_str())),
        PayloadAnswer::Request(request) => Ok(request),
    }
}

/// What a client signs.
pub open spec fn challenge_text(principal: Seq<char>, nonce: Seq<char>) -> Seq<char> {
    "astrid-principal-auth:v1:"@ + principal + ":"@ + nonce
}

/// What a client signs to act for a principal.
pub fn challenge_message(principal: &str, nonce: &str) -> (text: String)
    ensures
        text@ == challenge_text(principal@, nonce@),
{
    let head = concat3("astrid-principal-auth:v1:", principal, ":");
    concat2(head.as_str(), nonce)
}

/// The bytes in lower-case hexadecimal digits, two for each, the higher first.
pub open spec fn hex_pairs(bytes: Seq<u8>) -> Seq<char> {
    Seq::new(
        bytes.len() * 2,
        |i: int|
            hex_char(
                if i % 2 == 0 {
                    bytes[i / 2] as int / 16
                } else {
                    bytes[i / 2] as int % 16
                },
            ),
    )
}

/// `hex::encode` writes each byte in two lower-case hexadecimal digits.
#[verifier::external_body]
fn hex_encode(bytes: &[u8]) -> (text: String)
    requires
        bytes@.len() * 2 <= isize::MAX,
    ensures
        text@ == hex_pairs(bytes@),
{
    hex::encode(bytes)
}

/// A fresh nonce: so many random bytes, in hexadecimal digits. There is none only where no random
/// bytes were to be had, and then for the same reason.
pub fn generate_nonce_hex(bytes: usize) -> (r: Result<String, String>)
    requires
        bytes * 2 <= isize::MAX,
    ensures
        exists|drawn: Result<Vec<u8>, String>| #[trigger]
            may_draw(bytes, drawn) && match drawn {
                Ok(raw) => {
                    &&& raw@.len() == bytes
                    &&& r is Ok
                    &&& r->Ok_0@ == hex_pairs(raw@)
                },
                Err(why) => r is Err && r->Err_0@ == "entropy source unavailable: "@ + why@,
            },
{
    let drawn = draw(bytes);
    assert(may_draw(bytes, drawn));
    match drawn {
        Ok(raw) => Ok(hex_encode(raw.as_slice())),
        Err(why) => Err(concat2("entropy source unavailable: ", why.as_str())),
    }
}

/// The key at `i` is the first under which the signature verifies.
pub open spec fn first_verified(keys: Seq<CheckedKey>, i: int) -> bool {
    &&& 0 <= i < keys.len()
    &&& keys[i].check == KeyCheck::Verified
    &&& forall|k: int| 0 <= k < i ==> (#[trigger] keys[k]).check != KeyCheck::Verified
}

/// The signature verifies under none of the keys.
pub open spec fn none_verified(keys: Seq<CheckedKey>) -> bool {
    forall|k: int| 0 <= k < keys.len() ==> (#[trigger] keys[k]).check != KeyCheck::Verified
}

/// The key that the evidence names, or why it names none.
pub open spec fn verdict(principal: Seq<char>, evidence: Evidence) -> Result<Seq<char>, Seq<char>> {
    match evidence.profile {
        Err(text) => Err("cannot load principal profile: "@ + text@),
        Ok(enabled) => if !enabled {
            Err("principal "@ + principal + " is disabled"@)
        } else {
            match evidence.signature {
                Err(text) => Err("malformed signature: "@ + text@),
                Ok(()) => if none_verified(evidence.keys@) {
                    if evidence.keys@.len() > 0 {
                        Err("signature did not verify against any registered key for "@ + principal)
                    } else {
                        Err("principal "@ + principal + " has no registered ed25519 key"@)
                    }
                } else {
                    Ok(evidence.keys@[choose|i: int| first_verified(evidence.keys@, i)].key_id@)
                },
            }
        },
    }
}

/// The first key under which the signature verifies. A key that cannot be read does not stand in
/// the way of a later one.
pub fn verify_signature_against_keys(principal: &str, keys: &Vec<CheckedKey>) -> (r: Result<
    String,
    String,
>)
    ensures
        match r {
            Ok(key_id) => {
                &&& !none_verified(keys@)
                &&& exists|i: int| #[trigger] first_verified(keys@, i) && key_id == keys@[i].key_id
            },
            Err(text) => {
                &&& none_verified(keys@)
                &&& text@ == (if keys@.len() > 0 {
                    "signature did not verify against any registered key for "@ + principal@
                } else {
                    "principal "@ + principal@ + " has no registered ed25519 key"@
                })
            },
        },
{
    let mut i: usize = 0;
    while i < keys.len()
        invariant
            i <= keys@.len(),
            forall|k: int| 0 <= k < i ==> (#[trigger] keys@[k]).check != KeyCheck::Verified,
        decreases keys.len() - i,
    {
        match keys[i].check {
            KeyCheck::Verified => {
                assert(first_verified(keys@, i as int));
                return Ok(keys[i].key_id.clone());
            },
            _ => {},
        }
        i += 1;
    }
    if keys.len() > 0 {
        Err(concat2("signature did not verify against any registered key for ", principal))
    } else {
        Err(concat3("principal ", principal, " has no registered ed25519 key"))
    }
}

/// The key by which a client has proved to act for a principal, or why it has not.
pub fn verify_principal_signature(principal: &str, evidence: &Evidence) -> (r: Result<
    String,
    String,
>)
    ensures
        match r {
            Ok(key_id) => verdict(principal@, *evidence) == Ok::<Seq<char>, Seq<char>>(key_id@),
            Err(text) => verdict(principal@, *evidence) == Err::<Seq<char>, Seq<char>>(text@),
        },
{
    match &evidence.profile {
        Err(text) => {
            return Err(concat2("cannot load principal profile: ", text.as_str()));
        },
        Ok(enabled) => {
            if !*enabled {
                return Err(concat3("principal ", principal, " is disabled"));
            }
        },
    }
    match &evidence.signature {
        Err(text) => {
            return Err(concat2("malformed signature: ", text.as_str()));
        },
        Ok(()) => {},
    }
    let r = verify_signature_against_keys(principal, &evidence.keys);
    proof {
        if r is Ok {
            let keys = evidence.keys@;
            let i = choose|i: int| #[trigger]
                first_verified(keys, i) && r->Ok_0 == keys[i].key_id;
            let j = choose|j: int| first_verified(keys, j);
            assert(first_verified(keys, j));
            assert(i == j);
        }
    }
    r
}

/// What a client that speaks another version is told.
pub open spec fn version_text(client: u32, server: u32) -> Seq<char> {
    "Protocol version mismatch (client="@ + decimal(client as nat) + ", server="@ + decimal(
        server as nat,
    ) + "). Restart the daemon with `astrid daemon restart`."@
}

/// What a client that speaks another version is told.
fn version_message(client: u32, server: u32) -> (text: String)
    ensures
        text@ == version_text(client, server),
{
    let head = concat3("Protocol version mismatch (client=", show(client as u64).as_str(), ", server=");
    concat3(
        head.as_str(),
        show(server as u64).as_str(),
        "). Restart the daemon with `astrid daemon restart`.",
    )
}

/// A refusal that tells the client nothing of its reason.
pub open spec fn refused(reason: Seq<char>) -> HandshakeNext {
    HandshakeNext::Refuse(reason, Some("authentication failed"@))
}

/// What follows for a client that claims a principal.
pub open spec fn challenge_next(answers: HandshakeAnswers, principal: Seq<char>) -> HandshakeNext {
    match answers.principal {
        Err(text) => refused("invalid claimed principal: "@ + text@),
        Ok(()) => match answers.nonce {
            None => HandshakeNext::DrawNonce,
            Some(Err(text)) => refused("challenge nonce generation failed: "@ + text@),
            Some(Ok(nonce)) => match answers.challenge_sent {
                None => HandshakeNext::SendChallenge(nonce@),
                Some(Err(text)) => HandshakeNext::Refuse("failed to send challenge: "@ + text@, None),
                Some(Ok(())) => match answers.second {
                    None => HandshakeNext::ReadSecond,
                    Some(Err(text)) => HandshakeNext::Refuse(text@, None),
                    Some(Ok(request)) => if request.signature is None {
                        refused("missing signature in second handshake frame"@)
                    } else {
                        match answers.evidence {
                            None => HandshakeNext::CheckKeys(challenge_text(principal, nonce@)),
                            Some(evidence) => match verdict(principal, evidence) {
                                Err(text) => refused(text),
                                Ok(key_id) => finish_next(answers, Some((principal, key_id))),
                            },
                        }
                    },
                },
            },
        },
    }
}

/// What follows once everything was proved.
pub open spec fn finish_next(
    answers: HandshakeAnswers,
    identity: Option<(Seq<char>, Seq<char>)>,
) -> HandshakeNext {
    match answers.accept_sent {
        None => HandshakeNext::SendAccept,
        Some(Err(text)) => HandshakeNext::Refuse(
            "failed to send handshake response: "@ + text@,
            None,
        ),
        Some(Ok(())) => HandshakeNext::LetIn(identity),
    }
}

/// What follows from the answers of a handshake. The version is looked at before the token, so
/// that nothing on the token can be learned from it; a token that is malformed and one that is
/// wrong are answered alike.
pub open spec fn handshake_next(answers: HandshakeAnswers, server_version: u32) -> HandshakeNext {
    match answers.first {
        None => HandshakeNext::ReadFirst,
        Some(Err(text)) => HandshakeNext::Refuse(text@, None),
        Some(Ok(request)) => if request.protocol_version != server_version {
            HandshakeNext::Refuse(
                version_text(request.protocol_version, server_version),
                Some(version_text(request.protocol_version, server_version)),
            )
        } else if answers.token != TokenCheck::Right {
            refused("invalid session token"@)
        } else if request.claimed_principal is Some {
            challenge_next(answers, request.claimed_principal->Some_0@)
        } else {
            finish_next(answers, None)
        },
    }
}

/// A refusal that tells the client nothing of its reason.
fn refuse(reason: String) -> (step: HandshakeStep)
    ensures
        step.is_next(refused(reason@)),
{
    HandshakeStep::Refuse(reason, Some(Reply::Refused("authentication failed".to_owned())))
}

/// What follows once everything was proved.
fn finish_step(answers: &HandshakeAnswers, identity: Option<(String, String)>) -> (step:
    HandshakeStep)
    ensures
        step.is_next(
            finish_next(
                *answers,
                match identity {
                    Some(pair) => Some((pair.0@, pair.1@)),
                    None => None,
                },
            ),
        ),
{
    match &answers.accept_sent {
        None => HandshakeStep::SendAccept,
        Some(Err(text)) => HandshakeStep::Refuse(
            concat2("failed to send handshake response: ", text.as_str()),
            None,
        ),
        Some(Ok(())) => HandshakeStep::LetIn(identity),
    }
}

/// What follows for a client that claims a principal.
fn run_principal_challenge(answers: &HandshakeAnswers, principal: &str) -> (step: HandshakeStep)
    ensures
        step.is_next(challenge_next(*answers, principal@)),
{
    match &answers.principal {
        Err(text) => {
            return refuse(concat2("invalid claimed principal: ", text.as_str()));
        },
        Ok(()) => {},
    }
    let nonce = match &answers.nonce {
        None => {
            return HandshakeStep::DrawNonce;
        },
        Some(Err(text)) => {
            return refuse(concat2("challenge nonce generation failed: ", text.as_str()));
        },
        Some(Ok(nonce)) => nonce,
    };
    match &answers.challenge_sent {
        None => {
            return HandshakeStep::SendChallenge(nonce.clone());
        },
        Some(Err(text)) => {
            return HandshakeStep::Refuse(
                concat2("failed to send challenge: ", text.as_str()),
                None,
            );
        },
        Some(Ok(())) => {},
    }
    match &answers.second {
        None => {
            return HandshakeStep::ReadSecond;
        },
        Some(Err(text)) => {
            return HandshakeStep::Refuse(text.clone(), None);
        },
        Some(Ok(request)) => {
            if request.signature.is_none() {
                return refuse("missing signature in second handshake frame".to_owned());
            }
        },
    }
    match &answers.evidence {
        None => HandshakeStep::CheckKeys(challenge_message(principal, nonce.as_str())),
        Some(evidence) => match verify_principal_signature(principal, evidence) {
            Err(text) => refuse(text),
            Ok(key_id) => finish_step(answers, Some((principal.to_owned(), key_id))),
        },
    }
}

/// What to do next in a handshake.
pub fn validate_handshake(answers: &HandshakeAnswers, server_version: u32) -> (step: HandshakeStep)
    ensures
        step.is_next(handshake_next(*answers, server_version)),
{
    let request = match &answers.first {
        None => {
            return HandshakeStep::ReadFirst;
        },
        Some(Err(text)) => {
            return HandshakeStep::Refuse(text.clone(), None);
        },
        Some(Ok(request)) => request,
    };
    if request.protocol_version != server_version {
        let reason = version_message(request.protocol_version, server_version);
        let reply = Reply::Refused(reason.clone());
        return HandshakeStep::Refuse(reason, Some(reply));
    }
    match answers.token {
        TokenCheck::Right => {},
        _ => {
            return refuse("invalid session token".to_owned());
        },
    }
    match &request.claimed_principal {
        Some(claimed) => run_principal_challenge(answers, claimed.as_str()),
        None => finish_step(answers, None),
    }
}

/// Checks that a peer runs under the same user as the host.
pub fn verify_peer_credentials(peer: &Result<u32, String>, own: u32) -> (r: Result<(), String>)
    ensures
        match *peer {
            Err(text) => r is Err && r->Err_0@ == "failed to check peer credentials: "@ + text@,
            Ok(uid) => if uid == own {
                r is Ok
            } else {
                r is Err && r->Err_0@ == "peer UID "@ + decimal(uid as nat)
                    + " does not match daemon UID "@ + decimal(own as nat)
            },
        },
{
    match peer {
        Err(text) => Err(concat2("failed to check peer credentials: ", text.as_str())),
        Ok(uid) => {
            if *uid == own {
                return Ok(());
            }
            let head = concat3(
                "peer UID ",
                show(*uid as u64).as_str(),
                " does not match daemon UID ",
            );
            Err(concat2(head.as_str(), show(own as u64).as_str()))
        },
    }
}

/// A client is let in as a principal only if it claimed that very one in its first request, its
/// principal is enabled, and its signature verifies under a key of that principal. A claim that is not proved lets nobody in.
pub proof fn law_claims_are_proved(answers: HandshakeAnswers, server_version: u32)
    requires
        handshake_next(answers, server_version) is LetIn,
    ensures
        answers.first is Some && answers.first->Some_0 is Ok,
        answers.token == TokenCheck::Right,
        ({
            let request = answers.first->Some_0->Ok_0;
            let identity = handshake_next(answers, server_version)->LetIn_0;
            &&& request.protocol_version == server_version
            &&& identity is Some <==> request.claimed_principal is Some
            &&& identity is Some ==> {
                &&& answers.evidence is Some
                &&& answers.evidence->Some_0.profile == Ok::<bool, String>(true)
                &&& !none_verified(answers.evidence->Some_0.keys@)
                &&& answers.principal is Ok
                &&& identity->Some_0.0 == request.claimed_principal->Some_0@
            }
        }),
{
}

/// What a client that is not let in learns does not depend on what is wrong with its token.
pub proof fn law_tokens_fail_alike(
    answers: HandshakeAnswers,
    other: HandshakeAnswers,
    server_version: u32,
)
    requires
        answers.token == TokenCheck::Malformed,
        other.token == TokenCheck::Wrong,
        answers.first == other.first,
    ensures
        handshake_next(answers, server_version) == handshake_next(other, server_version),
{
}

} // verus!
