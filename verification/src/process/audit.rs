//! What starting a process leaves in the audit chain.

use vstd::prelude::*;
use vstd::utf8::encode_utf8;

use crate::audit::{AuditEvent, AuditOutcome, AuditRecord};
use crate::digest::{digest, digest_of};
use crate::host_state::types::PrincipalId;
use crate::process::types::{EnvVar, ErrorCode};
use crate::text::{
    concat2, concat3, join, joined, lemma_segments_nonempty, segments, split, starts_with, str_eq,
    views,
};

verus! {

/// How many digits of a digest stand for an id.
pub const ID_DIGITS: usize = 16;

/// The verb of an operation: what follows the last dot.
pub open spec fn verb(op: Seq<char>) -> Seq<char> {
    segments(op, '.').last()
}

/// The operation starts a new process.
pub open spec fn starts_process(op: Seq<char>) -> bool {
    verb(op) == "spawn"@ || "spawn-"@.is_prefix_of(verb(op))
}

/// Whether the operation starts a new process.
pub fn is_spawn_op(op: &str) -> (r: bool)
    ensures
        r == starts_process(op@),
{
    let parts = split(op, '.');
    let last = parts[parts.len() - 1].as_str();
    assert(views(parts@).last() == last@);
    str_eq(last, "spawn") || starts_with(last, "spawn-")
}

/// The names of the variables that a request sets, without their values.
pub open spec fn env_names(env: Seq<EnvVar>) -> Seq<Seq<char>> {
    env.map_values(|var: EnvVar| var.key@)
}

/// What is told of the environment of a request: the names, and never the values.
pub fn env_summary(env: &Vec<EnvVar>) -> (text: String)
    ensures
        text@ == joined(env_names(env@), ","@),
{
    let mut names: Vec<String> = Vec::new();
    let mut i: usize = 0;
    while i < env.len()
        invariant
            i <= env@.len(),
            views(names@) == env_names(env@.take(i as int)),
        decreases env.len() - i,
    {
        let ghost before = names@;
        names.push(env[i].key.clone());
        proof {
            let key = env@[i as int].key@;
            assert(views(names@) =~= views(before).push(key));
            assert(env_names(env@.take(i + 1)) =~= env_names(env@.take(i as int)).push(key));
        }
        i += 1;
    }
    assert(env@.take(env@.len() as int) =~= env@);
    join(&names, ",")
}

/// `record` says that `principal` tried to start `command` and how it ended.
pub open spec fn records_spawn(
    record: AuditRecord,
    principal: PrincipalId,
    command: Seq<char>,
    failure: Option<ErrorCode>,
) -> bool {
    &&& record.principal == principal
    &&& record.event is ProcessSpawn
    &&& record.event->ProcessSpawn_0@ == command
    &&& match failure {
        None => record.outcome is Allowed,
        Some(code) => record.outcome is Failed && record.outcome->Failed_0@ == code.shown(),
    }
}

/// The entry that an operation leaves: one if it starts a process and there is a chain, else
/// none.
pub fn audit_process(
    principal: &PrincipalId,
    has_sink: bool,
    op: &str,
    command: &str,
    failure: &Option<ErrorCode>,
) -> (record: Option<AuditRecord>)
    ensures
        match record {
            Some(r) => starts_process(op@) && has_sink && records_spawn(
                r,
                *principal,
                command@,
                *failure,
            ),
            None => !(starts_process(op@) && has_sink),
        },
{
    if !is_spawn_op(op) || !has_sink {
        return None;
    }
    let outcome = match failure {
        None => AuditOutcome::Allowed,
        Some(code) => AuditOutcome::Failed(code.show()),
    };
    Some(
        AuditRecord {
            principal: principal.copy(),
            event: AuditEvent::ProcessSpawn(command.to_owned()),
            outcome,
        },
    )
}

/// Each injected file as its place and its digest.
pub open spec fn injection_parts(audit: Seq<(String, String)>) -> Seq<Seq<char>> {
    Seq::new(audit.len(), |i: int| audit[i].0@ + "="@ + audit[i].1@)
}

/// The injected files in one line. Neither their bytes nor where they come from is told.
pub fn injection_line(audit: &Vec<(String, String)>) -> (line: String)
    ensures
        line@ == joined(injection_parts(audit@), ","@),
{
    let mut parts: Vec<String> = Vec::new();
    let mut i: usize = 0;
    while i < audit.len()
        invariant
            i <= audit@.len(),
            parts@.len() == i,
            forall|k: int| 0 <= k < i ==> (#[trigger] parts@[k])@ == injection_parts(audit@)[k],
        decreases audit.len() - i,
    {
        parts.push(concat3(audit[i].0.as_str(), "=", audit[i].1.as_str()));
        i += 1;
    }
    assert(views(parts@) =~= injection_parts(audit@));
    join(&parts, ",")
}

/// What a start leaves: the entry of the chain, and the line of injected files if there are any.
pub struct SpawnTrace {
    pub record: Option<AuditRecord>,
    pub injections: Option<String>,
}

/// What a start with injected files leaves.
pub fn audit_process_injections(
    principal: &PrincipalId,
    has_sink: bool,
    op: &str,
    command: &str,
    audit: &Vec<(String, String)>,
    failure: &Option<ErrorCode>,
) -> (trace: SpawnTrace)
    ensures
        trace.injections is Some,
        trace.injections->Some_0@ == joined(injection_parts(audit@), ","@),
        match trace.record {
            Some(r) => starts_process(op@) && has_sink && records_spawn(
                r,
                *principal,
                command@,
                *failure,
            ),
            None => !(starts_process(op@) && has_sink),
        },
{
    SpawnTrace {
        record: audit_process(principal, has_sink, op, command, failure),
        injections: Some(injection_line(audit)),
    }
}

/// What a start leaves, with or without injected files. The entry of the chain is the same.
pub fn audit_spawn_result(
    principal: &PrincipalId,
    has_sink: bool,
    op: &str,
    command: &str,
    audit: &Vec<(String, String)>,
    failure: &Option<ErrorCode>,
) -> (trace: SpawnTrace)
    ensures
        (trace.injections is Some) == (audit@.len() > 0),
        trace.injections is Some ==> trace.injections->Some_0@ == joined(
            injection_parts(audit@),
            ","@,
        ),
        match trace.record {
            Some(r) => starts_process(op@) && has_sink && records_spawn(
                r,
                *principal,
                command@,
                *failure,
            ),
            None => !(starts_process(op@) && has_sink),
        },
{
    if audit.len() == 0 {
        SpawnTrace {
            record: audit_process(principal, has_sink, op, command, failure),
            injections: None,
        }
    } else {
        audit_process_injections(principal, has_sink, op, command, audit, failure)
    }
}

/// The entry that a refused start leaves, if there is a chain.
pub fn record_process_denied(
    principal: &PrincipalId,
    has_sink: bool,
    command: &str,
    reason: &str,
) -> (record: Option<AuditRecord>)
    ensures
        match record {
            Some(r) => {
                &&& has_sink
                &&& r.principal == *principal
                &&& r.event is ProcessSpawn
                &&& r.event->ProcessSpawn_0@ == command@
                &&& r.outcome is Denied
                &&& r.outcome->Denied_0@ == reason@
            },
            None => !has_sink,
        },
{
    if !has_sink {
        return None;
    }
    Some(
        AuditRecord {
            principal: principal.copy(),
            event: AuditEvent::ProcessSpawn(command.to_owned()),
            outcome: AuditOutcome::Denied(reason.to_owned()),
        },
    )
}

/// What stands for the id of a process in a log: the first digits of its digest, never the id.
pub fn audit_process_id(id: &str) -> (short: String)
    ensures
        short@ == digest_of(encode_utf8(id@)).take(ID_DIGITS as int),
        short@.len() == ID_DIGITS,
{
    let full = digest(id.as_bytes());
    let short = full.as_str().substring_char(0, ID_DIGITS).to_owned();
    assert(short@ =~= full@.take(ID_DIGITS as int));
    short
}

/// What stands for a persistent process that is sent a signal.
pub fn signal_descriptor(id: &str) -> (text: String)
    ensures
        text@ == "persistent:"@ + digest_of(encode_utf8(id@)).take(ID_DIGITS as int),
{
    let short = audit_process_id(id);
    concat2("persistent:", short.as_str())
}

/// The three ways of starting a process are such operations, under their full names and their
/// bare ones; looking after a process is not.
pub proof fn law_spawn_verbs()
    ensures
        starts_process("spawn"@),
        starts_process("spawn-background"@),
        starts_process("spawn-persistent"@),
        !starts_process("wait"@),
{
    reveal_strlit("spawn");
    reveal_strlit("spawn-");
    reveal_strlit("spawn-background");
    reveal_strlit("spawn-persistent");
    reveal_strlit("wait");
    lemma_undotted("spawn"@);
    lemma_undotted("spawn-background"@);
    lemma_undotted("spawn-persistent"@);
    lemma_undotted("wait"@);
    assert("spawn-"@ =~= "spawn-background"@.subrange(0, 6));
    assert("spawn-"@ =~= "spawn-persistent"@.subrange(0, 6));
    assert("wait"@.len() != "spawn"@.len());
}

/// A text without a dot is its own verb.
pub proof fn lemma_undotted(op: Seq<char>)
    requires
        forall|i: int| 0 <= i < op.len() ==> op[i] != '.',
    ensures
        verb(op) == op,
        segments(op, '.').len() == 1,
    decreases op.len(),
{
    if op.len() > 0 {
        let rest = op.drop_last();
        assert forall|i: int| 0 <= i < rest.len() implies rest[i] != '.' by {
            assert(rest[i] == op[i]);
        }
        lemma_undotted(rest);
        assert(op[op.len() - 1] != '.');
        assert(rest.push(op.last()) =~= op);
    } else {
        assert(op =~= Seq::<char>::empty());
    }
}

/// An operation is told by its last part: whatever stands before a dot makes no difference.
pub proof fn law_prefix_does_not_matter(prefix: Seq<char>, name: Seq<char>)
    requires
        forall|i: int| 0 <= i < name.len() ==> name[i] != '.',
    ensures
        verb(prefix.push('.') + name) == name,
        starts_process(prefix.push('.') + name) == starts_process(name),
    decreases name.len(),
{
    lemma_undotted(name);
    let whole = prefix.push('.') + name;
    if name.len() == 0 {
        assert(whole =~= prefix.push('.'));
        assert(name =~= Seq::<char>::empty());
    } else {
        let rest = name.drop_last();
        assert forall|i: int| 0 <= i < rest.len() implies rest[i] != '.' by {
            assert(rest[i] == name[i]);
        }
        law_prefix_does_not_matter(prefix, rest);
        assert(whole.drop_last() =~= prefix.push('.') + rest);
        assert(name[name.len() - 1] != '.');
        assert(rest.push(name.last()) =~= name);
        lemma_segments_nonempty(whole.drop_last(), '.');
    }
}

} // verus!
