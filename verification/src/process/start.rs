//! Starting a child, as far as all ways of starting one have in common.
//!
//! A start alternates questions to the outside (may the program run, does the command fit the
//! sandbox, did the program start) with decisions. The decisions stand here: from the request
//! and the answers so far follows the next question, or how the start ends.

use vstd::prelude::*;

use crate::audit::AuditRecord;
use crate::host_state::types::PrincipalId;
use crate::process::audit::{
    audit_process, audit_spawn_result, injection_parts, record_process_denied, records_spawn,
    starts_process, SpawnTrace,
};
use crate::process::types::{ErrorCode, SpawnRequest};
use crate::text::{concat2, joined};

verus! {

/// How many bytes of input a start may carry.
pub const MAX_SPAWN_STDIN_BYTES: usize = 4194304;

/// What the security gate said.
pub enum GateAnswer {
    /// There is no gate.
    Missing,
    /// The program may not run, for this reason.
    Refused(String),
    Granted,
}

/// What became of building the command.
pub enum CommandAnswer {
    Ready,
    /// The sandbox that the policy requires is not to be had.
    Refused(String),
    /// There is no such command.
    Invalid,
}

/// A child that the host owns as a tree.
#[derive(Debug, Clone, Copy, PartialEq, Eq, Structural)]
pub struct OwnedChild {
    pub pid: u32,
    pub identity: u64,
}

/// The answers up to the point where the child runs and is owned.
pub struct Preparation {
    pub gate: Option<GateAnswer>,
    pub context: Option<Result<(), ErrorCode>>,
    pub injections: Option<Result<(), ErrorCode>>,
    pub command: Option<CommandAnswer>,
    /// Whether the program started; if not, in the words of the operating system.
    pub child: Option<Result<(), String>>,
    /// Whether the child is owned; if not, in the words of the operating system.
    pub owned: Option<Result<OwnedChild, String>>,
}

/// What is asked.
#[derive(Debug, Clone, Copy, PartialEq, Eq, Structural)]
pub enum Stage {
    /// May the program run?
    Gate,
    /// Which environment and directory does the child get?
    Context,
    /// Which files does the child find?
    Injections,
    /// Is there a sandboxed command?
    Command,
    /// Does the program start?
    Start,
    /// Does the host own the child?
    Own,
    /// Does the child take its input?
    Input,
    /// Are the pipes of the child there?
    Pipes,
    /// Is there a handle for the child?
    Keep,
    /// What does the child leave behind?
    Output,
}

/// How much of an end is told.
#[derive(Debug, Clone, Copy, PartialEq, Eq, Structural)]
pub enum Telling {
    Nothing,
    /// How it ended.
    Plain,
    /// How it ended, and the injected files.
    WithFiles,
}

/// What to do next.
pub enum SpawnStep {
    Ask(Stage),
    /// The start is denied for this reason.
    Refuse(String),
    Fail(ErrorCode, Telling),
    Succeed,
}

/// An error as a value: a code, or an unknown error with this text.
pub enum Failure {
    Code(ErrorCode),
    Text(Seq<char>),
}

/// What to do next, as a value.
pub enum Next {
    Ask(Stage),
    Refuse(Seq<char>),
    Fail(Failure, Telling),
    Succeed,
}

impl Failure {
    /// `code` is this error.
    pub open spec fn is_code(self, code: ErrorCode) -> bool {
        match self {
            Failure::Code(c) => code == c,
            Failure::Text(text) => code is Unknown && code->Unknown_0@ == text,
        }
    }
}

impl SpawnStep {
    /// The step is `next`.
    pub open spec fn is_next(self, next: Next) -> bool {
        match (self, next) {
            (SpawnStep::Ask(a), Next::Ask(b)) => a == b,
            (SpawnStep::Refuse(a), Next::Refuse(b)) => a@ == b,
            (SpawnStep::Fail(code, a), Next::Fail(failure, b)) => failure.is_code(code) && a == b,
            (SpawnStep::Succeed, Next::Succeed) => true,
            _ => false,
        }
    }
}

/// What a start that is over is answered: a denied start is told no more than that it is denied.
/// As long as there is something to ask there is no answer.
pub fn answer(step: &SpawnStep) -> (r: Option<Result<(), ErrorCode>>)
    ensures
        match *step {
            SpawnStep::Ask(_) => r is None,
            SpawnStep::Refuse(_) => r == Some(
                Err::<(), ErrorCode>(ErrorCode::CapabilityDenied),
            ),
            SpawnStep::Fail(code, _) => r == Some(Err::<(), ErrorCode>(code)),
            SpawnStep::Succeed => r is Some && r->Some_0 is Ok,
        },
{
    match step {
        SpawnStep::Ask(_) => None,
        SpawnStep::Refuse(_) => Some(Err(ErrorCode::CapabilityDenied)),
        SpawnStep::Fail(code, _) => Some(Err(code.copy())),
        SpawnStep::Succeed => Some(Ok(())),
    }
}

/// The request carries more input than a start may.
pub open spec fn stdin_too_large(request: SpawnRequest) -> bool {
    request.stdin is Some && request.stdin->Some_0@.len() > MAX_SPAWN_STDIN_BYTES
}

/// Whether the request carries more input than a start may.
pub fn carries_too_much(request: &SpawnRequest) -> (r: bool)
    ensures
        r == stdin_too_large(*request),
{
    match &request.stdin {
        Some(bytes) => bytes.len() > MAX_SPAWN_STDIN_BYTES,
        None => false,
    }
}

/// What follows from the answer of the security gate, unless it grants the start.
pub open spec fn gate_next(gate: Option<GateAnswer>) -> Option<Next> {
    match gate {
        None => Some(Next::Ask(Stage::Gate)),
        Some(GateAnswer::Missing) => Some(Next::Refuse("no security gate configured"@)),
        Some(GateAnswer::Refused(reason)) => Some(Next::Refuse(reason@)),
        Some(GateAnswer::Granted) => None,
    }
}

/// What follows from the answer of the security gate, unless it grants the start.
pub fn gate_step(gate: &Option<GateAnswer>) -> (step: Option<SpawnStep>)
    ensures
        match gate_next(*gate) {
            Some(next) => step is Some && step->Some_0.is_next(next),
            None => step is None,
        },
{
    match gate {
        None => Some(SpawnStep::Ask(Stage::Gate)),
        Some(GateAnswer::Missing) => Some(
            SpawnStep::Refuse("no security gate configured".to_owned()),
        ),
        Some(GateAnswer::Refused(reason)) => Some(SpawnStep::Refuse(reason.clone())),
        Some(GateAnswer::Granted) => None,
    }
}

/// What follows from a preparation that may fail, unless it went well.
pub open spec fn prepared_next(answer: Option<Result<(), ErrorCode>>, stage: Stage) -> Option<
    Next,
> {
    match answer {
        None => Some(Next::Ask(stage)),
        Some(Err(code)) => Some(Next::Fail(Failure::Code(code), Telling::Plain)),
        Some(Ok(())) => None,
    }
}

/// What follows from a preparation that may fail, unless it went well.
pub fn prepared_step(answer: &Option<Result<(), ErrorCode>>, stage: Stage) -> (step: Option<
    SpawnStep,
>)
    ensures
        match prepared_next(*answer, stage) {
            Some(next) => step is Some && step->Some_0.is_next(next),
            None => step is None,
        },
{
    match answer {
        None => Some(SpawnStep::Ask(stage)),
        Some(Err(code)) => Some(SpawnStep::Fail(code.copy(), Telling::Plain)),
        Some(Ok(())) => None,
    }
}

/// What follows from the answers up to the point where the child is owned. It succeeds exactly
/// there. The input is measured before anything is prepared, and the command is built last.
pub open spec fn preparation_next(
    request: SpawnRequest,
    p: Preparation,
    cancelled: bool,
    start_failed: Seq<char>,
    own_failed: Seq<char>,
) -> Next {
    match gate_next(p.gate) {
        Some(next) => next,
        None => if stdin_too_large(request) {
            Next::Fail(Failure::Code(ErrorCode::TooLarge), Telling::Plain)
        } else if cancelled {
            Next::Fail(Failure::Code(ErrorCode::Cancelled), Telling::Nothing)
        } else {
            match prepared_next(p.context, Stage::Context) {
                Some(next) => next,
                None => match prepared_next(p.injections, Stage::Injections) {
                    Some(next) => next,
                    None => run_next(p, start_failed, own_failed),
                },
            }
        },
    }
}

/// What follows from the answers on the command and its child.
pub open spec fn run_next(p: Preparation, start_failed: Seq<char>, own_failed: Seq<char>) -> Next {
    match p.command {
        None => Next::Ask(Stage::Command),
        Some(CommandAnswer::Refused(reason)) => Next::Refuse(reason@),
        Some(CommandAnswer::Invalid) => Next::Fail(
            Failure::Code(ErrorCode::InvalidInput),
            Telling::WithFiles,
        ),
        Some(CommandAnswer::Ready) => match p.child {
            None => Next::Ask(Stage::Start),
            Some(Err(text)) => Next::Fail(Failure::Text(start_failed + text@), Telling::WithFiles),
            Some(Ok(())) => match p.owned {
                None => Next::Ask(Stage::Own),
                Some(Err(text)) => Next::Fail(
                    Failure::Text(own_failed + text@),
                    Telling::WithFiles,
                ),
                Some(Ok(_)) => Next::Succeed,
            },
        },
    }
}

/// What follows from the answers on the command and its child.
fn run_step(p: &Preparation, start_failed: &str, own_failed: &str) -> (step: SpawnStep)
    ensures
        step.is_next(run_next(*p, start_failed@, own_failed@)),
{
    match &p.command {
        None => SpawnStep::Ask(Stage::Command),
        Some(CommandAnswer::Refused(reason)) => SpawnStep::Refuse(reason.clone()),
        Some(CommandAnswer::Invalid) => SpawnStep::Fail(
            ErrorCode::InvalidInput,
            Telling::WithFiles,
        ),
        Some(CommandAnswer::Ready) => match &p.child {
            None => SpawnStep::Ask(Stage::Start),
            Some(Err(text)) => SpawnStep::Fail(
                ErrorCode::Unknown(concat2(start_failed, text.as_str())),
                Telling::WithFiles,
            ),
            Some(Ok(())) => match &p.owned {
                None => SpawnStep::Ask(Stage::Own),
                Some(Err(text)) => SpawnStep::Fail(
                    ErrorCode::Unknown(concat2(own_failed, text.as_str())),
                    Telling::WithFiles,
                ),
                Some(Ok(_)) => SpawnStep::Succeed,
            },
        },
    }
}

/// What follows from the answers up to the point where the child is owned.
pub fn preparation_step(
    request: &SpawnRequest,
    p: &Preparation,
    cancelled: bool,
    start_failed: &str,
    own_failed: &str,
) -> (step: SpawnStep)
    ensures
        step.is_next(preparation_next(*request, *p, cancelled, start_failed@, own_failed@)),
{
    match gate_step(&p.gate) {
        Some(step) => {
            return step;
        },
        None => {},
    }
    if carries_too_much(request) {
        return SpawnStep::Fail(ErrorCode::TooLarge, Telling::Plain);
    }
    if cancelled {
        return SpawnStep::Fail(ErrorCode::Cancelled, Telling::Nothing);
    }
    match prepared_step(&p.context, Stage::Context) {
        Some(step) => {
            return step;
        },
        None => {},
    }
    match prepared_step(&p.injections, Stage::Injections) {
        Some(step) => {
            return step;
        },
        None => {},
    }
    run_step(p, start_failed, own_failed)
}

/// The entry of a denied start.
pub open spec fn records_denial(
    record: AuditRecord,
    principal: PrincipalId,
    command: Seq<char>,
    reason: Seq<char>,
) -> bool {
    &&& record.principal == principal
    &&& record.event is ProcessSpawn
    &&& record.event->ProcessSpawn_0@ == command
    &&& record.outcome is Denied
    &&& record.outcome->Denied_0@ == reason
}

/// What a step leaves in the audit chain is `record`.
pub open spec fn leaves(
    record: Option<AuditRecord>,
    principal: PrincipalId,
    has_sink: bool,
    command: Seq<char>,
    step: SpawnStep,
) -> bool {
    if !has_sink {
        record is None
    } else {
        match step {
            SpawnStep::Ask(_) => record is None,
            SpawnStep::Refuse(reason) => record is Some && records_denial(
                record->Some_0,
                principal,
                command,
                reason@,
            ),
            SpawnStep::Fail(code, telling) => if telling == Telling::Nothing {
                record is None
            } else {
                record is Some && records_spawn(record->Some_0, principal, command, Some(code))
            },
            SpawnStep::Succeed => record is Some && records_spawn(
                record->Some_0,
                principal,
                command,
                None,
            ),
        }
    }
}

/// The step tells of injected files.
pub open spec fn tells_files(step: SpawnStep) -> bool {
    match step {
        SpawnStep::Fail(_, telling) => telling == Telling::WithFiles,
        SpawnStep::Succeed => true,
        _ => false,
    }
}

/// What a step of the starting operation `op` leaves: at most one entry of the audit chain, and
/// a line on the injected files where there are any to tell of.
pub fn trace_step(
    principal: &PrincipalId,
    has_sink: bool,
    op: &str,
    command: &str,
    step: &SpawnStep,
    files: &Vec<(String, String)>,
) -> (trace: SpawnTrace)
    requires
        starts_process(op@),
    ensures
        leaves(trace.record, *principal, has_sink, command@, *step),
        (trace.injections is Some) == (tells_files(*step) && files@.len() > 0),
        trace.injections is Some ==> trace.injections->Some_0@ == joined(
            injection_parts(files@),
            ","@,
        ),
{
    match step {
        SpawnStep::Ask(_) => SpawnTrace { record: None, injections: None },
        SpawnStep::Refuse(reason) => SpawnTrace {
            record: record_process_denied(principal, has_sink, command, reason.as_str()),
            injections: None,
        },
        SpawnStep::Fail(code, telling) => {
            let failure = Some(code.copy());
            match telling {
                Telling::Nothing => SpawnTrace { record: None, injections: None },
                Telling::Plain => SpawnTrace {
                    record: audit_process(principal, has_sink, op, command, &failure),
                    injections: None,
                },
                Telling::WithFiles => audit_spawn_result(
                    principal,
                    has_sink,
                    op,
                    command,
                    files,
                    &failure,
                ),
            }
        },
        SpawnStep::Succeed => audit_spawn_result(principal, has_sink, op, command, files, &None),
    }
}

/// No program is started before the security gate has granted it, its input has been measured, its
/// context and its files are prepared, and its sandboxed command is ready.
pub proof fn law_nothing_starts_early(
    request: SpawnRequest,
    p: Preparation,
    cancelled: bool,
    start_failed: Seq<char>,
    own_failed: Seq<char>,
)
    requires
        preparation_next(request, p, cancelled, start_failed, own_failed) == Next::Ask(
            Stage::Start,
        ),
    ensures
        p.gate == Some(GateAnswer::Granted),
        !stdin_too_large(request),
        !cancelled,
        p.context is Some && p.context->Some_0 is Ok,
        p.injections is Some && p.injections->Some_0 is Ok,
        p.command == Some(CommandAnswer::Ready),
{
}

/// Answers only ever add: what is asked next was not answered before.
pub proof fn law_no_question_twice(
    request: SpawnRequest,
    p: Preparation,
    cancelled: bool,
    start_failed: Seq<char>,
    own_failed: Seq<char>,
)
    ensures
        match preparation_next(request, p, cancelled, start_failed, own_failed) {
            Next::Ask(Stage::Gate) => p.gate is None,
            Next::Ask(Stage::Context) => p.context is None,
            Next::Ask(Stage::Injections) => p.injections is None,
            Next::Ask(Stage::Command) => p.command is None,
            Next::Ask(Stage::Start) => p.child is None,
            Next::Ask(Stage::Own) => p.owned is None,
            Next::Ask(_) => false,
            _ => true,
        },
{
}

} // verus!
