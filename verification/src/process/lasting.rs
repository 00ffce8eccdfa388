//! Starting a program that outlives the instance that started it.

use vstd::prelude::*;

use crate::process::counts::{cap_of, process_cap};
use crate::process::persistent::registry::{
    PersistentProcessRegistry, RegistryView, SpawnParams,
};
use crate::process::start::{
    carries_too_much, gate_next, gate_step, prepared_next, prepared_step, stdin_too_large,
    CommandAnswer, Failure, GateAnswer, Next, Preparation, SpawnStep, Stage, Telling,
};
use crate::process::types::{ErrorCode, SpawnRequest};
use crate::text::{concat2, concat3, contains_string, copy_opt, join, joined, views};

verus! {

/// What became of taking the pipes of a child.
pub enum PipesAnswer {
    /// They are there, and maybe one to its input.
    Present {
        stdin: bool,
    },
    /// They are not, and the child was ended.
    Missing(Result<(), ErrorCode>),
}

/// What became of handing a child its input. Where it failed, the child was ended.
pub enum PreludeAnswer {
    Written,
    Failed(Result<(), ErrorCode>),
}

/// The answers of a persistent start.
pub struct LastingAnswers {
    pub preparation: Preparation,
    pub cancelled: bool,
    pub pipes: Option<PipesAnswer>,
    pub prelude: Option<PreludeAnswer>,
}

/// Who starts a program, and under what limits.
pub struct Starter {
    /// The principal in whose name the capsule was called, if it was authenticated.
    pub principal: Option<String>,
    pub capsule_id: String,
    /// The capabilities of the capsule.
    pub capabilities: Vec<String>,
    pub profile_cap: u32,
    /// How many background processes the principal runs.
    pub ephemeral: usize,
}

/// The pipe to the input of the child is wanted.
pub open spec fn wants_stdin(request: SpawnRequest) -> bool {
    request.keep_stdin_open == Some(true) || request.stdin is Some
}

/// Whether the pipe to the input of the child is wanted.
pub fn want_stdin(request: &SpawnRequest) -> (r: bool)
    ensures
        r == wants_stdin(*request),
{
    (match request.keep_stdin_open {
        Some(keep) => keep,
        None => false,
    }) || request.stdin.is_some()
}

/// What follows from the answers on the command and its child.
pub open spec fn lasting_run_next(p: Preparation) -> Next {
    match p.command {
        None => Next::Ask(Stage::Command),
        Some(CommandAnswer::Refused(_)) => Next::Refuse(
            "native process sandbox is unavailable under required policy"@,
        ),
        Some(CommandAnswer::Invalid) => Next::Fail(
            Failure::Code(ErrorCode::InvalidInput),
            Telling::Plain,
        ),
        Some(CommandAnswer::Ready) => match p.child {
            None => Next::Ask(Stage::Start),
            Some(Err(text)) => Next::Fail(
                Failure::Text("spawn-persistent failed: "@ + text@),
                Telling::Plain,
            ),
            Some(Ok(())) => match p.owned {
                None => Next::Ask(Stage::Own),
                Some(Err(text)) => Next::Fail(
                    Failure::Text("spawn-persistent ownership failed: "@ + text@),
                    Telling::Plain,
                ),
                Some(Ok(_)) => Next::Succeed,
            },
        },
    }
}

/// What follows from the answers on the pipes of the child.
pub open spec fn pipes_next(request: SpawnRequest, answers: LastingAnswers) -> Next {
    match answers.pipes {
        None => Next::Ask(Stage::Pipes),
        Some(PipesAnswer::Missing(Err(code))) => Next::Fail(Failure::Code(code), Telling::Nothing),
        Some(PipesAnswer::Missing(Ok(()))) => Next::Fail(
            Failure::Text("spawn-persistent: missing stdio pipes"@),
            Telling::Nothing,
        ),
        Some(PipesAnswer::Present { stdin }) => if request.stdin is Some && stdin {
            match answers.prelude {
                None => Next::Ask(Stage::Input),
                Some(PreludeAnswer::Failed(Ok(()))) => Next::Fail(
                    Failure::Text("spawn-persistent: stdin prelude write failed"@),
                    Telling::Plain,
                ),
                Some(PreludeAnswer::Failed(Err(code))) => Next::Fail(
                    Failure::Text(
                        "spawn-persistent: stdin prelude write failed; tree cleanup failed: "@
                            + code.shown(),
                    ),
                    Telling::Plain,
                ),
                Some(PreludeAnswer::Written) => Next::Succeed,
            }
        } else {
            Next::Succeed
        },
    }
}

/// What follows from the answers of a persistent start. It succeeds where the child is ready for
/// the registry.
pub open spec fn lasting_next(
    request: SpawnRequest,
    answers: LastingAnswers,
    starter: Starter,
) -> Next {
    match gate_next(answers.preparation.gate) {
        Some(next) => next,
        None => if !views(starter.capabilities@).contains("allow_persistent"@) {
            Next::Refuse("persistent exec requires the allow_persistent capability"@)
        } else if starter.principal is None {
            Next::Fail(Failure::Code(ErrorCode::PersistUnsupported), Telling::Nothing)
        } else if request.idle_timeout_ms == Some(0u64) {
            Next::Fail(Failure::Code(ErrorCode::InvalidInput), Telling::Nothing)
        } else if answers.cancelled {
            Next::Fail(Failure::Code(ErrorCode::Cancelled), Telling::Nothing)
        } else {
            match prepared_next(answers.preparation.context, Stage::Context) {
                Some(next) => next,
                None => match prepared_next(answers.preparation.injections, Stage::Injections) {
                    Some(next) => next,
                    None => if stdin_too_large(request) {
                        Next::Fail(Failure::Code(ErrorCode::TooLarge), Telling::Plain)
                    } else {
                        match lasting_run_next(answers.preparation) {
                            Next::Succeed => pipes_next(request, answers),
                            next => next,
                        }
                    },
                },
            }
        },
    }
}

/// What follows from the answers on the command and its child.
fn lasting_run_step(p: &Preparation) -> (step: SpawnStep)
    ensures
        step.is_next(lasting_run_next(*p)),
{
    match &p.command {
        None => SpawnStep::Ask(Stage::Command),
        Some(CommandAnswer::Refused(_)) => SpawnStep::Refuse(
            "native process sandbox is unavailable under required policy".to_owned(),
        ),
        Some(CommandAnswer::Invalid) => SpawnStep::Fail(ErrorCode::InvalidInput, Telling::Plain),
        Some(CommandAnswer::Ready) => match &p.child {
            None => SpawnStep::Ask(Stage::Start),
            Some(Err(text)) => SpawnStep::Fail(
                ErrorCode::Unknown(concat2("spawn-persistent failed: ", text.as_str())),
                Telling::Plain,
            ),
            Some(Ok(())) => match &p.owned {
                None => SpawnStep::Ask(Stage::Own),
                Some(Err(text)) => SpawnStep::Fail(
                    ErrorCode::Unknown(
                        concat2("spawn-persistent ownership failed: ", text.as_str()),
                    ),
                    Telling::Plain,
                ),
                Some(Ok(_)) => SpawnStep::Succeed,
            },
        },
    }
}

/// What follows from the answers on the pipes of the child.
fn pipes_step(request: &SpawnRequest, answers: &LastingAnswers) -> (step: SpawnStep)
    ensures
        step.is_next(pipes_next(*request, *answers)),
{
    match &answers.pipes {
        None => SpawnStep::Ask(Stage::Pipes),
        Some(PipesAnswer::Missing(Err(code))) => SpawnStep::Fail(code.copy(), Telling::Nothing),
        Some(PipesAnswer::Missing(Ok(()))) => SpawnStep::Fail(
            ErrorCode::Unknown("spawn-persistent: missing stdio pipes".to_owned()),
            Telling::Nothing,
        ),
        Some(PipesAnswer::Present { stdin }) => {
            if request.stdin.is_some() && *stdin {
                match &answers.prelude {
                    None => SpawnStep::Ask(Stage::Input),
                    Some(PreludeAnswer::Failed(Ok(()))) => SpawnStep::Fail(
                        ErrorCode::Unknown(
                            "spawn-persistent: stdin prelude write failed".to_owned(),
                        ),
                        Telling::Plain,
                    ),
                    Some(PreludeAnswer::Failed(Err(code))) => SpawnStep::Fail(
                        ErrorCode::Unknown(
                            concat2(
                                "spawn-persistent: stdin prelude write failed; tree cleanup failed: ",
                                code.show().as_str(),
                            ),
                        ),
                        Telling::Plain,
                    ),
                    Some(PreludeAnswer::Written) => SpawnStep::Succeed,
                }
            } else {
                SpawnStep::Succeed
            }
        },
    }
}

/// What to do next before the child is ready for the registry.
pub fn lasting_step(request: &SpawnRequest, answers: &LastingAnswers, starter: &Starter) -> (step:
    SpawnStep)
    ensures
        step.is_next(lasting_next(*request, *answers, *starter)),
{
    match gate_step(&answers.preparation.gate) {
        Some(step) => {
            return step;
        },
        None => {},
    }
    if !contains_string(&starter.capabilities, "allow_persistent") {
        return SpawnStep::Refuse(
            "persistent exec requires the allow_persistent capability".to_owned(),
        );
    }
    if starter.principal.is_none() {
        return SpawnStep::Fail(ErrorCode::PersistUnsupported, Telling::Nothing);
    }
    match request.idle_timeout_ms {
        Some(0) => {
            return SpawnStep::Fail(ErrorCode::InvalidInput, Telling::Nothing);
        },
        _ => {},
    }
    if answers.cancelled {
        return SpawnStep::Fail(ErrorCode::Cancelled, Telling::Nothing);
    }
    match prepared_step(&answers.preparation.context, Stage::Context) {
        Some(step) => {
            return step;
        },
        None => {},
    }
    match prepared_step(&answers.preparation.injections, Stage::Injections) {
        Some(step) => {
            return step;
        },
        None => {},
    }
    if carries_too_much(request) {
        return SpawnStep::Fail(ErrorCode::TooLarge, Telling::Plain);
    }
    match lasting_run_step(&answers.preparation) {
        SpawnStep::Succeed => pipes_step(request, answers),
        step => step,
    }
}

/// `params` are what the registry gets of a start: the whole command line as it is shown, the
/// pipe to the input only where it is to be kept open, and the cap less what already runs.
pub open spec fn are_params(
    params: SpawnParams,
    request: SpawnRequest,
    answers: LastingAnswers,
    starter: Starter,
) -> bool {
    &&& params.creator@ == starter.principal->Some_0@
    &&& params.capsule_id@ == starter.capsule_id@
    &&& params.command@ == request.cmd@ + " "@ + joined(views(request.args@), " "@)
    &&& params.os_pid == answers.preparation.owned->Some_0->Ok_0.pid
    &&& params.stdin == (request.keep_stdin_open == Some(true)
        && answers.pipes->Some_0->Present_stdin)
    &&& params.concurrent_cap == (if cap_of(starter.profile_cap) > starter.ephemeral {
        cap_of(starter.profile_cap) - starter.ephemeral
    } else {
        0
    })
    &&& params.label == request.label
    &&& params.overflow == request.overflow
    &&& params.log_ring_bytes == request.log_ring_bytes
    &&& params.max_lifetime_ms == request.max_lifetime_ms
    &&& params.idle_timeout_ms == request.idle_timeout_ms
    &&& params.exit_retention_ms == request.exit_retention_ms
}

/// The answers tell who starts the child, which process it is, and that its pipes are there.
pub open spec fn has_params(answers: LastingAnswers, starter: Starter) -> bool {
    &&& starter.principal is Some
    &&& answers.preparation.owned is Some
    &&& answers.preparation.owned->Some_0 is Ok
    &&& answers.pipes is Some
    &&& answers.pipes->Some_0 is Present
}

/// What the registry gets of a start, as soon as there is anything for it to get. That is so of
/// every start whose child is ready.
pub fn registry_params(request: &SpawnRequest, answers: &LastingAnswers, starter: &Starter) -> (r:
    Option<SpawnParams>)
    ensures
        (r is Some) == has_params(*answers, *starter),
        r is Some ==> are_params(r->Some_0, *request, *answers, *starter),
        lasting_next(*request, *answers, *starter) is Succeed ==> r is Some,
{
    let principal = match &starter.principal {
        Some(name) => name,
        None => {
            return None;
        },
    };
    let os_pid: u32 = match &answers.preparation.owned {
        Some(Ok(child)) => child.pid,
        _ => {
            return None;
        },
    };
    let piped = match &answers.pipes {
        Some(PipesAnswer::Present { stdin }) => *stdin,
        _ => {
            return None;
        },
    };
    let keep = match request.keep_stdin_open {
        Some(keep) => keep,
        None => false,
    };
    let cap: usize = process_cap(starter.profile_cap);
    let concurrent_cap: usize = if cap > starter.ephemeral {
        cap - starter.ephemeral
    } else {
        0
    };
    Some(
        SpawnParams {
            creator: principal.clone(),
            capsule_id: starter.capsule_id.clone(),
            command: concat3(request.cmd.as_str(), " ", join(&request.args, " ").as_str()),
            os_pid,
            stdin: keep && piped,
            concurrent_cap,
            label: copy_opt(&request.label),
            overflow: request.overflow,
            log_ring_bytes: request.log_ring_bytes,
            max_lifetime_ms: request.max_lifetime_ms,
            idle_timeout_ms: request.idle_timeout_ms,
            exit_retention_ms: request.exit_retention_ms,
        },
    )
}

/// What to do next in a persistent start. Once its child is ready, the registry takes it in or
/// refuses it; a start that succeeds comes with the id of the process.
pub fn spawn_persistent(
    request: &SpawnRequest,
    answers: &LastingAnswers,
    starter: &Starter,
    registry: &mut PersistentProcessRegistry,
    now: u64,
) -> (r: (SpawnStep, Option<String>))
    requires
        old(registry)@.valid(),
    ensures
        final(registry)@.valid(),
        match lasting_next(*request, *answers, *starter) {
            Next::Succeed => exists|params: SpawnParams| #[trigger]
                are_params(params, *request, *answers, *starter) && match old(registry)@.refusal(
                    params.creator@,
                    params.concurrent_cap as int,
                ) {
                    Some(code) => r.0 == SpawnStep::Fail(code, Telling::WithFiles) && r.1 is None
                        && final(registry)@ == old(registry)@,
                    None => exists|answer: Result<String, ErrorCode>| #[trigger]
                        old(registry)@.answers(params, now, answer, final(registry)@)
                            && match answer {
                            Ok(id) => r.0 is Succeed && r.1 == Some(id),
                            Err(code) => r.0 == SpawnStep::Fail(code, Telling::WithFiles)
                                && r.1 is None,
                        },
                },
            next => r.0.is_next(next) && r.1 is None && final(registry)@ == old(registry)@,
        },
{
    match lasting_step(request, answers, starter) {
        SpawnStep::Succeed => {},
        step => {
            return (step, None);
        },
    }
    match registry_params(request, answers, starter) {
        None => (SpawnStep::Succeed, None),
        Some(params) => {
            let ghost asked = params;
            proof {
                assert(are_params(asked, *request, *answers, *starter));
            }
            let answer = registry.spawn(params, now);
            proof {
                if old(registry)@.refusal(asked.creator@, asked.concurrent_cap as int) is None {
                    assert(old(registry)@.answers(asked, now, answer, registry@));
                }
            }
            match answer {
                Ok(id) => (SpawnStep::Succeed, Some(id)),
                Err(code) => (SpawnStep::Fail(code, Telling::WithFiles), None),
            }
        },
    }
}

/// The cap of a principal covers both what runs beside the capsule and what outlives it: where the
/// registry takes a process in, the two together stay within it.
pub proof fn law_lasting_starts_stay_within_cap(
    request: SpawnRequest,
    answers: LastingAnswers,
    starter: Starter,
    params: SpawnParams,
    view: RegistryView,
)
    requires
        are_params(params, request, answers, starter),
        view.refusal(params.creator@, params.concurrent_cap as int) is None,
    ensures
        view.live_slots(params.creator@).len() + 1 + starter.ephemeral <= cap_of(
            starter.profile_cap,
        ),
{
}

/// No program is started to outlive its instance unless the security gate and the capability both
/// allow it and the caller was authenticated.
pub proof fn law_lasting_needs_both_grants(
    request: SpawnRequest,
    answers: LastingAnswers,
    starter: Starter,
)
    requires
        lasting_next(request, answers, starter) == Next::Ask(Stage::Start),
    ensures
        answers.preparation.gate == Some(GateAnswer::Granted),
        views(starter.capabilities@).contains("allow_persistent"@),
        starter.principal is Some,
        !stdin_too_large(request),
        answers.preparation.command == Some(CommandAnswer::Ready),
{
}

} // verus!
