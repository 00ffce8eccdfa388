//! Starting a program that runs beside the capsule.

use vstd::prelude::*;

use crate::process::counts::{cap_of, CountsView, ProcessCounts, MAX_BACKGROUND_PROCESSES};
use crate::process::start::{
    preparation_next, preparation_step, Failure, Next, Preparation, SpawnStep, Stage, Telling,
};
use crate::process::tracker::{ProcessTracker, TrackedOwner, TrackedProcess};
use crate::process::types::{ErrorCode, SpawnRequest};
use crate::text::{concat2, concat3};

verus! {

/// What became of handing a child its input. Where it failed, the child was ended.
pub enum InputAnswer {
    Written,
    Failed(ErrorCode, Result<(), ErrorCode>),
}

/// What became of making a handle for a child. Where it failed, the child was ended.
pub enum KeepAnswer {
    /// The handle.
    Kept(u32),
    Failed(String, Result<(), ErrorCode>),
}

/// The answers of a background start.
pub struct BackgroundAnswers {
    pub preparation: Preparation,
    pub cancelled: bool,
    pub input: Option<InputAnswer>,
    pub keep: Option<KeepAnswer>,
}

/// How a failure to hand a child its input is told.
pub open spec fn input_failure(code: ErrorCode, cleanup: Result<(), ErrorCode>) -> Failure {
    match cleanup {
        Ok(()) => Failure::Code(code),
        Err(other) => Failure::Text(
            "spawn-background input failed ("@ + code.shown() + "); tree cleanup failed: "@
                + other.shown(),
        ),
    }
}

/// How a failure to make a handle is told.
pub open spec fn keep_failure(text: Seq<char>, cleanup: Result<(), ErrorCode>) -> Failure {
    match cleanup {
        Ok(()) => Failure::Text("resource table: "@ + text),
        Err(other) => Failure::Text(
            "resource table: "@ + text + "; tree cleanup failed: "@ + other.shown(),
        ),
    }
}

/// What the host met when it handed a child its input.
pub enum InputEnd {
    /// There was no pipe to the child.
    NoPipe,
    Cancelled,
    /// It failed, in the words of the operating system.
    Failed(String),
    Written,
}

/// What handing a child its input comes to. A request without input hands over nothing.
pub fn background_input(request: &SpawnRequest, end: &InputEnd) -> (r: Result<(), ErrorCode>)
    ensures
        if request.stdin is None {
            r is Ok
        } else {
            match *end {
                InputEnd::NoPipe => r is Err && Failure::Text(
                    "spawn-background: child stdin was not piped"@,
                ).is_code(r->Err_0),
                InputEnd::Cancelled => r == Err::<(), ErrorCode>(ErrorCode::Cancelled),
                InputEnd::Failed(text) => r is Err && Failure::Text(
                    "spawn-background: stdin prelude write failed: "@ + text@,
                ).is_code(r->Err_0),
                InputEnd::Written => r is Ok,
            }
        },
{
    if request.stdin.is_none() {
        return Ok(());
    }
    match end {
        InputEnd::NoPipe => Err(
            ErrorCode::Unknown("spawn-background: child stdin was not piped".to_owned()),
        ),
        InputEnd::Cancelled => Err(ErrorCode::Cancelled),
        InputEnd::Failed(text) => Err(
            ErrorCode::Unknown(
                concat2("spawn-background: stdin prelude write failed: ", text.as_str()),
            ),
        ),
        InputEnd::Written => Ok(()),
    }
}

/// What follows from the answers up to the point where the child is owned.
pub open spec fn background_preparation(request: SpawnRequest, answers: BackgroundAnswers) -> Next {
    preparation_next(
        request,
        answers.preparation,
        answers.cancelled,
        "spawn-background failed: "@,
        "spawn-background ownership failed: "@,
    )
}

/// What follows from the answers of a background start.
pub open spec fn background_next(
    request: SpawnRequest,
    answers: BackgroundAnswers,
    exhausted: bool,
) -> Next {
    if exhausted {
        Next::Fail(Failure::Code(ErrorCode::Quota), Telling::Nothing)
    } else {
        match background_preparation(request, answers) {
            Next::Succeed => match answers.input {
                None => Next::Ask(Stage::Input),
                Some(InputAnswer::Failed(code, cleanup)) => Next::Fail(
                    input_failure(code, cleanup),
                    Telling::WithFiles,
                ),
                Some(InputAnswer::Written) => match answers.keep {
                    None => Next::Ask(Stage::Keep),
                    Some(KeepAnswer::Failed(text, cleanup)) => Next::Fail(
                        keep_failure(text@, cleanup),
                        Telling::WithFiles,
                    ),
                    Some(KeepAnswer::Kept(_)) => Next::Succeed,
                },
            },
            next => next,
        }
    }
}

/// The error for input that a child did not take.
fn input_error(code: &ErrorCode, cleanup: &Result<(), ErrorCode>) -> (r: ErrorCode)
    ensures
        input_failure(*code, *cleanup).is_code(r),
{
    match cleanup {
        Ok(()) => code.copy(),
        Err(other) => {
            let head = concat3(
                "spawn-background input failed (",
                code.show().as_str(),
                "); tree cleanup failed: ",
            );
            ErrorCode::Unknown(concat2(head.as_str(), other.show().as_str()))
        },
    }
}

/// The error for a handle that could not be made.
fn keep_error(text: &str, cleanup: &Result<(), ErrorCode>) -> (r: ErrorCode)
    ensures
        keep_failure(text@, *cleanup).is_code(r),
{
    match cleanup {
        Ok(()) => ErrorCode::Unknown(concat2("resource table: ", text)),
        Err(other) => {
            let head = concat3("resource table: ", text, "; tree cleanup failed: ");
            ErrorCode::Unknown(concat2(head.as_str(), other.show().as_str()))
        },
    }
}

/// What to do next in a background start. The quota is looked at first, before the security gate is
/// asked. Only a start that succeeds is counted, and only its child is tracked; it belongs to no
/// call, so that any cancelled call may take it along.
pub fn spawn_background(
    request: &SpawnRequest,
    answers: &BackgroundAnswers,
    principal: &str,
    profile_cap: u32,
    persistent_live: usize,
    counts: &mut ProcessCounts,
    tracker: &mut ProcessTracker,
) -> (step: SpawnStep)
    ensures
        step.is_next(
            background_next(
                *request,
                *answers,
                old(counts)@.exhausted(principal@, profile_cap, persistent_live as int),
            ),
        ),
        step is Succeed ==> {
            let child = answers.preparation.owned->Some_0->Ok_0;
            &&& final(counts)@ == old(counts)@.plus(principal@)
            &&& final(tracker)@ == old(tracker)@.insert(
                child.pid,
                (TrackedProcess { call_id: None, owner: TrackedOwner::Tree(child.identity) }),
            )
        },
        !(step is Succeed) ==> final(counts)@ == old(counts)@ && final(tracker)@ == old(tracker)@,
{
    if counts.exhausted(principal, profile_cap, persistent_live) {
        return SpawnStep::Fail(ErrorCode::Quota, Telling::Nothing);
    }
    match preparation_step(
        request,
        &answers.preparation,
        answers.cancelled,
        "spawn-background failed: ",
        "spawn-background ownership failed: ",
    ) {
        SpawnStep::Succeed => {},
        step => {
            return step;
        },
    }
    match &answers.input {
        None => {
            return SpawnStep::Ask(Stage::Input);
        },
        Some(InputAnswer::Failed(code, cleanup)) => {
            return SpawnStep::Fail(input_error(code, cleanup), Telling::WithFiles);
        },
        Some(InputAnswer::Written) => {},
    }
    match &answers.keep {
        None => {
            return SpawnStep::Ask(Stage::Keep);
        },
        Some(KeepAnswer::Failed(text, cleanup)) => {
            return SpawnStep::Fail(keep_error(text.as_str(), cleanup), Telling::WithFiles);
        },
        Some(KeepAnswer::Kept(_)) => {},
    }
    if let Some(Ok(child)) = &answers.preparation.owned {
        tracker.register_tree(child.pid, child.identity, None);
    }
    counts.add_one(principal);
    SpawnStep::Succeed
}

/// A start that is counted stays within the caps: of the principal, counting what outlives the
/// instance, and of the instance.
pub proof fn law_starts_stay_within_caps(
    request: SpawnRequest,
    answers: BackgroundAnswers,
    counts: CountsView,
    principal: Seq<char>,
    profile_cap: u32,
    persistent_live: int,
)
    requires
        0 <= persistent_live,
        background_next(
            request,
            answers,
            counts.exhausted(principal, profile_cap, persistent_live),
        ) == Next::Succeed,
    ensures
        counts.plus(principal).of(principal) + persistent_live <= cap_of(
            profile_cap,
        ),
        counts.plus(principal).total <= MAX_BACKGROUND_PROCESSES,
{
}

} // verus!
