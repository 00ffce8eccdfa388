//! Running a program to its end.

use vstd::prelude::*;

use crate::process::start::{
    preparation_next, preparation_step, Failure, Next, OwnedChild, Preparation, SpawnStep, Stage,
    Telling,
};
use crate::process::tracker::{ProcessTracker, TrackedOwner, TrackedProcess};
use crate::process::types::{ErrorCode, ExitInfo, ProcessResult, SpawnRequest};
use crate::text::{concat2, copy_opt, lossy, lossy_text};

verus! {

/// What a program wrote and how it exited.
pub struct Output {
    pub stdout: Vec<u8>,
    pub stderr: Vec<u8>,
    pub exit_code: Option<i32>,
}

/// What became of waiting for a program.
pub enum OutputAnswer {
    Cancelled,
    /// It failed, in the words of the operating system.
    Failed(String),
    Finished(Output),
}

/// What follows from the answers of a foreground start.
pub open spec fn spawn_next(
    request: SpawnRequest,
    p: Preparation,
    output: Option<OutputAnswer>,
) -> Next {
    match preparation_next(request, p, false, "spawn failed: "@, "spawn failed: "@) {
        Next::Succeed => match output {
            None => Next::Ask(Stage::Output),
            Some(OutputAnswer::Cancelled) => Next::Fail(
                Failure::Code(ErrorCode::Cancelled),
                Telling::WithFiles,
            ),
            Some(OutputAnswer::Failed(text)) => Next::Fail(
                Failure::Text("exec failed: "@ + text@),
                Telling::WithFiles,
            ),
            Some(OutputAnswer::Finished(_)) => Next::Succeed,
        },
        next => next,
    }
}

/// The tracked children after a step of a foreground start: the child is tracked while it is
/// waited for, and no longer.
pub open spec fn tracked_after(
    children: Map<u32, TrackedProcess>,
    child: OwnedChild,
    call_id: Option<String>,
    output: Option<OutputAnswer>,
) -> Map<u32, TrackedProcess> {
    let owner = TrackedOwner::Tree(child.identity);
    match output {
        None => children.insert(child.pid, TrackedProcess { call_id, owner }),
        Some(_) => if children.contains_key(child.pid) && children[child.pid].owner == owner {
            children.remove(child.pid)
        } else {
            children
        },
    }
}

/// What to do next in a foreground start. From the moment it is owned until its output is there,
/// the child is tracked under the call that started it.
pub fn spawn(
    request: &SpawnRequest,
    p: &Preparation,
    output: &Option<OutputAnswer>,
    tracker: &mut ProcessTracker,
    call_id: &Option<String>,
) -> (step: SpawnStep)
    ensures
        step.is_next(spawn_next(*request, *p, *output)),
        match preparation_next(*request, *p, false, "spawn failed: "@, "spawn failed: "@) {
            Next::Succeed => final(tracker)@ == tracked_after(
                old(tracker)@,
                p.owned->Some_0->Ok_0,
                *call_id,
                *output,
            ),
            _ => final(tracker)@ == old(tracker)@,
        },
{
    match preparation_step(request, p, false, "spawn failed: ", "spawn failed: ") {
        SpawnStep::Succeed => {},
        step => {
            return step;
        },
    }
    if let Some(Ok(child)) = &p.owned {
        match output {
            None => {
                tracker.register_tree(child.pid, child.identity, copy_opt(call_id));
            },
            Some(_) => {
                tracker.unregister_tree(child.pid, child.identity);
            },
        }
    }
    match output {
        None => SpawnStep::Ask(Stage::Output),
        Some(OutputAnswer::Cancelled) => SpawnStep::Fail(ErrorCode::Cancelled, Telling::WithFiles),
        Some(OutputAnswer::Failed(text)) => SpawnStep::Fail(
            ErrorCode::Unknown(concat2("exec failed: ", text.as_str())),
            Telling::WithFiles,
        ),
        Some(OutputAnswer::Finished(_)) => SpawnStep::Succeed,
    }
}

/// What the capsule gets of a finished program.
pub fn process_result(output: &Output) -> (r: ProcessResult)
    ensures
        r.stdout@ == lossy_text(output.stdout@),
        r.stderr@ == lossy_text(output.stderr@),
        r.exit == (ExitInfo { exit_code: output.exit_code, signal: None }),
{
    ProcessResult {
        stdout: lossy(output.stdout.as_slice()),
        stderr: lossy(output.stderr.as_slice()),
        exit: ExitInfo { exit_code: output.exit_code, signal: None },
    }
}

/// Every end of a foreground start is told: none passes in silence.
pub proof fn law_every_end_is_told(
    request: SpawnRequest,
    p: Preparation,
    output: Option<OutputAnswer>,
)
    ensures
        match spawn_next(request, p, output) {
            Next::Fail(_, telling) => telling != Telling::Nothing,
            _ => true,
        },
{
}

/// Once a child has been waited for, whatever came of it, it is no longer tracked, and every
/// other child is tracked as it was before the start.
pub proof fn law_waited_child_is_untracked(
    children: Map<u32, TrackedProcess>,
    child: OwnedChild,
    call_id: Option<String>,
    output: OutputAnswer,
)
    ensures
        tracked_after(
            tracked_after(children, child, call_id, None),
            child,
            call_id,
            Some(output),
        ) == children.remove(child.pid),
{
    assert(children.insert(
        child.pid,
        TrackedProcess { call_id, owner: TrackedOwner::Tree(child.identity) },
    ).remove(child.pid) =~= children.remove(child.pid));
}

} // verus!
