//! What a capsule can rely on when it starts a program.

use vstd::prelude::*;

use crate::audit::AuditRecord;
use crate::digest::digest_of;
use crate::host_state::types::PrincipalId;
use crate::process::audit::{
    audit_process, audit_process_id, audit_process_injections, audit_spawn_result, env_names,
    env_summary, injection_line, injection_parts, is_spawn_op, law_prefix_does_not_matter,
    lemma_undotted, record_process_denied, signal_descriptor, SpawnTrace,
};
use crate::process::background::{
    background_input, spawn_background, BackgroundAnswers, InputAnswer, InputEnd, KeepAnswer,
};
use crate::process::counts::{process_cap, ProcessCounts};
use crate::process::foreground::{process_result, spawn, Output, OutputAnswer};
use crate::process::inject::{
    audit_list, bind_list, bind_views, check_injection, env_list, first_error, pair_views, pin,
    prepare_injections, verify_snapshot, SnapshotStep,
};
use crate::process::lasting::{
    lasting_step, registry_params, want_stdin, LastingAnswers, PipesAnswer, PreludeAnswer, Starter,
};
use crate::process::persistent::registry::SpawnParams;
use crate::process::start::{
    answer, carries_too_much, gate_step, preparation_step, prepared_step, trace_step, CommandAnswer,
    GateAnswer, Preparation, SpawnStep, Stage, Telling,
};
use crate::process::tracker::{ProcessTracker, TrackedOwner};
use crate::process::types::{
    EnvVar, ErrorCode, FileInjection, InjectionPlacement, ProcessResult, SpawnRequest,
};
use crate::text::{joined, lossy_text, views};

verus! {

/// Every answer that a start waits for has come, and every one lets it go on.
pub open spec fn all_ready(p: Preparation) -> bool {
    &&& p.gate is Some && p.gate->Some_0 is Granted
    &&& p.context is Some && p.context->Some_0 is Ok
    &&& p.injections is Some && p.injections->Some_0 is Ok
    &&& p.command is Some && p.command->Some_0 is Ready
    &&& p.child is Some && p.child->Some_0 is Ok
    &&& p.owned is Some && p.owned->Some_0 is Ok
}

/// No more than four mebibytes are handed to the program on its input.
pub open spec fn input_fits(request: SpawnRequest) -> bool {
    request.stdin is Some ==> request.stdin->Some_0@.len() <= 4 * 1024 * 1024
}

/// Once every answer lets it go on, a program runs in the foreground: it is tracked under its own
/// call while its output is awaited, and no longer once the output is there.
pub proof fn law_foreground_start_completes(
    request: &SpawnRequest,
    p: &Preparation,
    running: &mut ProcessTracker,
    done: &mut ProcessTracker,
    call_id: &Option<String>,
    output: Output,
    first: SpawnStep,
    second: SpawnStep,
)
    requires
        all_ready(*p),
        input_fits(*request),
        call_ensures(spawn, (request, p, &None::<OutputAnswer>, running, call_id), first),
        *old(done) == *final(running),
        call_ensures(
            spawn,
            (request, p, &Some(OutputAnswer::Finished(output)), done, call_id),
            second,
        ),
    ensures
        first == SpawnStep::Ask(Stage::Output),
        ({
            let child = p.owned->Some_0->Ok_0;
            &&& final(running)@.contains_key(child.pid)
            &&& final(running)@[child.pid].call_id == *call_id
            &&& final(running)@[child.pid].owner == TrackedOwner::Tree(child.identity)
            &&& !final(done)@.contains_key(child.pid)
        }),
        second is Succeed,
        forall|pid: u32|
            pid != p.owned->Some_0->Ok_0.pid ==> (#[trigger] final(done)@.contains_key(pid)
                <==> old(running)@.contains_key(pid)),
{
}

/// A child whose output did not come is told of as it ended: as cancelled, or with the reason.
pub proof fn law_foreground_failures_are_told(
    request: &SpawnRequest,
    p: &Preparation,
    a: &mut ProcessTracker,
    b: &mut ProcessTracker,
    call_id: &Option<String>,
    text: String,
    cancelled: SpawnStep,
    failed: SpawnStep,
)
    requires
        all_ready(*p),
        input_fits(*request),
        call_ensures(
            spawn,
            (request, p, &Some(OutputAnswer::Cancelled), a, call_id),
            cancelled,
        ),
        call_ensures(
            spawn,
            (request, p, &Some(OutputAnswer::Failed(text)), b, call_id),
            failed,
        ),
    ensures
        cancelled == SpawnStep::Fail(ErrorCode::Cancelled, Telling::WithFiles),
        failed is Fail && failed->Fail_1 == Telling::WithFiles,
        failed->Fail_0 is Unknown && failed->Fail_0->Unknown_0@ == "exec failed: "@ + text@,
{
}

/// The result of a program holds what it wrote, each stream under its own name, and its exit code.
pub proof fn law_result_is_the_output(output: &Output, r: ProcessResult)
    requires
        call_ensures(process_result, (output,), r),
    ensures
        r.stdout@ == lossy_text(output.stdout@),
        r.stderr@ == lossy_text(output.stderr@),
        r.exit.exit_code == output.exit_code,
        r.exit.signal is None,
{
}

/// Once every answer lets it go on, a program runs in the background: it counts for its principal
/// and nobody else, and it is tracked without a call, so that no single call ends it.
pub proof fn law_background_start_completes(
    request: &SpawnRequest,
    answers: &BackgroundAnswers,
    principal: &str,
    other: Seq<char>,
    cap: u32,
    lasting: usize,
    counts: &mut ProcessCounts,
    tracker: &mut ProcessTracker,
    step: SpawnStep,
)
    requires
        all_ready(answers.preparation),
        input_fits(*request),
        !answers.cancelled,
        answers.input is Some && answers.input->Some_0 is Written,
        answers.keep is Some && answers.keep->Some_0 is Kept,
        old(counts)@.total < 8,
        old(counts)@.of(principal@) + lasting < cap,
        old(counts)@.of(principal@) + lasting < 8,
        other != principal@,
        call_ensures(
            spawn_background,
            (request, answers, principal, cap, lasting, counts, tracker),
            step,
        ),
    ensures
        step is Succeed,
        final(counts)@.total == old(counts)@.total + 1,
        final(counts)@.of(principal@) == old(counts)@.of(principal@) + 1,
        final(counts)@.of(other) == old(counts)@.of(other),
        ({
            let child = answers.preparation.owned->Some_0->Ok_0;
            &&& final(tracker)@.contains_key(child.pid)
            &&& final(tracker)@[child.pid].call_id is None
            &&& final(tracker)@[child.pid].owner == TrackedOwner::Tree(child.identity)
        }),
{
}

/// No more than eight programs run in the background, and no more of one principal than its profile
/// allows, with those that outlive the instance; a start over that is refused before anything else.
pub proof fn law_background_is_capped(
    request: &SpawnRequest,
    answers: &BackgroundAnswers,
    principal: &str,
    cap: u32,
    lasting: usize,
    counts: &mut ProcessCounts,
    tracker: &mut ProcessTracker,
    step: SpawnStep,
    most: usize,
)
    requires
        old(counts)@.total >= 8 || old(counts)@.of(principal@) + lasting >= cap || old(counts)@.of(
            principal@,
        ) + lasting >= 8,
        call_ensures(
            spawn_background,
            (request, answers, principal, cap, lasting, counts, tracker),
            step,
        ),
        call_ensures(process_cap, (cap,), most),
    ensures
        step == SpawnStep::Fail(ErrorCode::Quota, Telling::Nothing),
        final(counts)@ == old(counts)@,
        final(tracker)@ == old(tracker)@,
        cap <= 8 ==> most == cap,
        cap > 8 ==> most == 8,
{
}

/// What is counted for a principal and released again leaves the counts as they were, and nothing
/// goes below zero.
pub proof fn law_counting_and_releasing(
    counted: &mut ProcessCounts,
    released: &mut ProcessCounts,
    principal: &str,
    other: &str,
    before: usize,
    during: usize,
    after: usize,
    beside: usize,
)
    requires
        other@ != principal@,
        old(counted)@.total < usize::MAX,
        old(counted)@.of(principal@) < usize::MAX,
        call_ensures(ProcessCounts::of, (&*old(counted), principal), before),
        call_ensures(ProcessCounts::add_one, (counted, principal), ()),
        call_ensures(ProcessCounts::of, (&*final(counted), principal), during),
        *old(released) == *final(counted),
        call_ensures(ProcessCounts::release, (released, principal), ()),
        call_ensures(ProcessCounts::of, (&*final(released), principal), after),
        call_ensures(ProcessCounts::of, (&*final(released), other), beside),
    ensures
        during == before + 1,
        after == before,
        beside == old(counted)@.of(other@),
        final(released)@.total == old(counted)@.total,
{
}

/// Once every answer lets it go on, a program that outlives its instance is ready for the registry,
/// provided that the capsule may start such programs and that the caller was authenticated.
pub proof fn law_lasting_start_completes(
    request: &SpawnRequest,
    answers: &LastingAnswers,
    starter: &Starter,
    step: SpawnStep,
)
    requires
        call_ensures(lasting_step, (request, answers, starter), step),
        all_ready(answers.preparation),
        input_fits(*request),
        !answers.cancelled,
        answers.pipes is Some && answers.pipes->Some_0 is Present,
        answers.prelude is Some && answers.prelude->Some_0 is Written,
        request.idle_timeout_ms != Some(0u64),
    ensures
        views(starter.capabilities@).contains("allow_persistent"@) && starter.principal is Some
            ==> step is Succeed,
        !views(starter.capabilities@).contains("allow_persistent"@) ==> step is Refuse,
        views(starter.capabilities@).contains("allow_persistent"@) && starter.principal is None
            ==> step == SpawnStep::Fail(ErrorCode::PersistUnsupported, Telling::Nothing),
{
}

/// A program that would never be idle long enough, and one whose caller is gone, is not started to
/// outlive its instance.
pub proof fn law_lasting_start_is_refused(
    request: &SpawnRequest,
    answers: &LastingAnswers,
    starter: &Starter,
    step: SpawnStep,
)
    requires
        call_ensures(lasting_step, (request, answers, starter), step),
        answers.preparation.gate is Some && answers.preparation.gate->Some_0 is Granted,
        views(starter.capabilities@).contains("allow_persistent"@),
        starter.principal is Some,
    ensures
        request.idle_timeout_ms == Some(0u64) ==> step == SpawnStep::Fail(
            ErrorCode::InvalidInput,
            Telling::Nothing,
        ),
        request.idle_timeout_ms != Some(0u64) && answers.cancelled ==> step == SpawnStep::Fail(
            ErrorCode::Cancelled,
            Telling::Nothing,
        ),
{
}

/// Without a security gate, and where it refuses, nothing is started in any of the three ways, and
/// the reason is the one that was given.
pub proof fn law_gate_comes_first(
    request: &SpawnRequest,
    p: &Preparation,
    tracker: &mut ProcessTracker,
    call_id: &Option<String>,
    output: &Option<OutputAnswer>,
    answers: &LastingAnswers,
    starter: &Starter,
    cancelled: bool,
    a: SpawnStep,
    b: SpawnStep,
    c: SpawnStep,
    told: Option<Result<(), ErrorCode>>,
)
    requires
        answers.preparation == *p,
        call_ensures(spawn, (request, p, output, tracker, call_id), a),
        call_ensures(
            preparation_step,
            (request, p, cancelled, "spawn failed: ", "spawn failed: "),
            b,
        ),
        call_ensures(lasting_step, (request, answers, starter), c),
        call_ensures(answer, (&a,), told),
    ensures
        p.gate is None ==> a == SpawnStep::Ask(Stage::Gate) && b == SpawnStep::Ask(Stage::Gate) && c
            == SpawnStep::Ask(Stage::Gate) && told is None,
        p.gate is Some && p.gate->Some_0 is Missing ==> {
            &&& a is Refuse && a->Refuse_0@ == "no security gate configured"@
            &&& b is Refuse && b->Refuse_0@ == "no security gate configured"@
            &&& c is Refuse && c->Refuse_0@ == "no security gate configured"@
            &&& told == Some(Err::<(), ErrorCode>(ErrorCode::CapabilityDenied))
        },
        p.gate is Some && p.gate->Some_0 is Refused ==> {
            &&& a is Refuse && a->Refuse_0@ == p.gate->Some_0->Refused_0@
            &&& b is Refuse && b->Refuse_0@ == p.gate->Some_0->Refused_0@
            &&& c is Refuse && c->Refuse_0@ == p.gate->Some_0->Refused_0@
            &&& told == Some(Err::<(), ErrorCode>(ErrorCode::CapabilityDenied))
        },
        !(p.gate is Some && p.gate->Some_0 is Granted) ==> final(tracker)@ == old(tracker)@,
{
}

/// What went wrong on the way is what the capsule is answered: too much input, a context or a file
/// that is refused, a program that does not start or is not owned.
pub proof fn law_first_failure_is_the_answer(
    request: &SpawnRequest,
    p: &Preparation,
    tracker: &mut ProcessTracker,
    call_id: &Option<String>,
    output: &Option<OutputAnswer>,
    step: SpawnStep,
    told: Option<Result<(), ErrorCode>>,
)
    requires
        call_ensures(spawn, (request, p, output, tracker, call_id), step),
        call_ensures(answer, (&step,), told),
        p.gate is Some && p.gate->Some_0 is Granted,
    ensures
        !input_fits(*request) ==> told == Some(Err::<(), ErrorCode>(ErrorCode::TooLarge)),
        input_fits(*request) && p.context is None ==> step == SpawnStep::Ask(Stage::Context),
        input_fits(*request) && p.context is Some && p.context->Some_0 is Err ==> told == Some(
            p.context->Some_0,
        ),
        input_fits(*request) && p.context is Some && p.context->Some_0 is Ok ==> {
            &&& p.injections is None ==> step == SpawnStep::Ask(Stage::Injections)
            &&& p.injections is Some && p.injections->Some_0 is Err ==> told == Some(
                p.injections->Some_0,
            )
            &&& p.injections is Some && p.injections->Some_0 is Ok ==> {
                &&& p.command is None ==> step == SpawnStep::Ask(Stage::Command)
                &&& p.command is Some && p.command->Some_0 is Invalid ==> told == Some(
                    Err::<(), ErrorCode>(ErrorCode::InvalidInput),
                )
                &&& p.command is Some && p.command->Some_0 is Refused ==> step is Refuse
                    && step->Refuse_0@ == p.command->Some_0->Refused_0@
                &&& p.command is Some && p.command->Some_0 is Ready ==> {
                    &&& p.child is None ==> step == SpawnStep::Ask(Stage::Start)
                    &&& p.child is Some && p.child->Some_0 is Err ==> step is Fail
                        && step->Fail_0 is Unknown && step->Fail_0->Unknown_0@
                        == "spawn failed: "@ + p.child->Some_0->Err_0@
                    &&& p.child is Some && p.child->Some_0 is Ok && p.owned is None ==> step
                        == SpawnStep::Ask(Stage::Own)
                    &&& p.child is Some && p.child->Some_0 is Ok && p.owned is Some
                        && p.owned->Some_0 is Err ==> step is Fail && step->Fail_0 is Unknown
                        && step->Fail_0->Unknown_0@ == "spawn failed: "@ + p.owned->Some_0->Err_0@
                }
            }
        },
{
}

/// Input for a program in the background either went in whole or stops the start; without input
/// there is nothing to go wrong.
pub proof fn law_background_input_goes_in_whole(
    request: &SpawnRequest,
    text: String,
    none: Result<(), ErrorCode>,
    cancelled: Result<(), ErrorCode>,
    failed: Result<(), ErrorCode>,
    written: Result<(), ErrorCode>,
)
    requires
        call_ensures(background_input, (request, &InputEnd::NoPipe), none),
        call_ensures(background_input, (request, &InputEnd::Cancelled), cancelled),
        call_ensures(background_input, (request, &InputEnd::Failed(text)), failed),
        call_ensures(background_input, (request, &InputEnd::Written), written),
    ensures
        written is Ok,
        request.stdin is None ==> none is Ok && cancelled is Ok && failed is Ok,
        request.stdin is Some ==> none is Err && none->Err_0 is Unknown && cancelled == Err::<
            (),
            ErrorCode,
        >(ErrorCode::Cancelled) && failed is Err && failed->Err_0 is Unknown
            && failed->Err_0->Unknown_0@ == "spawn-background: stdin prelude write failed: "@
            + text@,
{
}

/// Where there is a sink, every start that ends leaves one record of the program in the name of the
/// principal: allowed, denied with the reason, or failed with the error. Nothing is recorded of a
/// start that goes on, or that was told of before.
pub proof fn law_every_end_is_recorded(
    principal: &PrincipalId,
    op: &str,
    command: &str,
    files: &Vec<(String, String)>,
    reason: String,
    code: ErrorCode,
    stage: Stage,
    asked: SpawnTrace,
    refused: SpawnTrace,
    failed: SpawnTrace,
    silent: SpawnTrace,
    done: SpawnTrace,
)
    requires
        call_ensures(
            trace_step,
            (principal, true, op, command, &SpawnStep::Ask(stage), files),
            asked,
        ),
        call_ensures(
            trace_step,
            (principal, true, op, command, &SpawnStep::Refuse(reason), files),
            refused,
        ),
        call_ensures(
            trace_step,
            (principal, true, op, command, &SpawnStep::Fail(code, Telling::WithFiles), files),
            failed,
        ),
        call_ensures(
            trace_step,
            (principal, true, op, command, &SpawnStep::Fail(code, Telling::Nothing), files),
            silent,
        ),
        call_ensures(
            trace_step,
            (principal, true, op, command, &SpawnStep::Succeed, files),
            done,
        ),
    ensures
        asked.record is None && silent.record is None,
        refused.record is Some && names_start(refused.record->Some_0, *principal, command@)
            && refused.record->Some_0.outcome is Denied
            && refused.record->Some_0.outcome->Denied_0@ == reason@,
        failed.record is Some && names_start(failed.record->Some_0, *principal, command@)
            && failed.record->Some_0.outcome is Failed && failed.record->Some_0.outcome->Failed_0@
            == code.shown(),
        done.record is Some && names_start(done.record->Some_0, *principal, command@)
            && done.record->Some_0.outcome is Allowed,
        files@.len() > 0 ==> failed.injections is Some && done.injections is Some,
        files@.len() == 0 ==> failed.injections is None && done.injections is None,
        asked.injections is None && refused.injections is None && silent.injections is None,
{
}

/// The record is of a start of `command` in the name of `principal`.
pub open spec fn names_start(record: AuditRecord, principal: PrincipalId, command: Seq<char>) -> bool {
    &&& record.principal == principal
    &&& record.event is ProcessSpawn
    &&& record.event->ProcessSpawn_0@ == command
}

/// Without a sink nothing is recorded; with one, a start that the host refused names the program,
/// the principal and the reason.
pub proof fn law_denials_are_recorded(
    principal: &PrincipalId,
    command: &str,
    reason: &str,
    op: &str,
    failure: &Option<ErrorCode>,
    with: Option<AuditRecord>,
    without: Option<AuditRecord>,
    unseen: Option<AuditRecord>,
)
    requires
        call_ensures(record_process_denied, (principal, true, command, reason), with),
        call_ensures(record_process_denied, (principal, false, command, reason), without),
        call_ensures(audit_process, (principal, false, op, command, failure), unseen),
    ensures
        with is Some && names_start(with->Some_0, *principal, command@),
        with->Some_0.outcome is Denied && with->Some_0.outcome->Denied_0@ == reason@,
        without is None,
        unseen is None,
{
}

/// Of the environment only the names are told, in order; the values never are.
pub proof fn law_only_names_are_told(
    a: &Vec<EnvVar>,
    b: &Vec<EnvVar>,
    x: String,
    y: String,
)
    requires
        call_ensures(env_summary, (a,), x),
        call_ensures(env_summary, (b,), y),
        a@.len() == b@.len(),
        forall|i: int| 0 <= i < a@.len() ==> (#[trigger] a@[i]).key@ == b@[i].key@,
    ensures
        x@ == y@,
        a@.len() == 0 ==> x@.len() == 0,
        a@.len() == 1 ==> x@ == a@[0].key@,
        a@.len() == 2 ==> x@ == a@[0].key@ + ","@ + a@[1].key@,
{
    assert(env_names(a@) =~= env_names(b@));
    reveal_with_fuel(joined, 3);
    let names = env_names(a@);
    if a@.len() == 2 {
        assert(names.drop_last().len() == 1);
        assert(names.drop_last()[0] == a@[0].key@);
        assert(names.last() == a@[1].key@);
    }
}

/// Files that were put in place are told by place and digest.
pub proof fn law_files_are_told_by_digest(audit: &Vec<(String, String)>, line: String)
    requires
        call_ensures(injection_line, (audit,), line),
    ensures
        audit@.len() == 1 ==> line@ == audit@[0].0@ + "="@ + audit@[0].1@,
        audit@.len() == 2 ==> line@ == audit@[0].0@ + "="@ + audit@[0].1@ + ","@ + (audit@[1].0@
            + "="@ + audit@[1].1@),
        audit@.len() == 0 ==> line@.len() == 0,
{
    reveal_with_fuel(joined, 3);
    let parts = injection_parts(audit@);
    if audit@.len() == 2 {
        assert(parts.drop_last().len() == 1);
        assert(parts.drop_last()[0] == parts[0]);
        assert(parts.last() == parts[1]);
    }
}

/// An id of a process is told only by sixteen digits of its digest, wherever it is told.
pub proof fn law_ids_are_told_by_digest(id: &str, short: String, text: String)
    requires
        call_ensures(audit_process_id, (id,), short),
        call_ensures(signal_descriptor, (id,), text),
    ensures
        short@.len() == 16,
        short@ == digest_of(vstd::utf8::encode_utf8(id@)).take(16),
        text@ == "persistent:"@ + short@,
{
}

/// A file is put in place unless it is larger than a mebibyte or its place is not allowed; a fixed
/// path takes a sandbox that can mount it.
pub proof fn law_files_are_checked(
    injection: &FileInjection,
    linux: bool,
    r: Option<ErrorCode>,
    name: &str,
    named: Result<(), ErrorCode>,
    placed: Result<(), ErrorCode>,
)
    requires
        call_ensures(check_injection, (injection, linux), r),
        injection.placement is EnvPointer ==> name@ == injection.placement->EnvPointer_0@
            && call_ensures(crate::process::inject::validate_env_name, (name,), named),
        injection.placement is FixedPath ==> name@ == injection.placement->FixedPath_0@
            && call_ensures(crate::process::inject::validate_fixed_path, (name,), placed),
    ensures
        injection.content@.len() > 1024 * 1024 <==> r == Some(ErrorCode::TooLarge),
        injection.content@.len() <= 1024 * 1024 && injection.placement is EnvPointer ==> (r is None
            <==> named is Ok),
        injection.content@.len() <= 1024 * 1024 && injection.placement is FixedPath ==> (r is None
            <==> placed is Ok && linux),
        r is Some && injection.content@.len() <= 1024 * 1024 ==> r == Some(
            ErrorCode::InvalidInput,
        ),
{
}

/// What is read back of a file has to be what was written: the pin of the content is met by the
/// content, and a file that cannot be read back meets none.
pub proof fn law_pins_are_met_by_the_content(
    content: &Vec<u8>,
    hex: String,
    pinned: &str,
    same: Result<(), ErrorCode>,
    none: Result<(), ErrorCode>,
    other: &Vec<u8>,
    changed: Result<(), ErrorCode>,
)
    requires
        call_ensures(pin, (content,), hex),
        pinned@ == hex@,
        call_ensures(verify_snapshot, (&Some(*content), pinned), same),
        call_ensures(verify_snapshot, (&None::<Vec<u8>>, pinned), none),
        call_ensures(verify_snapshot, (&Some(*other), pinned), changed),
        digest_of(other@) != digest_of(content@),
    ensures
        same is Ok,
        none is Err,
        changed is Err,
{
}

/// Files are written one after the other, each before the next, and the whole is ready when the
/// last one is: a file that a variable points to is where it was written, one at a fixed path is
/// mounted there, and each is told with its own digest.
pub proof fn law_one_file_is_placed(
    injections: &Vec<FileInjection>,
    none: &Vec<Result<String, ErrorCode>>,
    done: &Vec<Result<String, ErrorCode>>,
    linux: bool,
    checked: Option<ErrorCode>,
    first: SnapshotStep,
    second: SnapshotStep,
)
    requires
        injections@.len() == 1,
        none@.len() == 0,
        done@.len() == 1 && done@[0] is Ok,
        call_ensures(check_injection, (&injections@[0], linux), checked),
        call_ensures(prepare_injections, (injections, none, linux), first),
        call_ensures(prepare_injections, (injections, done, linux), second),
    ensures
        checked is None ==> first == SnapshotStep::Write(0usize),
        checked is Some ==> first is Finish && first->Finish_0 is Err && Some(
            first->Finish_0->Err_0,
        ) == checked,
        checked is None ==> {
            let written = done@[0]->Ok_0@;
            &&& second is Finish && second->Finish_0 is Ok
            &&& {
                let ready = second->Finish_0->Ok_0;
                &&& ready.sandbox@.len() == 1 && ready.audit@.len() == 1
                &&& ready.sandbox@[0].source@ == written
                &&& ready.audit@[0].1@ == digest_of(injections@[0].content@)
                &&& match injections@[0].placement {
                    InjectionPlacement::EnvPointer(name) => {
                        &&& ready.env@.len() == 1
                        &&& ready.env@[0].0@ == name@ && ready.env@[0].1@ == written
                        &&& ready.sandbox@[0].target@ == written
                        &&& ready.audit@[0].0@ == "env:"@ + name@
                    },
                    InjectionPlacement::FixedPath(path) => {
                        &&& ready.env@.len() == 0
                        &&& ready.sandbox@[0].target@ == path@
                        &&& ready.audit@[0].0@ == "path:"@ + path@
                    },
                }
            }
        },
{
    reveal_with_fuel(first_error, 2);
    reveal_with_fuel(env_list, 2);
    assert(first_error(injections@, none@, linux, 1) == checked);
    assert(first_error(injections@, done@, linux, 1) == checked);
    if checked is None {
        let ready = second->Finish_0->Ok_0;
        let binds = bind_list(injections@, done@, 1);
        let told = audit_list(injections@, 1);
        let pairs = env_list(injections@, done@, 1);
        assert(bind_views(ready.sandbox@).len() == binds.len());
        assert(bind_views(ready.sandbox@)[0] == binds[0]);
        assert(pair_views(ready.audit@).len() == told.len());
        assert(pair_views(ready.audit@)[0] == told[0]);
        assert(pair_views(ready.env@).len() == pairs.len());
        if injections@[0].placement is EnvPointer {
            assert(pair_views(ready.env@)[0] == pairs[0]);
        }
    }
}

/// An operation starts a process if its last part is the verb for it, alone or with a hyphen and a
/// manner; the part before its last dot makes no difference.
pub proof fn law_operations_that_start(
    op: &str,
    prefix: Seq<char>,
    name: Seq<char>,
    manner: Seq<char>,
    r: bool,
)
    requires
        call_ensures(is_spawn_op, (op,), r),
        op@ == prefix.push('.') + name || op@ == name,
        forall|i: int| 0 <= i < name.len() ==> name[i] != '.',
    ensures
        name == "spawn"@ ==> r,
        name == "spawn-"@ + manner ==> r,
        name.len() < 5 ==> !r,
        name.len() > 0 && name[0] != 's' ==> !r,
{
    law_prefix_does_not_matter(prefix, name);
    lemma_undotted(name);
    reveal_strlit("spawn");
    reveal_strlit("spawn-");
    if name == "spawn-"@ + manner {
        assert("spawn-"@.is_prefix_of("spawn-"@ + manner));
    }
    if name.len() > 0 && name[0] != 's' {
        assert("spawn"@[0] == 's');
        if "spawn-"@.is_prefix_of(name) {
            assert(name.subrange(0, "spawn-"@.len() as int)[0] == name[0]);
        }
    }
}

/// A start that is recorded with its files tells both; without files it tells none.
pub proof fn law_starts_are_recorded_with_files(
    principal: &PrincipalId,
    op: &str,
    command: &str,
    files: &Vec<(String, String)>,
    none: &Vec<(String, String)>,
    starts: bool,
    with: SpawnTrace,
    without: SpawnTrace,
    told: SpawnTrace,
    line: String,
)
    requires
        files@.len() > 0 && none@.len() == 0,
        call_ensures(is_spawn_op, (op,), starts),
        call_ensures(
            audit_spawn_result,
            (principal, true, op, command, files, &None::<ErrorCode>),
            with,
        ),
        call_ensures(
            audit_spawn_result,
            (principal, true, op, command, none, &None::<ErrorCode>),
            without,
        ),
        call_ensures(
            audit_process_injections,
            (principal, true, op, command, files, &None::<ErrorCode>),
            told,
        ),
        call_ensures(injection_line, (files,), line),
    ensures
        with.injections is Some && with.injections->Some_0@ == line@,
        without.injections is None,
        told.injections is Some && told.injections->Some_0@ == line@,
        starts ==> with.record is Some && names_start(with.record->Some_0, *principal, command@)
            && with.record->Some_0.outcome is Allowed && without.record is Some,
        !starts ==> with.record is None && without.record is None && told.record is None,
{
}

/// More than four mebibytes of input are too much; a pipe is wanted for input, or if it is to stay
/// open.
pub proof fn law_input_of_a_start(request: &SpawnRequest, much: bool, wanted: bool)
    requires
        call_ensures(carries_too_much, (request,), much),
        call_ensures(want_stdin, (request,), wanted),
    ensures
        much <==> !input_fits(*request),
        request.stdin is Some ==> wanted,
        request.keep_stdin_open == Some(true) ==> wanted,
        wanted ==> request.stdin is Some || request.keep_stdin_open == Some(true),
{
}

/// Each question of a start is asked until it is answered; an answer that lets the start go on is no
/// step, and any other ends it.
pub proof fn law_questions_of_a_start(
    stage: Stage,
    code: ErrorCode,
    reason: String,
    unasked: Option<SpawnStep>,
    granted: Option<SpawnStep>,
    refused: Option<SpawnStep>,
    open: Option<SpawnStep>,
    ready: Option<SpawnStep>,
    failed: Option<SpawnStep>,
)
    requires
        call_ensures(gate_step, (&None::<GateAnswer>,), unasked),
        call_ensures(gate_step, (&Some(GateAnswer::Granted),), granted),
        call_ensures(gate_step, (&Some(GateAnswer::Refused(reason)),), refused),
        call_ensures(prepared_step, (&None::<Result<(), ErrorCode>>, stage), open),
        call_ensures(prepared_step, (&Some(Ok::<(), ErrorCode>(())), stage), ready),
        call_ensures(prepared_step, (&Some(Err::<(), ErrorCode>(code)), stage), failed),
    ensures
        unasked == Some(SpawnStep::Ask(Stage::Gate)),
        granted is None && ready is None,
        refused is Some && refused->Some_0 is Refuse && refused->Some_0->Refuse_0@ == reason@,
        open == Some(SpawnStep::Ask(stage)),
        failed == Some(SpawnStep::Fail(code, Telling::Plain)),
{
}

/// What the registry gets of a start is what the request asked for, in the name of the starter, with
/// the number of the child; the cap is what is left of it beside what runs in the background.
pub proof fn law_registry_gets_the_request(
    request: &SpawnRequest,
    answers: &LastingAnswers,
    starter: &Starter,
    r: Option<SpawnParams>,
    most: usize,
)
    requires
        call_ensures(registry_params, (request, answers, starter), r),
        call_ensures(process_cap, (starter.profile_cap,), most),
        r is Some,
    ensures
        ({
            let p = r->Some_0;
            &&& starter.principal is Some && p.creator@ == starter.principal->Some_0@
            &&& p.capsule_id@ == starter.capsule_id@
            &&& answers.preparation.owned is Some && answers.preparation.owned->Some_0 is Ok
            &&& p.os_pid == answers.preparation.owned->Some_0->Ok_0.pid
            &&& p.label == request.label
            &&& p.overflow == request.overflow
            &&& p.log_ring_bytes == request.log_ring_bytes
            &&& p.max_lifetime_ms == request.max_lifetime_ms
            &&& p.idle_timeout_ms == request.idle_timeout_ms
            &&& p.exit_retention_ms == request.exit_retention_ms
            &&& most >= starter.ephemeral ==> p.concurrent_cap == most - starter.ephemeral
            &&& most < starter.ephemeral ==> p.concurrent_cap == 0
            &&& p.stdin ==> request.keep_stdin_open == Some(true)
        }),
{
}

/// Nothing more can run for a principal exactly if its cap or the cap of all is reached.
pub proof fn law_exhaustion(
    counts: &ProcessCounts,
    principal: &str,
    cap: u32,
    lasting: usize,
    r: bool,
    n: usize,
)
    requires
        call_ensures(ProcessCounts::exhausted, (counts, principal, cap, lasting), r),
        call_ensures(ProcessCounts::of, (counts, principal), n),
    ensures
        r <==> n + lasting >= cap || n + lasting >= 8 || counts@.total >= 8,
{
}

/// Of several files each is where it was written, mounted where it is to be seen, and told with its
/// own place and digest; each that is pointed to has its variable.
pub proof fn law_every_file_is_placed(
    injections: &Vec<FileInjection>,
    done: &Vec<Result<String, ErrorCode>>,
    linux: bool,
    step: SnapshotStep,
    i: int,
)
    requires
        call_ensures(prepare_injections, (injections, done, linux), step),
        step is Finish && step->Finish_0 is Ok,
        0 <= i < injections@.len(),
    ensures
        ({
            let ready = step->Finish_0->Ok_0;
            let written = done@[i]->Ok_0@;
            &&& ready.sandbox@.len() == injections@.len()
            &&& ready.audit@.len() == injections@.len()
            &&& ready.sandbox@[i].source@ == written
            &&& ready.audit@[i].1@ == digest_of(injections@[i].content@)
            &&& match injections@[i].placement {
                InjectionPlacement::EnvPointer(name) => {
                    &&& ready.sandbox@[i].target@ == written
                    &&& ready.audit@[i].0@ == "env:"@ + name@
                    &&& exists|k: int|
                        0 <= k < ready.env@.len() && (#[trigger] ready.env@[k]).0@ == name@
                            && ready.env@[k].1@ == written
                },
                InjectionPlacement::FixedPath(path) => {
                    &&& ready.sandbox@[i].target@ == path@
                    &&& ready.audit@[i].0@ == "path:"@ + path@
                },
            }
            &&& ready.env@.len() <= injections@.len()
        }),
{
    let ready = step->Finish_0->Ok_0;
    let n = injections@.len() as int;
    let binds = bind_list(injections@, done@, n);
    let told = audit_list(injections@, n);
    let pairs = env_list(injections@, done@, n);
    assert(bind_views(ready.sandbox@).len() == binds.len());
    assert(bind_views(ready.sandbox@)[i] == binds[i]);
    assert(pair_views(ready.audit@).len() == told.len());
    assert(pair_views(ready.audit@)[i] == told[i]);
    assert(pair_views(ready.env@).len() == pairs.len());
    lemma_pointers(injections@, done@, n, i);
    if injections@[i].placement is EnvPointer {
        let k = choose|k: int|
            0 <= k < pairs.len() && #[trigger] pairs[k] == (
                injections@[i].placement->EnvPointer_0@,
                done@[i]->Ok_0@,
            );
        assert(pair_views(ready.env@)[k] == pairs[k]);
        assert(ready.env@[k].0@ == pairs[k].0);
    }
}

/// Every file that is pointed to is among the pointers.
proof fn lemma_pointers(
    injections: Seq<FileInjection>,
    done: Seq<Result<String, ErrorCode>>,
    n: int,
    i: int,
)
    requires
        0 <= i,
        n <= injections.len(),
    ensures
        n >= 0 ==> env_list(injections, done, n).len() <= n,
        i < n && injections[i].placement is EnvPointer ==> exists|k: int|
            0 <= k < env_list(injections, done, n).len() && #[trigger] env_list(
                injections,
                done,
                n,
            )[k] == (injections[i].placement->EnvPointer_0@, done[i]->Ok_0@),
    decreases n,
{
    if n > 0 {
        lemma_pointers(injections, done, n - 1, i);
        let before = env_list(injections, done, n - 1);
        let all = env_list(injections, done, n);
        if i < n && injections[i].placement is EnvPointer {
            let pair = (injections[i].placement->EnvPointer_0@, done[i]->Ok_0@);
            if i < n - 1 {
                let k = choose|k: int| 0 <= k < before.len() && #[trigger] before[k] == pair;
                assert(all[k] == pair);
            } else {
                assert(all[all.len() - 1] == pair);
            }
        }
    }
}

/// A program in the background whose input or whose place failed is told with the reason, and where
/// it could not be ended either, with both; it counts for nobody.
pub proof fn law_background_failures_are_told(
    request: &SpawnRequest,
    input: &BackgroundAnswers,
    keep: &BackgroundAnswers,
    principal: &str,
    cap: u32,
    lasting: usize,
    a_counts: &mut ProcessCounts,
    a_tracker: &mut ProcessTracker,
    b_counts: &mut ProcessCounts,
    b_tracker: &mut ProcessTracker,
    a: SpawnStep,
    b: SpawnStep,
    code: ErrorCode,
    other: ErrorCode,
    text: String,
)
    requires
        input_fits(*request),
        all_ready(input.preparation) && !input.cancelled,
        all_ready(keep.preparation) && !keep.cancelled,
        keep.input is Some && keep.input->Some_0 is Written,
        old(a_counts)@.total < 8 && old(a_counts)@.of(principal@) + lasting < cap && old(a_counts)@.of(principal@) + lasting < 8,
        *old(b_counts) == *old(a_counts),
        call_ensures(
            spawn_background,
            (request, input, principal, cap, lasting, a_counts, a_tracker),
            a,
        ),
        call_ensures(
            spawn_background,
            (request, keep, principal, cap, lasting, b_counts, b_tracker),
            b,
        ),
    ensures
        input.input is None ==> a == SpawnStep::Ask(Stage::Input),
        input.input == Some(InputAnswer::Failed(code, Ok::<(), ErrorCode>(()))) ==> a
            == SpawnStep::Fail(code, Telling::WithFiles),
        input.input == Some(InputAnswer::Failed(code, Err::<(), ErrorCode>(other))) ==> a is Fail
            && a->Fail_0 is Unknown && a->Fail_0->Unknown_0@ == "spawn-background input failed ("@
            + code.shown() + "); tree cleanup failed: "@ + other.shown(),
        keep.keep is None ==> b == SpawnStep::Ask(Stage::Keep),
        keep.keep == Some(KeepAnswer::Failed(text, Ok::<(), ErrorCode>(()))) ==> b is Fail
            && b->Fail_0 is Unknown && b->Fail_0->Unknown_0@ == "resource table: "@ + text@,
        keep.keep == Some(KeepAnswer::Failed(text, Err::<(), ErrorCode>(other))) ==> b is Fail
            && b->Fail_0 is Unknown && b->Fail_0->Unknown_0@ == "resource table: "@ + text@
            + "; tree cleanup failed: "@ + other.shown(),
        !(a is Succeed) ==> final(a_counts)@ == old(a_counts)@ && final(a_tracker)@ == old(a_tracker)@,
{
}

/// A lasting program whose pipes are missing, or whose input could not be written, is told with the
/// reason; where it could not be ended either, the error of that is told.
pub proof fn law_lasting_failures_are_told(
    request: &SpawnRequest,
    answers: &LastingAnswers,
    starter: &Starter,
    step: SpawnStep,
    code: ErrorCode,
)
    requires
        call_ensures(lasting_step, (request, answers, starter), step),
        all_ready(answers.preparation),
        input_fits(*request),
        !answers.cancelled,
        request.idle_timeout_ms != Some(0u64),
        views(starter.capabilities@).contains("allow_persistent"@) && starter.principal is Some,
    ensures
        answers.pipes is None ==> step == SpawnStep::Ask(Stage::Pipes),
        answers.pipes == Some(PipesAnswer::Missing(Err::<(), ErrorCode>(code))) ==> step
            == SpawnStep::Fail(code, Telling::Nothing),
        answers.pipes == Some(PipesAnswer::Missing(Ok::<(), ErrorCode>(()))) ==> step is Fail
            && step->Fail_0 is Unknown && step->Fail_0->Unknown_0@
            == "spawn-persistent: missing stdio pipes"@,
        answers.pipes == Some(PipesAnswer::Present { stdin: true }) && request.stdin is Some ==> {
            &&& answers.prelude is None ==> step == SpawnStep::Ask(Stage::Input)
            &&& answers.prelude == Some(PreludeAnswer::Failed(Ok::<(), ErrorCode>(())))
                ==> step is Fail && step->Fail_0 is Unknown && step->Fail_0->Unknown_0@
                == "spawn-persistent: stdin prelude write failed"@
            &&& answers.prelude == Some(PreludeAnswer::Failed(Err::<(), ErrorCode>(code)))
                ==> step is Fail && step->Fail_0 is Unknown && step->Fail_0->Unknown_0@
                == "spawn-persistent: stdin prelude write failed; tree cleanup failed: "@
                + code.shown()
        },
        answers.pipes == Some(PipesAnswer::Present { stdin: false }) || (answers.pipes is Some
            && answers.pipes->Some_0 is Present && request.stdin is None) ==> step is Succeed,
{
}

/// The failures on the way of a lasting program are told as its own.
pub proof fn law_lasting_preparation_fails(
    request: &SpawnRequest,
    answers: &LastingAnswers,
    starter: &Starter,
    step: SpawnStep,
)
    requires
        call_ensures(lasting_step, (request, answers, starter), step),
        !answers.cancelled,
        request.idle_timeout_ms != Some(0u64),
        views(starter.capabilities@).contains("allow_persistent"@) && starter.principal is Some,
        answers.preparation.gate is Some && answers.preparation.gate->Some_0 is Granted,
    ensures
        ({
            let p = answers.preparation;
            let prepared = p.context is Some && p.context->Some_0 is Ok && p.injections is Some
                && p.injections->Some_0 is Ok;
            &&& p.context is None ==> step == SpawnStep::Ask(Stage::Context)
            &&& p.context is Some && p.context->Some_0 is Err ==> step == SpawnStep::Fail(
                p.context->Some_0->Err_0,
                Telling::Plain,
            )
            &&& prepared && !input_fits(*request) ==> step == SpawnStep::Fail(
                ErrorCode::TooLarge,
                Telling::Plain,
            )
            &&& prepared && input_fits(*request) ==> {
                &&& p.command is None ==> step == SpawnStep::Ask(Stage::Command)
                &&& p.command is Some && p.command->Some_0 is Refused ==> step is Refuse
                &&& p.command is Some && p.command->Some_0 is Invalid ==> step == SpawnStep::Fail(
                    ErrorCode::InvalidInput,
                    Telling::Plain,
                )
                &&& p.command is Some && p.command->Some_0 is Ready && p.child is Some
                    && p.child->Some_0 is Err ==> step is Fail && step->Fail_0 is Unknown
                    && step->Fail_0->Unknown_0@ == "spawn-persistent failed: "@
                    + p.child->Some_0->Err_0@
                &&& p.command is Some && p.command->Some_0 is Ready && p.child is Some
                    && p.child->Some_0 is Ok && p.owned is Some && p.owned->Some_0 is Err
                    ==> step is Fail && step->Fail_0 is Unknown && step->Fail_0->Unknown_0@
                    == "spawn-persistent ownership failed: "@ + p.owned->Some_0->Err_0@
            }
        }),
{
}

/// A program that is to run in the background and whose caller is gone is not started.
pub proof fn law_background_preparation_fails(
    request: &SpawnRequest,
    answers: &BackgroundAnswers,
    principal: &str,
    cap: u32,
    lasting: usize,
    counts: &mut ProcessCounts,
    tracker: &mut ProcessTracker,
    step: SpawnStep,
)
    requires
        input_fits(*request),
        old(counts)@.total < 8 && old(counts)@.of(principal@) + lasting < cap && old(counts)@.of(
            principal@,
        ) + lasting < 8,
        answers.preparation.gate is Some && answers.preparation.gate->Some_0 is Granted,
        call_ensures(
            spawn_background,
            (request, answers, principal, cap, lasting, counts, tracker),
            step,
        ),
    ensures
        answers.cancelled ==> step == SpawnStep::Fail(ErrorCode::Cancelled, Telling::Nothing),
        !answers.cancelled && answers.preparation.context is Some
            && answers.preparation.context->Some_0 is Err ==> step == SpawnStep::Fail(
            answers.preparation.context->Some_0->Err_0,
            Telling::Plain,
        ),
        !answers.cancelled && answers.preparation.context is Some
            && answers.preparation.context->Some_0 is Ok && answers.preparation.injections is Some
            && answers.preparation.injections->Some_0 is Ok && answers.preparation.command is Some
            && answers.preparation.command->Some_0 is Ready && answers.preparation.child is Some
            && answers.preparation.child->Some_0 is Err ==> step is Fail && step->Fail_0 is Unknown
            && step->Fail_0->Unknown_0@ == "spawn-background failed: "@
            + answers.preparation.child->Some_0->Err_0@,
{
}

/// What is wrong with the first files stays wrong with more of them.
proof fn lemma_first_error_stays(
    injections: Seq<FileInjection>,
    done: Seq<Result<String, ErrorCode>>,
    linux: bool,
    n: int,
    m: int,
)
    requires
        n <= m,
        first_error(injections, done, linux, n) is Some,
    ensures
        first_error(injections, done, linux, m) == first_error(injections, done, linux, n),
    decreases m - n,
{
    if n < m {
        lemma_first_error_stays(injections, done, linux, n, m - 1);
    }
}

/// A file that could not be written, or that may not be, ends a start: no later file is written and
/// nothing is handed on. The first file is checked before it is written.
pub proof fn law_bad_files_end_it(
    injections: &Vec<FileInjection>,
    done: &Vec<Result<String, ErrorCode>>,
    linux: bool,
    i: int,
    bad: Option<ErrorCode>,
    first: Option<ErrorCode>,
    step: SnapshotStep,
)
    requires
        0 <= i < injections@.len(),
        i <= done@.len(),
        call_ensures(check_injection, (&injections@[i], linux), bad),
        call_ensures(check_injection, (&injections@[0], linux), first),
        call_ensures(prepare_injections, (injections, done, linux), step),
    ensures
        bad is Some || (i < done@.len() && done@[i] is Err) ==> step is Finish && step->Finish_0 is Err,
        injections@.len() == 1 && first is Some ==> step is Finish && step->Finish_0 is Err
            && step->Finish_0->Err_0 == first->Some_0,
        injections@.len() == 1 && first is None && done@.len() == 0 ==> step == SnapshotStep::Write(
            0,
        ),
        injections@.len() == 1 && first is None && done@.len() == 1 && done@[0] is Err ==> step
            is Finish && step->Finish_0 is Err && step->Finish_0->Err_0 == done@[0]->Err_0,
{
    let all = injections@;
    if bad is Some || (i < done@.len() && done@[i] is Err) {
        assert(first_error(all, done@, linux, i + 1) is Some);
        if step is Write {
            lemma_first_error_stays(all, done@, linux, i + 1, step->Write_0 + 1);
        } else if step->Finish_0 is Ok {
            lemma_first_error_stays(all, done@, linux, i + 1, all.len() as int);
        }
    }
    assert(first_error(all, done@, linux, 0) is None);
    assert(first_error(all, done@, linux, 1) == match first {
        Some(code) => Some(code),
        None => if 0 < done@.len() {
            match done@[0] {
                Err(code) => Some(code),
                Ok(_) => None,
            }
        } else {
            None
        },
    });
}

/// The registry gets something of a start only where the pipes of the child are there.
pub proof fn law_no_pipes_no_process(
    request: &SpawnRequest,
    answers: &LastingAnswers,
    starter: &Starter,
    r: Option<SpawnParams>,
)
    requires
        call_ensures(registry_params, (request, answers, starter), r),
    ensures
        r is Some ==> answers.pipes is Some && answers.pipes->Some_0 is Present,
        r is Some ==> starter.principal is Some && answers.preparation.owned is Some
            && answers.preparation.owned->Some_0 is Ok,
        starter.principal is Some && answers.preparation.owned is Some
            && answers.preparation.owned->Some_0 is Ok && answers.pipes is Some
            && answers.pipes->Some_0 is Present ==> r is Some,
{
}

/// At first nobody runs anything.
pub proof fn law_nothing_runs_at_first(counts: ProcessCounts, principal: &str, n: usize)
    requires
        call_ensures(ProcessCounts::new, (), counts),
        call_ensures(ProcessCounts::of, (&counts, principal), n),
    ensures
        n == 0 && counts@.total == 0,
{
}

/// The next file to be written is the one after those that were written.
pub proof fn law_files_are_written_in_order(
    injections: &Vec<FileInjection>,
    done: &Vec<Result<String, ErrorCode>>,
    linux: bool,
    step: SnapshotStep,
)
    requires
        call_ensures(prepare_injections, (injections, done, linux), step),
    ensures
        step is Write ==> step->Write_0 == done@.len() && step->Write_0 < injections@.len(),
        step is Finish && step->Finish_0 is Ok ==> injections@.len() <= done@.len(),
{
}

} // verus!
