//! What holds of children across the calls that handle them.

use vstd::prelude::*;

use crate::process::compat::{
    cursor_v10_to_v11, cursor_v11_to_v10, env_var_v10_to_v11, err_v11_to_v10, exit_v11_to_v10, kill_result_v11_to_v10, log_chunk_v11_to_v10,
    log_stream_v10_to_v11, overflow_v10_to_v11, phase_v11_to_v10, process_info_v11_to_v10, process_infos_v11_to_v10,
    process_result_v11_to_v10, read_logs_v11_to_v10, resource_limits_v10_to_v11,
    signal_v10_to_v11, spawn_request_v10_to_v11,
};
use crate::names::pairs_as_map;
use crate::process::counts::ProcessCounts;
use crate::process::managed::{
    collides, kill_and_reap, laid, merge_env, merged, prepare_sandboxed_command, resolve_program,
    sandbox_error, ChildPoll, CommandPlan, KillAnswer, ManagedProcess, OutputBuffer,
    PrepareCommandError, WaitAnswer,
};
use crate::process::inert::ProcessTracker as InertTracker;
use crate::process::ops::{attach, or_cancelled, signal, watch};
use crate::process::persistent::registry::PersistentProcessRegistry;
use crate::process::platform::{
    group_signal_result, name_of_signal, raw_pid, root_signal_result, signal_process_tree,
    signal_root_process, signal_supported, terminate_result, usable_pid, SignalError, SignalPlan,
    Termination,
};
use crate::process::tracker::{
    first_signals, kills, CancelPlan, CancellationTarget, FirstSignal, Platform, ProcessTracker,
    TrackedOwner, TrackedProcess,
};
use crate::process::types::{
    ErrorCode, ExitInfo, KillResult, ProcessSignal, ReadLogsResult,
};
use crate::process::types as v11;
use crate::process::v10;
use crate::text::{lossy_text, views};

verus! {

/// Whatever is told in the older form keeps its exit code, its signal, its streams and its state,
/// each under its own name.
pub proof fn law_older_form_keeps_results(
    exit: v11::ExitInfo,
    a: v10::ExitInfo,
    result: v11::ProcessResult,
    b: v10::ProcessResult,
    logs: v11::ReadLogsResult,
    c: v10::ReadLogsResult,
    kill: v11::KillResult,
    d: v10::KillResult,
    chunk: v11::LogChunk,
    e: v10::LogChunk,
)
    requires
        call_ensures(exit_v11_to_v10, (exit,), a),
        call_ensures(process_result_v11_to_v10, (result,), b),
        call_ensures(read_logs_v11_to_v10, (logs,), c),
        call_ensures(kill_result_v11_to_v10, (kill,), d),
        call_ensures(log_chunk_v11_to_v10, (chunk,), e),
    ensures
        a.exit_code == exit.exit_code && a.signal == exit.signal,
        b.stdout == result.stdout && b.stderr == result.stderr,
        b.exit.exit_code == result.exit.exit_code && b.exit.signal == result.exit.signal,
        c.stdout == logs.stdout && c.stderr == logs.stderr && c.running == logs.running,
        c.exit is Some <==> logs.exit is Some,
        c.exit is Some ==> c.exit->Some_0.exit_code == logs.exit->Some_0.exit_code
            && c.exit->Some_0.signal == logs.exit->Some_0.signal,
        d.killed == kill.killed && d.stdout == kill.stdout && d.stderr == kill.stderr,
        d.exit is Some <==> kill.exit is Some,
        d.exit is Some ==> d.exit->Some_0.exit_code == kill.exit->Some_0.exit_code
            && d.exit->Some_0.signal == kill.exit->Some_0.signal,
        e.data == chunk.data && e.next.token == chunk.next.token && e.bytes_dropped
            == chunk.bytes_dropped && e.drained_eof == chunk.drained_eof,
{
}

/// The state of a process in the older form is the same state, field by field.
pub proof fn law_older_form_keeps_states(info: v11::ProcessInfo, r: v10::ProcessInfo)
    requires
        call_ensures(process_info_v11_to_v10, (info,), r),
    ensures
        r.id == info.id && r.label == info.label && r.command == info.command,
        r.os_pid == info.os_pid,
        r.phase is Starting <==> info.phase is Starting,
        r.phase is Running <==> info.phase is Running,
        r.phase is Exited <==> info.phase is Exited,
        r.exit is Some <==> info.exit is Some,
        r.exit is Some ==> r.exit->Some_0.exit_code == info.exit->Some_0.exit_code
            && r.exit->Some_0.signal == info.exit->Some_0.signal,
        r.age_ms == info.age_ms && r.idle_ms == info.idle_ms,
        r.buffered_bytes == info.buffered_bytes && r.bytes_dropped == info.bytes_dropped,
        r.stdin_open == info.stdin_open,
        r.cpu_ms == info.cpu_ms && r.mem_bytes_peak == info.mem_bytes_peak,
{
}

/// Several states in the older form are as many states in the same order.
pub proof fn law_older_form_keeps_order(
    infos: Vec<v11::ProcessInfo>,
    r: Vec<v10::ProcessInfo>,
    i: int,
)
    requires
        call_ensures(process_infos_v11_to_v10, (infos,), r),
        0 <= i < infos@.len(),
    ensures
        r@.len() == infos@.len(),
        r@[i].id == infos@[i].id && r@[i].label == infos@[i].label && r@[i].age_ms
            == infos@[i].age_ms,
{
}

/// An error in the older form is the error of the same name, and an unknown one keeps its text.
pub proof fn law_older_form_keeps_errors(e: v11::ErrorCode, r: v10::ErrorCode)
    requires
        call_ensures(err_v11_to_v10, (e,), r),
    ensures
        e is CapabilityDenied <==> r is CapabilityDenied,
        e is InvalidInput <==> r is InvalidInput,
        e is BoundaryEscape <==> r is BoundaryEscape,
        e is Quota <==> r is Quota,
        e is TooLarge <==> r is TooLarge,
        e is Closed <==> r is Closed,
        e is Cancelled <==> r is Cancelled,
        e is WaitTimeout <==> r is WaitTimeout,
        e is NoSuchProcess <==> r is NoSuchProcess,
        e is RegistryFull <==> r is RegistryFull,
        e is PersistUnsupported <==> r is PersistUnsupported,
        e is Unknown ==> r is Unknown && r->Unknown_0 == e->Unknown_0,
{
}

/// A request in the older form asks for the same: the program, its arguments and input, its
/// environment in order, its directory, its limits, and how it is to be kept. It carries no files.
pub proof fn law_older_request_asks_for_the_same(
    r: v10::SpawnRequest,
    out: v11::SpawnRequest,
    i: int,
)
    requires
        call_ensures(spawn_request_v10_to_v11, (r,), out),
        0 <= i < r.env@.len(),
    ensures
        out.cmd == r.cmd && out.args == r.args && out.stdin == r.stdin && out.cwd == r.cwd,
        out.env@.len() == r.env@.len(),
        out.env@[i].key == r.env@[i].key && out.env@[i].value == r.env@[i].value,
        out.label == r.label && out.keep_stdin_open == r.keep_stdin_open,
        out.log_ring_bytes == r.log_ring_bytes,
        out.max_lifetime_ms == r.max_lifetime_ms,
        out.idle_timeout_ms == r.idle_timeout_ms,
        out.exit_retention_ms == r.exit_retention_ms,
        out.file_injections@.len() == 0,
        out.overflow is Some <==> r.overflow is Some,
        out.overflow is Some ==> (out.overflow->Some_0 is Backpressure
            <==> r.overflow->Some_0 is Backpressure),
        out.limits is Some <==> r.limits is Some,
        out.limits is Some ==> {
            let a = out.limits->Some_0;
            let b = r.limits->Some_0;
            &&& a.max_memory_bytes == b.max_memory_bytes
            &&& a.max_cpu_secs == b.max_cpu_secs
            &&& a.max_pids == b.max_pids
            &&& a.max_open_files == b.max_open_files
        },
{
}

/// A stream and a signal in the older form are the stream and the signal of the same name.
pub proof fn law_older_names_mean_the_same(
    s: v10::LogStream,
    a: v11::LogStream,
    g: v10::ProcessSignal,
    b: v11::ProcessSignal,
)
    requires
        call_ensures(log_stream_v10_to_v11, (s,), a),
        call_ensures(signal_v10_to_v11, (g,), b),
    ensures
        s is Stdout <==> a is Stdout,
        g is Term <==> b is Term,
        g is Hup <==> b is Hup,
        g is Usr1 <==> b is Usr1,
        g is Usr2 <==> b is Usr2,
        g is Int <==> b is Int,
        g is Stop <==> b is Stop,
        g is Cont <==> b is Cont,
{
}

/// A buffer holds the last mebibyte of what was put into it, and gives it out once.
pub proof fn law_buffer_holds_the_last_mebibyte(
    pushed: &mut OutputBuffer,
    drained: &mut OutputBuffer,
    chunk: &[u8],
    text: String,
)
    requires
        call_ensures(OutputBuffer::push, (pushed, chunk), ()),
        *old(drained) == *final(pushed),
        call_ensures(OutputBuffer::drain, (drained,), text),
    ensures
        ({
            let all = old(pushed)@ + chunk@;
            &&& all.len() <= 1024 * 1024 ==> text@ == lossy_text(all)
            &&& all.len() > 1024 * 1024 ==> final(pushed)@.len() == 1024 * 1024 && final(pushed)@.is_suffix_of(all) && text@ == lossy_text(final(pushed)@)
            &&& final(drained)@.len() == 0
        }),
{
    let all = old(pushed)@ + chunk@;
    if all.len() > 1024 * 1024 {
        let kept = final(pushed)@;
        assert(kept =~= all.skip(all.len() - 1024 * 1024));
        assert(kept =~= all.subrange((all.len() - kept.len()) as int, all.len() as int));
    }
}

/// The output of a child is given out once. A child that runs has no exit; one that exited is told
/// with its code and is not waited for again; one that could not be asked counts as failed.
pub proof fn law_reading_a_child(
    child: &mut ManagedProcess,
    poll: ChildPoll,
    r: ReadLogsResult,
)
    requires
        call_ensures(ManagedProcess::read_logs, (child, poll), r),
    ensures
        r.stdout@ == lossy_text(old(child).stdout@),
        r.stderr@ == lossy_text(old(child).stderr@),
        final(child).stdout@.len() == 0 && final(child).stderr@.len() == 0,
        r.running <==> old(child).child && poll is Running,
        r.running ==> r.exit is None && final(child).child,
        !r.running ==> r.exit is Some && !final(child).child && r.exit->Some_0.signal is None,
        old(child).child && poll is Exited ==> r.exit->Some_0.exit_code == poll->Exited_0,
        old(child).child && poll is Failed ==> r.exit->Some_0.exit_code == Some(-1i32),
        !old(child).child ==> r.exit->Some_0.exit_code is None,
        final(child).pid == old(child).pid && final(child).creator == old(child).creator,
{
}

/// Waiting for a child gives its code once; a second wait finds it closed. A wait that ran out, was
/// cancelled or failed leaves the child to be waited for.
pub proof fn law_waiting_for_a_child(
    first: &mut ManagedProcess,
    second: &mut ManagedProcess,
    late: &mut ManagedProcess,
    answer: &WaitAnswer,
    r: Result<ExitInfo, ErrorCode>,
    again: Result<ExitInfo, ErrorCode>,
    timed_out: Result<ExitInfo, ErrorCode>,
    code: Option<i32>,
)
    requires
        old(first).child,
        call_ensures(ManagedProcess::wait, (first, &WaitAnswer::Exited(code)), r),
        *old(second) == *final(first),
        call_ensures(ManagedProcess::wait, (second, answer), again),
        *old(late) == *old(first),
        call_ensures(ManagedProcess::wait, (late, &WaitAnswer::TimedOut), timed_out),
    ensures
        r is Ok && r->Ok_0.exit_code == code && r->Ok_0.signal is None,
        again == Err::<ExitInfo, ErrorCode>(ErrorCode::Closed),
        timed_out == Err::<ExitInfo, ErrorCode>(ErrorCode::WaitTimeout),
        *final(late) == *old(late),
        final(first).stdout == old(first).stdout && final(first).stderr == old(first).stderr,
{
}

/// Killing a child tells whether it was killed and with what code it ended; one that is gone already
/// was not killed. What it had written comes with the answer.
pub proof fn law_killing_a_child(
    child: &mut ManagedProcess,
    platform: Platform,
    answer: &KillAnswer,
    r: Result<KillResult, ErrorCode>,
)
    requires
        call_ensures(ManagedProcess::kill, (child, platform, answer), r),
    ensures
        !final(child).child,
        !old(child).child ==> r is Ok && !r->Ok_0.killed,
        r is Ok ==> r->Ok_0.stdout@ == lossy_text(old(child).stdout@) && r->Ok_0.stderr@
            == lossy_text(old(child).stderr@),
        old(child).child && platform is Unix ==> r is Ok && r->Ok_0.killed
            && r->Ok_0.exit->Some_0.exit_code == answer.code_after,
        old(child).child && !(platform is Unix) && answer.terminated is Err ==> r == Err::<
            KillResult,
            ErrorCode,
        >(answer.terminated->Err_0),
        old(child).child && platform is Windows && answer.terminated is Ok
            && answer.exited_before is Some ==> r is Ok && !r->Ok_0.killed
            && r->Ok_0.exit->Some_0.exit_code == answer.exited_before->Some_0,
        old(child).child && platform is Windows && answer.terminated is Ok
            && answer.exited_before is None ==> r is Ok && r->Ok_0.killed
            && r->Ok_0.exit->Some_0.exit_code == answer.code_after,
{
}

/// A child that is given up counts no more and, if it still ran, is tracked no more.
pub proof fn law_giving_a_child_up(
    child: ManagedProcess,
    pid: u32,
    counts: &mut ProcessCounts,
    tracker: &mut ProcessTracker,
)
    requires
        call_ensures(ManagedProcess::give_up, (child, Some(pid), counts, tracker), ()),
        old(counts)@.of(child.creator@) > 0,
        old(counts)@.total > 0,
    ensures
        final(counts)@.of(child.creator@) == old(counts)@.of(child.creator@) - 1,
        final(counts)@.total == old(counts)@.total - 1,
        child.child ==> !final(tracker)@.contains_key(pid),
        !child.child ==> final(tracker)@ == old(tracker)@,
        forall|other: u32|
            other != pid && old(tracker)@.contains_key(other) ==> #[trigger] final(tracker)@.contains_key(other) && final(tracker)@[other] == old(tracker)@[other],
{
}

/// The number of a child is known only while it runs.
pub proof fn law_number_of_a_child(
    child: &ManagedProcess,
    id: Option<u32>,
    r: Result<u32, ErrorCode>,
)
    requires
        call_ensures(ManagedProcess::os_pid, (child, id), r),
    ensures
        child.child && id is Some ==> r == Ok::<u32, ErrorCode>(id->Some_0),
        !child.child || id is None ==> r == Err::<u32, ErrorCode>(ErrorCode::Closed),
{
}

/// Variables that point to files are added to the environment of a child, and replace nothing in
/// it: one that is there already, or that is pointed to twice, makes the command invalid.
pub proof fn law_pointers_replace_nothing(
    env: &Vec<(String, String)>,
    injected: &Vec<(String, String)>,
    r: Result<Vec<(String, String)>, PrepareCommandError>,
    i: int,
)
    requires
        call_ensures(merge_env, (env, injected), r),
        env@.len() == 1,
        injected@.len() == 1,
    ensures
        env@[0].0@ == injected@[0].0@ ==> r is Err && r->Err_0 is Invalid,
        env@[0].0@ != injected@[0].0@ ==> {
            &&& r is Ok
            &&& pairs_as_map(r->Ok_0@).contains_key(env@[0].0@)
            &&& pairs_as_map(r->Ok_0@)[env@[0].0@] == env@[0].1
            &&& pairs_as_map(r->Ok_0@).contains_key(injected@[0].0@)
            &&& pairs_as_map(r->Ok_0@)[injected@[0].0@] == injected@[0].1
        },
{
    reveal_with_fuel(laid, 2);
    reveal_with_fuel(merged, 2);
    assert(laid(env@, 1).contains_key(env@[0].0@));
    if env@[0].0@ == injected@[0].0@ {
        assert(laid(env@, env@.len() as int).contains_key(injected@[0].0@));
        assert(collides(env@, injected@, 1));
    } else {
        assert(!collides(env@, injected@, 1));
    }
}

/// A program that cannot be resolved makes the command invalid; one that can is the program that
/// runs. A command with a zero byte is never resolved.
pub proof fn law_command_runs_its_program(
    command: &str,
    found: Result<String, String>,
    env: &Vec<(String, String)>,
    none: &Vec<(String, String)>,
    r: Result<CommandPlan, PrepareCommandError>,
)
    requires
        call_ensures(resolve_program, (command,), found),
        none@.len() == 0,
        call_ensures(prepare_sandboxed_command, (found, env, none), r),
    ensures
        command@.contains('\0') ==> found is Err && r is Err && r->Err_0 is Invalid,
        !command@.contains('\0') ==> found is Ok && r is Ok && r->Ok_0.program@ == command@,
{
    assert(!collides(env@, none@, 0));
}

/// A sandbox that may not be set up denies the command; any other trouble makes it invalid.
pub proof fn law_sandbox_denials_are_told(
    text: &str,
    denied: PrepareCommandError,
    other: PrepareCommandError,
)
    requires
        call_ensures(sandbox_error, (text, true), denied),
        call_ensures(sandbox_error, (text, false), other),
    ensures
        denied is SandboxDenied && denied->SandboxDenied_0@ == "failed to wrap command in sandbox: "@
            + text@,
        other is Invalid,
{
}

/// A child that is registered is tracked under its number until it is unregistered by that number;
/// others are not concerned. Number zero is nobody.
pub proof fn law_tracking_a_child(
    registered: &mut ProcessTracker,
    unregistered: &mut ProcessTracker,
    pid: u32,
    other: u32,
    identity: u64,
    call_id: Option<String>,
    owner: Option<TrackedOwner>,
    beside: Option<TrackedOwner>,
    before: Option<TrackedOwner>,
    gone: Option<TrackedOwner>,
)
    requires
        pid != other,
        call_ensures(ProcessTracker::owner_of, (&*old(registered), other), before),
        call_ensures(
            ProcessTracker::register_tree,
            (registered, pid, identity, call_id),
            (),
        ),
        call_ensures(ProcessTracker::owner_of, (&*final(registered), pid), owner),
        call_ensures(ProcessTracker::owner_of, (&*final(registered), other), beside),
        *old(unregistered) == *final(registered),
        call_ensures(ProcessTracker::unregister_tree, (unregistered, pid, identity), ()),
        call_ensures(ProcessTracker::owner_of, (&*final(unregistered), pid), gone),
    ensures
        owner == Some(TrackedOwner::Tree(identity)),
        beside == before,
        gone is None,
        final(registered)@[pid].call_id == call_id,
{
}

/// A child without a tree is tracked by its number alone.
pub proof fn law_tracking_without_a_tree(
    registered: &mut ProcessTracker,
    nobody: &mut ProcessTracker,
    unregistered: &mut ProcessTracker,
    pid: u32,
    call_id: Option<String>,
)
    requires
        pid != 0,
        call_ensures(ProcessTracker::register, (registered, pid, call_id), ()),
        call_ensures(ProcessTracker::register, (nobody, 0u32, call_id), ()),
        *old(unregistered) == *final(registered),
        call_ensures(ProcessTracker::unregister, (unregistered, pid), ()),
    ensures
        final(registered)@.contains_key(pid),
        final(registered)@[pid].owner is Legacy,
        final(registered)@[pid].call_id == call_id,
        final(nobody)@ == old(nobody)@,
        !final(unregistered)@.contains_key(pid),
{
}

/// Cancelling calls reaches the children of those calls and the children of no call, as far as they
/// are still there, and no child of another call; cancelling no call reaches nobody.
pub proof fn law_cancelling_reaches_the_calls(
    tracker: &ProcessTracker,
    call_ids: &Vec<String>,
    live: &Vec<u64>,
    targets: Vec<CancellationTarget>,
    pid: u32,
)
    requires
        call_ensures(ProcessTracker::cancel_by_call_ids, (tracker, call_ids, live), targets),
        tracker@.contains_key(pid),
    ensures
        call_ids@.len() == 0 ==> targets@.len() == 0,
        ({
            let child = tracker@[pid];
            let called = child.call_id is None || views(call_ids@).contains(child.call_id->Some_0@);
            let there = child.owner is Legacy || live@.contains(child.owner->Tree_0);
            call_ids@.len() > 0 ==> (called && there <==> exists|i: int|
                0 <= i < targets@.len() && (#[trigger] targets@[i]).pid == pid)
        }),
{
}

/// Cancelling everything reaches every child that is still there, whatever its call.
pub proof fn law_cancelling_all_reaches_all(
    tracker: &ProcessTracker,
    live: &Vec<u64>,
    targets: Vec<CancellationTarget>,
    pid: u32,
)
    requires
        call_ensures(ProcessTracker::cancel_all, (tracker, live), targets),
        tracker@.contains_key(pid),
    ensures
        tracker@[pid].owner is Legacy || live@.contains(tracker@[pid].owner->Tree_0) <==> exists|
            i: int,
        |
            0 <= i < targets@.len() && (#[trigger] targets@[i]).pid == pid,
{
}

/// A child is interrupted through its tree where it has one and by its number where it has none; on
/// Windows its tree is ended at once. Only where children are interrupted are they looked at again.
pub proof fn law_first_signal_fits_the_platform(
    targets: &Vec<CancellationTarget>,
    unix: CancelPlan,
    windows: CancelPlan,
    other: CancelPlan,
)
    requires
        targets@.len() == 1,
        call_ensures(ProcessTracker::signal_targets, (targets, Platform::Unix), unix),
        call_ensures(ProcessTracker::signal_targets, (targets, Platform::Windows), windows),
        call_ensures(ProcessTracker::signal_targets, (targets, Platform::Other), other),
    ensures
        ({
            let target = targets@[0];
            &&& target.identity is Some ==> unix.now@ == seq![
                FirstSignal::InterruptRoot(target.identity->Some_0),
            ]
            &&& target.identity is Some ==> windows.now@ == seq![
                FirstSignal::TerminateTree(target.identity->Some_0),
            ]
            &&& target.identity is None && target.pid <= 0x7fff_ffff ==> unix.now@.len() == 1
                && unix.now@[0] is InterruptPid && unix.now@[0]->InterruptPid_0 == target.pid
            &&& target.identity is None && target.pid > 0x7fff_ffff ==> unix.now@.len() == 0
            &&& target.identity is None ==> windows.now@.len() == 0
            &&& other.now@.len() == 0
            &&& unix.recheck@ == targets@
            &&& windows.recheck@.len() == 0 && other.recheck@.len() == 0
        }),
{
    reveal_with_fuel(first_signals, 2);
    assert(targets@.drop_last() =~= Seq::empty());
    let target = targets@[0];
    if target.identity is Some {
        assert(unix.now@ =~= seq![FirstSignal::InterruptRoot(target.identity->Some_0)]);
        assert(windows.now@ =~= seq![FirstSignal::TerminateTree(target.identity->Some_0)]);
    }
}

/// A child that is still the one that was interrupted is killed; one that is gone, or whose number
/// is another's by now, is spared.
pub proof fn law_escalation_kills_the_same_child(
    tracker: &ProcessTracker,
    recheck: &Vec<CancellationTarget>,
    kill: Vec<i32>,
)
    requires
        recheck@.len() == 1,
        recheck@[0].pid <= 0x7fff_ffff,
        call_ensures(ProcessTracker::escalate, (tracker, recheck), kill),
    ensures
        ({
            let target = recheck@[0];
            let child = tracker@[target.pid];
            let same = tracker@.contains_key(target.pid) && match child.owner {
                TrackedOwner::Legacy => target.identity is None,
                TrackedOwner::Tree(identity) => target.identity == Some(identity),
            };
            &&& same ==> kill@.len() == 1 && kill@[0] == target.pid
            &&& !same ==> kill@.len() == 0
        }),
{
    reveal_with_fuel(kills, 2);
    assert(recheck@.drop_last() =~= Seq::empty());
}

/// Something is active exactly if a tracked child is still there; those that are not are forgotten.
pub proof fn law_gone_children_are_forgotten(
    tracker: &mut ProcessTracker,
    live: &Vec<u64>,
    active: bool,
    pid: u32,
)
    requires
        call_ensures(ProcessTracker::has_active, (tracker, live), active),
        old(tracker)@.contains_key(pid),
    ensures
        ({
            let there = old(tracker)@[pid].owner is Legacy || live@.contains(
                old(tracker)@[pid].owner->Tree_0,
            );
            &&& there <==> final(tracker)@.contains_key(pid)
            &&& there ==> active && final(tracker)@[pid] == old(tracker)@[pid]
        }),
        active ==> exists|other: u32| #[trigger] final(tracker)@.contains_key(other),
{
    if active {
        let other = choose|other: u32|
            old(tracker)@.contains_key(other) && (#[trigger] old(tracker)@[other]).reachable(live@);
        assert(final(tracker)@.contains_key(other));
    }
}

/// A number of a process can be signalled if it fits into the signed numbers of the system.
pub proof fn law_numbers_that_can_be_signalled(
    pid: u32,
    raw: Result<i32, ErrorCode>,
    tree: SignalPlan,
    root: SignalPlan,
    signal: ProcessSignal,
)
    requires
        call_ensures(raw_pid, (pid,), raw),
        call_ensures(signal_process_tree, (Platform::Unix, pid, signal), tree),
        call_ensures(signal_root_process, (Platform::Unix, pid, signal), root),
    ensures
        pid <= 0x7fff_ffff ==> raw is Ok && raw->Ok_0 == pid && tree is Group && tree->Group_0 == pid
            && root is Root && root->Root_0 == pid,
        pid > 0x7fff_ffff ==> raw == Err::<i32, ErrorCode>(ErrorCode::InvalidInput) && tree
            == SignalPlan::Refused(ErrorCode::InvalidInput) && root == SignalPlan::Refused(
            ErrorCode::InvalidInput,
        ),
{
}

/// Windows knows one signal, the request to end, and other platforms than it and Unix know none.
pub proof fn law_signals_of_a_platform(
    pid: u32,
    signal: ProcessSignal,
    on_unix: bool,
    on_windows: bool,
    tree: SignalPlan,
    root: SignalPlan,
    none: SignalPlan,
)
    requires
        call_ensures(signal_supported, (Platform::Unix, signal), on_unix),
        call_ensures(signal_supported, (Platform::Windows, signal), on_windows),
        call_ensures(signal_process_tree, (Platform::Windows, pid, signal), tree),
        call_ensures(signal_root_process, (Platform::Windows, pid, signal), root),
        call_ensures(signal_process_tree, (Platform::Other, pid, signal), none),
    ensures
        on_unix,
        on_windows <==> signal is Term,
        signal is Term ==> tree == SignalPlan::Terminate(Termination::Graceful) && root
            == SignalPlan::Terminate(Termination::Graceful),
        !(signal is Term) ==> tree == SignalPlan::Refused(ErrorCode::CapabilityDenied) && root
            == SignalPlan::Refused(ErrorCode::CapabilityDenied),
        none == SignalPlan::Refused(ErrorCode::CapabilityDenied),
{
}

/// No two signals bear the same name.
pub proof fn law_signal_names_differ(
    a: ProcessSignal,
    b: ProcessSignal,
    x: &'static str,
    y: &'static str,
)
    requires
        call_ensures(name_of_signal, (a,), x),
        call_ensures(name_of_signal, (b,), y),
        x@ == y@,
    ensures
        a == b,
        a is Term ==> x@ == "SIGTERM"@,
        a is Int ==> x@ == "SIGINT"@,
{
    reveal_strlit("SIGTERM");
    reveal_strlit("SIGHUP");
    reveal_strlit("SIGUSR1");
    reveal_strlit("SIGUSR2");
    reveal_strlit("SIGINT");
    reveal_strlit("SIGSTOP");
    reveal_strlit("SIGCONT");
    assert("SIGTERM"@[3] == 'T');
    assert("SIGHUP"@[3] == 'H');
    assert("SIGUSR1"@[3] == 'U' && "SIGUSR1"@[6] == '1');
    assert("SIGUSR2"@[3] == 'U' && "SIGUSR2"@[6] == '2');
    assert("SIGINT"@[3] == 'I');
    assert("SIGSTOP"@[3] == 'S');
    assert("SIGCONT"@[3] == 'C');
}

/// A signal that reached the group counts as delivered, whatever became of the root; one that
/// reached neither is an error that names the signal and the reason.
pub proof fn law_delivery_of_a_signal(
    root: &Result<(), SignalError>,
    signal: ProcessSignal,
    termination: Termination,
    reached: Result<(), ErrorCode>,
    unreached: Result<(), ErrorCode>,
    alone: Result<(), ErrorCode>,
    ended: Result<(), ErrorCode>,
)
    requires
        call_ensures(group_signal_result, (true, root, signal), reached),
        call_ensures(group_signal_result, (false, root, signal), unreached),
        call_ensures(root_signal_result, (root, signal), alone),
        call_ensures(terminate_result, (false, root, termination), ended),
    ensures
        reached is Ok,
        *root is Ok ==> unreached is Ok && alone is Ok && ended is Ok,
        *root is Err ==> unreached is Err && unreached->Err_0 is Unknown && alone is Err
            && alone->Err_0 is Unknown,
        *root is Err && root->Err_0.gone ==> ended is Ok,
        *root is Err && !root->Err_0.gone ==> ended is Err && ended->Err_0 is Unknown,
        signal is Term && *root is Err ==> unreached->Err_0->Unknown_0@ == "signal "@ + "SIGTERM"@
            + ": "@ + root->Err_0.text@ && alone->Err_0->Unknown_0@ == "kill("@ + "SIGTERM"@
            + "): "@ + root->Err_0.text@,
        termination is Force && *root is Err && !root->Err_0.gone ==> ended->Err_0->Unknown_0@
            == "signal "@ + "SIGKILL"@ + ": "@ + root->Err_0.text@,
        termination is Graceful && *root is Err && !root->Err_0.gone ==> ended->Err_0->Unknown_0@
            == "signal "@ + "SIGTERM"@ + ": "@ + root->Err_0.text@,
{
}

/// A child that was started has a number, and it is not zero.
pub proof fn law_started_children_have_numbers(id: Option<u32>, r: Result<u32, String>)
    requires
        call_ensures(usable_pid, (id,), r),
    ensures
        id is Some && id->Some_0 != 0 ==> r == Ok::<u32, String>(id->Some_0),
        id is None || id->Some_0 == 0 ==> r is Err,
{
}

/// A signal for a process that outlives its instance is refused where the platform has none such,
/// before the process is looked up; else it goes to the process while that runs.
pub proof fn law_signalling_a_lasting_process(
    registry: &mut PersistentProcessRegistry,
    platform: Platform,
    sig: ProcessSignal,
    id: &str,
    principal: &str,
    capsule_id: &str,
    now: u64,
    r: Result<Option<u32>, ErrorCode>,
)
    requires
        call_ensures(signal, (registry, platform, sig, id, principal, capsule_id, now), r),
    ensures
        platform is Windows && !(sig is Term) ==> r == Err::<Option<u32>, ErrorCode>(
            ErrorCode::CapabilityDenied,
        ) && final(registry)@ == old(registry)@,
        !(platform is Windows) && !old(registry)@.grants(id@, principal@, capsule_id@) ==> r
            == Err::<Option<u32>, ErrorCode>(ErrorCode::NoSuchProcess),
        !(platform is Windows) && old(registry)@.grants(id@, principal@, capsule_id@) && old(registry)@.process(id@).phase is Running ==> r == Ok::<Option<u32>, ErrorCode>(
            Some(old(registry)@.process(id@).os_pid),
        ),
        !(platform is Windows) && old(registry)@.grants(id@, principal@, capsule_id@) && old(registry)@.process(id@).phase is Exited ==> r == Ok::<Option<u32>, ErrorCode>(None),
{
}

/// What was awaited is passed on as it came; what never came was cancelled.
pub proof fn law_awaited_or_cancelled(
    outcome: Result<u32, ErrorCode>,
    came: Result<u32, ErrorCode>,
    missed: Result<u32, ErrorCode>,
)
    requires
        call_ensures(or_cancelled::<u32>, (Some(outcome),), came),
        call_ensures(or_cancelled::<u32>, (None::<Result<u32, ErrorCode>>,), missed),
    ensures
        came == outcome,
        missed == Err::<u32, ErrorCode>(ErrorCode::Cancelled),
{
}

/// A child is reached through its tree while that is there, and by its number where it has none.
pub proof fn law_reaching_a_child(
    child: &TrackedProcess,
    pid: u32,
    live: &Vec<u64>,
    target: Option<CancellationTarget>,
)
    requires
        call_ensures(TrackedProcess::target, (child, pid, live), target),
    ensures
        child.owner is Legacy ==> target is Some && target->Some_0.pid == pid
            && target->Some_0.identity is None,
        child.owner is Tree && live@.contains(child.owner->Tree_0) ==> target is Some
            && target->Some_0.pid == pid && target->Some_0.identity == Some(child.owner->Tree_0),
        child.owner is Tree && !live@.contains(child.owner->Tree_0) ==> target is None,
{
}

/// A child is forgotten by its identity alone: under the same number another stays.
pub proof fn law_forgetting_by_identity(
    tracker: &mut ProcessTracker,
    pid: u32,
    identity: u64,
    owner: Option<TrackedOwner>,
)
    requires
        call_ensures(ProcessTracker::owner_of, (&*old(tracker), pid), owner),
        call_ensures(ProcessTracker::unregister_identity, (tracker, pid, identity), ()),
    ensures
        owner == Some(TrackedOwner::Tree(identity)) ==> !final(tracker)@.contains_key(pid),
        owner != Some(TrackedOwner::Tree(identity)) ==> final(tracker)@ == old(tracker)@,
{
}

/// Where children are not tracked by tree, a number that is registered is there until it is
/// unregistered, and nothing is cancelled.
pub proof fn law_inert_tracking(
    registered: &mut InertTracker,
    unregistered: &mut InertTracker,
    pid: u32,
    there: bool,
    gone: bool,
    all: Vec<u32>,
)
    requires
        call_ensures(InertTracker::register, (registered, pid), ()),
        call_ensures(InertTracker::contains, (&*final(registered), pid), there),
        call_ensures(InertTracker::cancel_all, (&*final(registered),), all),
        *old(unregistered) == *final(registered),
        call_ensures(InertTracker::unregister, (unregistered, pid), ()),
        call_ensures(InertTracker::contains, (&*final(unregistered), pid), gone),
    ensures
        there && !gone,
        all@.len() == 0,
{
}

/// A kill is told as the platform tells it: on Unix it always succeeds, on Windows a child that had
/// exited before was not killed.
pub proof fn law_kills_as_the_platform_tells(
    answer: &KillAnswer,
    unix: Result<(bool, Option<i32>), ErrorCode>,
    windows: Result<(bool, Option<i32>), ErrorCode>,
)
    requires
        call_ensures(kill_and_reap, (Platform::Unix, answer), unix),
        call_ensures(kill_and_reap, (Platform::Windows, answer), windows),
    ensures
        unix == Ok::<(bool, Option<i32>), ErrorCode>((true, answer.code_after)),
        answer.terminated is Err ==> windows is Err && windows->Err_0 == answer.terminated->Err_0,
        answer.terminated is Ok && answer.exited_before is Some ==> windows == Ok::<
            (bool, Option<i32>),
            ErrorCode,
        >((false, answer.exited_before->Some_0)),
        answer.terminated is Ok && answer.exited_before is None ==> windows == Ok::<
            (bool, Option<i32>),
            ErrorCode,
        >((true, answer.code_after)),
{
}

/// Attaching is denied without authority, and neither attaching nor watching is to be had.
pub proof fn law_what_is_not_to_be_had(a: ErrorCode, b: ErrorCode, c: ErrorCode)
    requires
        call_ensures(attach, (false,), a),
        call_ensures(attach, (true,), b),
        call_ensures(watch, (), c),
    ensures
        a is CapabilityDenied,
        b is Unknown,
        c is Unknown,
{
}

/// The smaller values of the older form are the same values.
pub proof fn law_older_values_are_the_same(
    a: v11::LogCursor,
    x: v10::LogCursor,
    y: v11::LogCursor,
    e: v10::EnvVar,
    f: v11::EnvVar,
    o: v10::OverflowPolicy,
    q: v11::OverflowPolicy,
    l: v10::ResourceLimits,
    m: v11::ResourceLimits,
    p: v11::ProcessPhase,
    s: v10::ProcessPhase,
)
    requires
        call_ensures(cursor_v11_to_v10, (a,), x),
        call_ensures(cursor_v10_to_v11, (x,), y),
        call_ensures(env_var_v10_to_v11, (e,), f),
        call_ensures(overflow_v10_to_v11, (o,), q),
        call_ensures(resource_limits_v10_to_v11, (l,), m),
        call_ensures(phase_v11_to_v10, (p,), s),
    ensures
        x.token == a.token && y.token == a.token,
        f.key == e.key && f.value == e.value,
        o is Backpressure <==> q is Backpressure,
        m.max_memory_bytes == l.max_memory_bytes && m.max_cpu_secs == l.max_cpu_secs && m.max_pids
            == l.max_pids && m.max_open_files == l.max_open_files,
        p is Starting <==> s is Starting,
        p is Running <==> s is Running,
        p is Exited <==> s is Exited,
{
}

/// Every target is signalled on its own account: one target more adds its own signal at the end.
pub proof fn law_each_target_is_signalled(
    some: &Vec<CancellationTarget>,
    more: &Vec<CancellationTarget>,
    one: &Vec<CancellationTarget>,
    platform: Platform,
    a: CancelPlan,
    b: CancelPlan,
    c: CancelPlan,
)
    requires
        one@.len() == 1,
        more@ == some@ + one@,
        call_ensures(ProcessTracker::signal_targets, (some, platform), a),
        call_ensures(ProcessTracker::signal_targets, (more, platform), b),
        call_ensures(ProcessTracker::signal_targets, (one, platform), c),
    ensures
        b.now@ == a.now@ + c.now@,
        platform is Unix ==> b.recheck@ == a.recheck@ + c.recheck@,
{
    assert(more@.drop_last() =~= some@);
    assert(one@.drop_last() =~= Seq::empty());
    reveal_with_fuel(first_signals, 2);
    assert(b.now@ =~= a.now@ + c.now@);
}

/// Every child that is looked at again is judged on its own account.
pub proof fn law_each_child_is_looked_at(
    tracker: &ProcessTracker,
    some: &Vec<CancellationTarget>,
    more: &Vec<CancellationTarget>,
    one: &Vec<CancellationTarget>,
    a: Vec<i32>,
    b: Vec<i32>,
    c: Vec<i32>,
)
    requires
        one@.len() == 1,
        more@ == some@ + one@,
        call_ensures(ProcessTracker::escalate, (tracker, some), a),
        call_ensures(ProcessTracker::escalate, (tracker, more), b),
        call_ensures(ProcessTracker::escalate, (tracker, one), c),
    ensures
        b@ == a@ + c@,
{
    assert(more@.drop_last() =~= some@);
    assert(one@.drop_last() =~= Seq::empty());
    reveal_with_fuel(kills, 2);
    assert(b@ =~= a@ + c@);
}

/// Every variable that points to a file is in the environment of the child with its own value, and
/// every variable that was there before is there as before; no pointer has the name of another
/// variable or of another pointer.
pub proof fn law_every_pointer_is_set(
    env: &Vec<(String, String)>,
    injected: &Vec<(String, String)>,
    r: Result<Vec<(String, String)>, PrepareCommandError>,
    i: int,
    j: int,
    k: int,
)
    requires
        call_ensures(merge_env, (env, injected), r),
        r is Ok,
        0 <= i < injected@.len(),
        0 <= j < i,
        0 <= k < env@.len(),
        forall|m: int| k < m < env@.len() ==> (#[trigger] env@[m]).0@ != env@[k].0@,
    ensures
        injected@[j].0@ != injected@[i].0@,
        env@[k].0@ != injected@[i].0@,
        pairs_as_map(r->Ok_0@).contains_key(injected@[i].0@),
        pairs_as_map(r->Ok_0@)[injected@[i].0@] == injected@[i].1,
        pairs_as_map(r->Ok_0@).contains_key(env@[k].0@),
        pairs_as_map(r->Ok_0@)[env@[k].0@] == env@[k].1,
{
    let n = injected@.len() as int;
    lemma_laid(env@, k, env@.len() as int);
    if injected@[j].0@ == injected@[i].0@ {
        assert(collides(env@, injected@, n));
    }
    if env@[k].0@ == injected@[i].0@ {
        assert(collides(env@, injected@, n));
    }
    lemma_merged(env@, injected@, i, k, n);
}

/// The last of a key is what is laid under it.
proof fn lemma_laid(pairs: Seq<(String, String)>, k: int, n: int)
    requires
        0 <= k < n <= pairs.len(),
        forall|m: int| k < m < n ==> (#[trigger] pairs[m]).0@ != pairs[k].0@,
    ensures
        laid(pairs, n).contains_key(pairs[k].0@),
        laid(pairs, n)[pairs[k].0@] == pairs[k].1,
    decreases n,
{
    if k < n - 1 {
        lemma_laid(pairs, k, n - 1);
        assert(pairs[n - 1].0@ != pairs[k].0@);
    }
}

/// Where nothing collides, everything that is laid in stays.
proof fn lemma_merged(
    env: Seq<(String, String)>,
    injected: Seq<(String, String)>,
    i: int,
    k: int,
    n: int,
)
    requires
        !collides(env, injected, injected.len() as int),
        0 <= n <= injected.len(),
        0 <= k < env.len(),
        0 <= i < injected.len(),
        laid(env, env.len() as int).contains_key(env[k].0@),
        laid(env, env.len() as int)[env[k].0@] == env[k].1,
    ensures
        merged(env, injected, n).contains_key(env[k].0@),
        merged(env, injected, n)[env[k].0@] == env[k].1,
        i < n ==> merged(env, injected, n).contains_key(injected[i].0@) && merged(env, injected, n)[
        injected[i].0@] == injected[i].1,
    decreases n,
{
    if n > 0 {
        lemma_merged(env, injected, i, k, n - 1);
        let last = injected[n - 1];
        if last.0@ == env[k].0@ {
            assert(collides(env, injected, injected.len() as int)) by {
                assert(laid(env, env.len() as int).contains_key(injected[n - 1].0@));
            }
        }
        if i < n - 1 && last.0@ == injected[i].0@ {
            assert(collides(env, injected, injected.len() as int)) by {
                assert(injected[i].0@ == injected[n - 1].0@);
            }
        }
    }
}

/// A command is prepared with the environment that the variables of the child and the pointers to
/// its files make together, and is invalid where these do.
pub proof fn law_commands_have_the_merged_environment(
    program: String,
    env: &Vec<(String, String)>,
    injected: &Vec<(String, String)>,
    all: Result<Vec<(String, String)>, PrepareCommandError>,
    r: Result<CommandPlan, PrepareCommandError>,
)
    requires
        call_ensures(merge_env, (env, injected), all),
        call_ensures(prepare_sandboxed_command, (Ok(program), env, injected), r),
    ensures
        all is Ok <==> r is Ok,
        r is Ok ==> r->Ok_0.program == program && pairs_as_map(r->Ok_0.env@) == pairs_as_map(
            all->Ok_0@,
        ),
        r is Err ==> r->Err_0 is Invalid,
{
}

/// A wait that failed is told with the reason, one that was cancelled as such; either way the child
/// is still there to be waited for.
pub proof fn law_broken_waits(
    failed: &mut ManagedProcess,
    cancelled: &mut ManagedProcess,
    text: String,
    a: Result<ExitInfo, ErrorCode>,
    b: Result<ExitInfo, ErrorCode>,
)
    requires
        old(failed).child && old(cancelled).child,
        call_ensures(ManagedProcess::wait, (failed, &WaitAnswer::Failed(text)), a),
        call_ensures(ManagedProcess::wait, (cancelled, &WaitAnswer::Cancelled), b),
    ensures
        a is Err && a->Err_0 is Unknown && a->Err_0->Unknown_0@ == "wait: "@ + text@,
        b == Err::<ExitInfo, ErrorCode>(ErrorCode::Cancelled),
        *final(failed) == *old(failed) && *final(cancelled) == *old(cancelled),
{
}

/// A signal that reaches a lasting process touches it; one that is refused does not.
pub proof fn law_signals_touch(
    registry: &mut PersistentProcessRegistry,
    platform: Platform,
    sig: ProcessSignal,
    id: &str,
    principal: &str,
    capsule_id: &str,
    now: u64,
    r: Result<Option<u32>, ErrorCode>,
    supported: bool,
)
    requires
        call_ensures(signal, (registry, platform, sig, id, principal, capsule_id, now), r),
        call_ensures(signal_supported, (platform, sig), supported),
    ensures
        r is Ok <==> supported && old(registry)@.grants(id@, principal@, capsule_id@),
        r is Ok ==> final(registry)@.process(id@).last_touch == now
            && final(registry)@.process(id@).phase == old(registry)@.process(id@).phase,
        r is Err ==> final(registry)@ == old(registry)@,
        !supported ==> r == Err::<Option<u32>, ErrorCode>(ErrorCode::CapabilityDenied),
{
}

/// Nothing is cancelled where nothing can be.
pub proof fn law_inert_cancelling(tracker: &InertTracker, ids: &Vec<String>, r: Vec<u32>)
    requires
        call_ensures(InertTracker::cancel_by_call_ids, (tracker, ids), r),
    ensures
        r@.len() == 0,
{
}

/// A killed child has an exit without a signal, and its output is handed on once.
pub proof fn law_killed_without_a_signal(
    process: &mut ManagedProcess,
    again: &mut ManagedProcess,
    platform: Platform,
    answer: &KillAnswer,
    r: Result<KillResult, ErrorCode>,
    s: Result<KillResult, ErrorCode>,
)
    requires
        call_ensures(ManagedProcess::kill, (process, platform, answer), r),
        *old(again) == *final(process),
        call_ensures(ManagedProcess::kill, (again, platform, answer), s),
    ensures
        r is Ok ==> r->Ok_0.exit is Some && r->Ok_0.exit->Some_0.signal is None,
        r is Ok ==> r->Ok_0.stdout@ == lossy_text(old(process).stdout@) && r->Ok_0.stderr@
            == lossy_text(old(process).stderr@),
        r is Err ==> old(process).child && final(process).stdout == old(process).stdout,
        s is Ok && !s->Ok_0.killed && s->Ok_0.exit->Some_0.exit_code is None,
        r is Ok ==> s->Ok_0.stdout@ == lossy_text(Seq::<u8>::empty()),
        r is Err ==> s->Ok_0.stdout@ == lossy_text(old(process).stdout@),
{
}

/// The process ids are listed once each, in order, and they are those of the children that are
/// tracked.
pub proof fn law_listed_pids(tracker: &ProcessTracker, pids: Vec<u32>, i: int, j: int, pid: u32)
    requires
        call_ensures(ProcessTracker::active_pids_snapshot, (tracker,), pids),
        0 <= i < j < pids@.len(),
    ensures
        pids@[i] < pids@[j],
        pids@.contains(pid) <==> tracker@.contains_key(pid),
{
}

} // verus!
