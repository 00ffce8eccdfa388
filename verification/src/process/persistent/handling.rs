//! What callers do to a process of theirs, from one call to the next.

use vstd::prelude::*;

use crate::process::persistent::entry::ExitRecord;
use crate::process::persistent::registry::{
    gives_out, granted_ids, PersistentProcessRegistry, Reaped, RegistryView, StopAction, StopPlan,
    WaitOutcome,
};
use crate::process::persistent::ring::{decode_cursor, law_cursor_round_trip};
use crate::process::types::{
    ErrorCode, LogChunk, LogCursor, LogStream, ProcessInfo, ReadLogsResult,
};
use crate::text::lossy_text;

verus! {

/// A caller who does not own the process that an id names is answered as if there were none,
/// whatever is asked for, and nothing changes; only a release of an id that names nothing succeeds.
pub proof fn law_strangers_change_nothing(
    read: &mut PersistentProcessRegistry,
    signalled: &mut PersistentProcessRegistry,
    stopped: &mut PersistentProcessRegistry,
    closed: &mut PersistentProcessRegistry,
    released: &mut PersistentProcessRegistry,
    id: &str,
    principal: &str,
    capsule_id: &str,
    grace: Option<u64>,
    now: u64,
    logs: Result<ReadLogsResult, ErrorCode>,
    target: Result<Option<u32>, ErrorCode>,
    plan: Result<StopPlan, ErrorCode>,
    close: Result<(), ErrorCode>,
    gone: Result<Option<Reaped>, ErrorCode>,
)
    requires
        !old(read)@.grants(id@, principal@, capsule_id@),
        *old(signalled) == *old(read),
        *old(stopped) == *old(read),
        *old(closed) == *old(read),
        *old(released) == *old(read),
        call_ensures(
            PersistentProcessRegistry::read_logs,
            (read, id, principal, capsule_id, now),
            logs,
        ),
        call_ensures(
            PersistentProcessRegistry::signal,
            (signalled, id, principal, capsule_id, now),
            target,
        ),
        call_ensures(
            PersistentProcessRegistry::stop,
            (stopped, id, principal, capsule_id, grace, now),
            plan,
        ),
        call_ensures(
            PersistentProcessRegistry::close_stdin,
            (closed, id, principal, capsule_id, now),
            close,
        ),
        call_ensures(
            PersistentProcessRegistry::release,
            (released, id, principal, capsule_id),
            gone,
        ),
    ensures
        logs == Err::<ReadLogsResult, ErrorCode>(ErrorCode::NoSuchProcess),
        target == Err::<Option<u32>, ErrorCode>(ErrorCode::NoSuchProcess),
        plan == Err::<StopPlan, ErrorCode>(ErrorCode::NoSuchProcess),
        close == Err::<(), ErrorCode>(ErrorCode::NoSuchProcess),
        final(read)@ == old(read)@,
        final(signalled)@ == old(read)@,
        final(stopped)@ == old(read)@,
        final(closed)@ == old(read)@,
        final(released)@ == old(read)@,
        old(read)@.entries.contains_key(old(read)@.slot(id@)) ==> gone == Err::<
            Option<Reaped>,
            ErrorCode,
        >(ErrorCode::NoSuchProcess),
        !old(read)@.entries.contains_key(old(read)@.slot(id@)) ==> gone == Ok::<
            Option<Reaped>,
            ErrorCode,
        >(None),
{
}

/// What a process writes to a stream is read from that stream, after what was there before, and
/// once only; the other stream stays as it is.
pub proof fn law_output_stays_in_its_stream(
    fed: &mut PersistentProcessRegistry,
    read: &mut PersistentProcessRegistry,
    again: &mut PersistentProcessRegistry,
    key: &str,
    which: LogStream,
    chunk: &[u8],
    accepted: Option<bool>,
    id: &str,
    principal: &str,
    capsule_id: &str,
    now: u64,
    then: u64,
    logs: Result<ReadLogsResult, ErrorCode>,
    rest: Result<ReadLogsResult, ErrorCode>,
)
    requires
        old(fed)@.grants(id@, principal@, capsule_id@),
        key@ == old(fed)@.slot(id@),
        old(fed)@.process(id@).ring(which).bytes.len() + chunk@.len() <= old(fed)@.process(
            id@,
        ).ring(which).cap,
        call_ensures(PersistentProcessRegistry::feed, (fed, key, which, chunk), accepted),
        *old(read) == *final(fed),
        call_ensures(
            PersistentProcessRegistry::read_logs,
            (read, id, principal, capsule_id, now),
            logs,
        ),
        *old(again) == *final(read),
        call_ensures(
            PersistentProcessRegistry::read_logs,
            (again, id, principal, capsule_id, then),
            rest,
        ),
    ensures
        accepted == Some(true),
        logs is Ok,
        which is Stdout ==> logs->Ok_0.stdout@ == lossy_text(
            old(fed)@.process(id@).stdout.bytes + chunk@,
        ) && logs->Ok_0.stderr@ == lossy_text(old(fed)@.process(id@).stderr.bytes),
        which is Stderr ==> logs->Ok_0.stderr@ == lossy_text(
            old(fed)@.process(id@).stderr.bytes + chunk@,
        ) && logs->Ok_0.stdout@ == lossy_text(old(fed)@.process(id@).stdout.bytes),
        rest is Ok,
        rest->Ok_0.stdout@ == lossy_text(Seq::empty()),
        rest->Ok_0.stderr@ == lossy_text(Seq::empty()),
        final(again)@.process(id@).last_touch == then,
        final(again)@.process(id@).spawned_at == old(fed)@.process(id@).spawned_at,
{
}

/// Whoever reads on where they left off reads what came since: after a read without a limit in the
/// way, what the process writes next is what the next read gives. Reading takes nothing away.
pub proof fn law_reading_goes_on(
    first: &mut PersistentProcessRegistry,
    fed: &mut PersistentProcessRegistry,
    next: &mut PersistentProcessRegistry,
    key: &str,
    which: LogStream,
    start: &LogCursor,
    head: Result<LogChunk, ErrorCode>,
    chunk: &[u8],
    accepted: Option<bool>,
    id: &str,
    principal: &str,
    capsule_id: &str,
    max: u32,
    now: u64,
    tail: Result<LogChunk, ErrorCode>,
)
    requires
        old(first)@.valid(),
        old(first)@.grants(id@, principal@, capsule_id@),
        key@ == old(first)@.slot(id@),
        start.token is None,
        old(first)@.process(id@).ring(which).bytes.len() <= max <= 4 * 1024 * 1024,
        call_ensures(
            PersistentProcessRegistry::read_since,
            (first, id, principal, capsule_id, which, start, max, now),
            head,
        ),
        *old(fed) == *final(first),
        old(fed)@.process(id@).ring(which).bytes.len() + chunk@.len() <= old(fed)@.process(
            id@,
        ).ring(which).cap,
        call_ensures(PersistentProcessRegistry::feed, (fed, key, which, chunk), accepted),
        chunk@.len() <= max,
        *old(next) == *final(fed),
        head is Ok ==> call_ensures(
            PersistentProcessRegistry::read_since,
            (next, id, principal, capsule_id, which, &head->Ok_0.next, max, now),
            tail,
        ),
    ensures
        head is Ok,
        head->Ok_0.data@ == old(first)@.process(id@).ring(which).bytes,
        head->Ok_0.bytes_dropped == 0,
        head->Ok_0.drained_eof == !old(first)@.process(id@).is_live(),
        tail is Ok,
        tail->Ok_0.data@ == chunk@,
        tail->Ok_0.bytes_dropped == 0,
{
    let before = old(first)@.process(id@);
    assert(before.valid());
    let ring = before.ring(which);
    law_cursor_round_trip(ring.end() as u64);
    let after = old(next)@.process(id@).ring(which);
    assert(head->Ok_0.data@ =~= ring.bytes);
    assert(after.bytes == ring.bytes + chunk@);
    assert(tail->Ok_0.data@ =~= chunk@);
}

/// While bytes are on their way into a process nobody else writes to it; once they are written the
/// next write begins, and after a write that failed there is none.
pub proof fn law_one_write_at_a_time(
    begun: &mut PersistentProcessRegistry,
    meanwhile: &mut PersistentProcessRegistry,
    finished: &mut PersistentProcessRegistry,
    next: &mut PersistentProcessRegistry,
    id: &str,
    principal: &str,
    capsule_id: &str,
    len: usize,
    other: usize,
    count: u32,
    written: bool,
    now: u64,
    key: Result<String, ErrorCode>,
    slot: &str,
    refused: Result<String, ErrorCode>,
    told: Result<u32, ErrorCode>,
    then: Result<String, ErrorCode>,
)
    requires
        old(begun)@.valid(),
        len <= 1024 * 1024,
        other <= 1024 * 1024,
        call_ensures(
            PersistentProcessRegistry::begin_write,
            (begun, id, principal, capsule_id, len, now),
            key,
        ),
        key is Ok,
        *old(meanwhile) == *final(begun),
        call_ensures(
            PersistentProcessRegistry::begin_write,
            (meanwhile, id, principal, capsule_id, other, now),
            refused,
        ),
        *old(finished) == *final(begun),
        call_ensures(
            PersistentProcessRegistry::finish_write,
            (finished, slot, count, written),
            told,
        ),
        slot@ == key->Ok_0@,
        *old(next) == *final(finished),
        call_ensures(
            PersistentProcessRegistry::begin_write,
            (next, id, principal, capsule_id, other, now),
            then,
        ),
    ensures
        old(begun)@.grants(id@, principal@, capsule_id@),
        refused == Err::<String, ErrorCode>(ErrorCode::Closed),
        written ==> told == Ok::<u32, ErrorCode>(count) && then is Ok,
        !written ==> told == Err::<u32, ErrorCode>(ErrorCode::Closed) && then == Err::<
            String,
            ErrorCode,
        >(ErrorCode::Closed),
        final(finished)@.process(id@).stdin_open == written,
{
    assert(old(begun)@.process(id@).valid());
}

/// After its input was closed nobody writes to a process, and its state says so. More than a
/// mebibyte is refused before anything is looked up.
pub proof fn law_closed_input_stays_closed(
    closed: &mut PersistentProcessRegistry,
    begun: &mut PersistentProcessRegistry,
    id: &str,
    principal: &str,
    capsule_id: &str,
    len: usize,
    now: u64,
    r: Result<(), ErrorCode>,
    key: Result<String, ErrorCode>,
    info: Result<ProcessInfo, ErrorCode>,
)
    requires
        old(closed)@.grants(id@, principal@, capsule_id@),
        call_ensures(
            PersistentProcessRegistry::close_stdin,
            (closed, id, principal, capsule_id, now),
            r,
        ),
        *old(begun) == *final(closed),
        call_ensures(
            PersistentProcessRegistry::begin_write,
            (begun, id, principal, capsule_id, len, now),
            key,
        ),
        call_ensures(
            PersistentProcessRegistry::status,
            (&*final(closed), id, principal, capsule_id, now),
            info,
        ),
    ensures
        r is Ok,
        len <= 1024 * 1024 ==> key == Err::<String, ErrorCode>(ErrorCode::Closed),
        len > 1024 * 1024 ==> key == Err::<String, ErrorCode>(ErrorCode::TooLarge)
            && final(begun)@ == old(begun)@,
        info is Ok && !info->Ok_0.stdin_open,
{
}

/// A process that runs is the one to be signalled; one that exited is not signalled any more,
/// since its number may be another's by then.
pub proof fn law_only_the_running_are_signalled(
    signalled: &mut PersistentProcessRegistry,
    exited: &mut PersistentProcessRegistry,
    late: &mut PersistentProcessRegistry,
    key: &str,
    record: ExitRecord,
    exit: u64,
    id: &str,
    principal: &str,
    capsule_id: &str,
    now: u64,
    target: Result<Option<u32>, ErrorCode>,
    missed: Result<Option<u32>, ErrorCode>,
)
    requires
        old(signalled)@.grants(id@, principal@, capsule_id@),
        old(signalled)@.process(id@).phase is Running,
        key@ == old(signalled)@.slot(id@),
        call_ensures(
            PersistentProcessRegistry::signal,
            (signalled, id, principal, capsule_id, now),
            target,
        ),
        *old(exited) == *final(signalled),
        call_ensures(PersistentProcessRegistry::record_exit, (exited, key, record, exit), ()),
        *old(late) == *final(exited),
        call_ensures(
            PersistentProcessRegistry::signal,
            (late, id, principal, capsule_id, now),
            missed,
        ),
    ensures
        target == Ok::<Option<u32>, ErrorCode>(Some(old(signalled)@.process(id@).os_pid)),
        missed == Ok::<Option<u32>, ErrorCode>(None),
{
}

/// A running process is asked to stop, for as long as was asked for, five seconds if nothing was
/// and thirty at most; then it is killed. Whoever asked is told how it ended: as it was seen to
/// end, and as killed if nothing was seen.
pub proof fn law_stopping_escalates(
    stopped: &mut PersistentProcessRegistry,
    id: &str,
    principal: &str,
    capsule_id: &str,
    grace: Option<u64>,
    now: u64,
    plan: Result<StopPlan, ErrorCode>,
    record: ExitRecord,
    first: StopAction,
    obeyed: StopAction,
    second: StopAction,
    killed: StopAction,
    unseen: StopAction,
)
    requires
        old(stopped)@.valid(),
        old(stopped)@.grants(id@, principal@, capsule_id@),
        old(stopped)@.process(id@).phase is Running,
        call_ensures(
            PersistentProcessRegistry::stop,
            (stopped, id, principal, capsule_id, grace, now),
            plan,
        ),
        plan is Ok ==> {
            let plan = &plan->Ok_0;
            let late = Some(WaitOutcome::TimedOut);
            let seen = Some(WaitOutcome::Exited(record));
            let none = None::<WaitOutcome>;
            &&& call_ensures(PersistentProcessRegistry::stop_next, (plan, none, none), first)
            &&& call_ensures(PersistentProcessRegistry::stop_next, (plan, seen, none), obeyed)
            &&& call_ensures(PersistentProcessRegistry::stop_next, (plan, late, none), second)
            &&& call_ensures(PersistentProcessRegistry::stop_next, (plan, late, seen), killed)
            &&& call_ensures(PersistentProcessRegistry::stop_next, (plan, late, late), unseen)
        },
    ensures
        ({
            let pid = old(stopped)@.process(id@).os_pid;
            &&& plan is Ok
            &&& first is Terminate && first->Terminate_0 == pid
            &&& grace is None ==> first->Terminate_1 == 5000
            &&& grace is Some && grace->Some_0 <= 30000 ==> first->Terminate_1 == grace->Some_0
            &&& grace is Some && grace->Some_0 > 30000 ==> first->Terminate_1 == 30000
            &&& second == StopAction::Kill(pid, 30000)
            &&& obeyed is Finish && killed is Finish && unseen is Finish
            &&& obeyed->Finish_0.exit_code == record.exit_code
            &&& obeyed->Finish_0.signal == record.signal
            &&& killed->Finish_0.exit_code == record.exit_code
            &&& killed->Finish_0.signal == record.signal
            &&& unseen->Finish_0.exit_code is None
            &&& unseen->Finish_0.signal == Some(9i32)
        }),
{
    assert(old(stopped)@.process(id@).valid());
}

/// A process that exited before it was asked to stop is not signalled: its exit is told as it was
/// recorded.
pub proof fn law_stopping_the_exited(
    exited: &mut PersistentProcessRegistry,
    stopped: &mut PersistentProcessRegistry,
    key: &str,
    record: ExitRecord,
    exit: u64,
    id: &str,
    principal: &str,
    capsule_id: &str,
    grace: Option<u64>,
    now: u64,
    plan: Result<StopPlan, ErrorCode>,
    first: StopAction,
)
    requires
        old(exited)@.grants(id@, principal@, capsule_id@),
        key@ == old(exited)@.slot(id@),
        call_ensures(PersistentProcessRegistry::record_exit, (exited, key, record, exit), ()),
        *old(stopped) == *final(exited),
        call_ensures(
            PersistentProcessRegistry::stop,
            (stopped, id, principal, capsule_id, grace, now),
            plan,
        ),
        plan is Ok ==> call_ensures(
            PersistentProcessRegistry::stop_next,
            (&plan->Ok_0, None::<WaitOutcome>, None::<WaitOutcome>),
            first,
        ),
    ensures
        plan is Ok,
        first is Finish,
        first->Finish_0.exit_code == record.exit_code,
        first->Finish_0.signal == record.signal,
{
}

/// What was stopped or released is gone: its id names nothing, and what is left of it is handed
/// out to be ended. A process that still runs cannot be released.
pub proof fn law_what_is_released_is_gone(
    released: &mut PersistentProcessRegistry,
    finished: &mut PersistentProcessRegistry,
    key: &str,
    id: &str,
    principal: &str,
    capsule_id: &str,
    now: u64,
    gone: Result<Option<Reaped>, ErrorCode>,
    ended: Option<Reaped>,
    after_release: Result<ProcessInfo, ErrorCode>,
    after_stop: Result<ProcessInfo, ErrorCode>,
)
    requires
        old(released)@.grants(id@, principal@, capsule_id@),
        key@ == old(released)@.slot(id@),
        call_ensures(
            PersistentProcessRegistry::release,
            (released, id, principal, capsule_id),
            gone,
        ),
        call_ensures(
            PersistentProcessRegistry::status,
            (&*final(released), id, principal, capsule_id, now),
            after_release,
        ),
        *old(finished) == *old(released),
        call_ensures(PersistentProcessRegistry::finish_stop, (finished, key), ended),
        call_ensures(
            PersistentProcessRegistry::status,
            (&*final(finished), id, principal, capsule_id, now),
            after_stop,
        ),
    ensures
        old(released)@.process(id@).phase is Running ==> gone == Err::<Option<Reaped>, ErrorCode>(
            ErrorCode::InvalidInput,
        ) && after_release is Ok,
        old(released)@.process(id@).phase is Exited ==> {
            &&& gone is Ok && gone->Ok_0 is Some
            &&& gone->Ok_0->Some_0.os_pid == old(released)@.process(id@).os_pid
            &&& after_release == Err::<ProcessInfo, ErrorCode>(ErrorCode::NoSuchProcess)
        },
        ended is Some,
        ended->Some_0.os_pid == old(released)@.process(id@).os_pid,
        after_stop == Err::<ProcessInfo, ErrorCode>(ErrorCode::NoSuchProcess),
{
}

/// A shutdown forgets every process and hands each out to be ended.
pub proof fn law_shutdown_leaves_nothing(
    registry: &mut PersistentProcessRegistry,
    reaped: Vec<Reaped>,
    slot: Seq<char>,
    id: &str,
    principal: &str,
    capsule_id: &str,
)
    requires
        call_ensures(PersistentProcessRegistry::shutdown, (registry,), reaped),
    ensures
        !final(registry)@.grants(id@, principal@, capsule_id@),
        old(registry)@.entries.contains_key(slot) ==> exists|i: int|
            {
                &&& 0 <= i < reaped@.len()
                &&& (#[trigger] reaped@[i]).key@ == slot
                &&& reaped@[i].os_pid == old(registry)@.entries[slot].os_pid
            },
{
}

/// A sweep hands out those processes that it forgets, each with the number of its own.
pub proof fn law_swept_are_handed_out(
    registry: &mut PersistentProcessRegistry,
    now: u64,
    reaped: Vec<Reaped>,
    slot: Seq<char>,
)
    requires
        call_ensures(PersistentProcessRegistry::reap_sweep, (registry, now), reaped),
        old(registry)@.entries.contains_key(slot),
    ensures
        !final(registry)@.entries.contains_key(slot) <==> exists|i: int|
            {
                &&& 0 <= i < reaped@.len()
                &&& (#[trigger] reaped@[i]).key@ == slot
                &&& reaped@[i].os_pid == old(registry)@.entries[slot].os_pid
            },
        final(registry)@.entries.contains_key(slot) ==> final(registry)@.entries[slot] == old(registry)@.entries[slot],
{
    let before = old(registry)@;
    let due = Set::new(
        |slot: Seq<char>| before.entries.contains_key(slot) && before.entries[slot].is_due(now),
    );
    assert(gives_out(reaped@, before, due));
    assert(due.contains(slot) == before.entries[slot].is_due(now));
}

/// No more than two hundred and fifty-six processes are kept, no more than thirty-two of one
/// principal, and no more of one principal run than the cap allows; a start that would go over is
/// refused, and one that would not is not.
pub proof fn law_starts_are_capped(
    registry: &PersistentProcessRegistry,
    principal: &str,
    cap: usize,
    r: Result<(), ErrorCode>,
)
    requires
        call_ensures(PersistentProcessRegistry::may_start, (registry, principal, cap), r),
    ensures
        registry@.entries.dom().len() >= 256 || registry@.retained_slots(principal@).len() >= 32
            ==> r == Err::<(), ErrorCode>(ErrorCode::RegistryFull),
        registry@.entries.dom().len() < 256 && registry@.retained_slots(principal@).len() < 32
            && registry@.live_slots(principal@).len() >= cap ==> r == Err::<(), ErrorCode>(
            ErrorCode::Quota,
        ),
        registry@.entries.dom().len() < 256 && registry@.retained_slots(principal@).len() < 32
            && registry@.live_slots(principal@).len() < cap ==> r is Ok,
{
}

/// The states of several processes come in the order in which they were asked for, and each is the
/// state that it has by itself; those that are not the caller's are left out.
pub proof fn law_many_states_are_single_states(
    registry: &PersistentProcessRegistry,
    ids: &Vec<String>,
    principal: &str,
    capsule_id: &str,
    now: u64,
    infos: Vec<ProcessInfo>,
    k: int,
)
    requires
        registry@.valid(),
        call_ensures(
            PersistentProcessRegistry::status_many,
            (registry, ids, principal, capsule_id, now),
            infos,
        ),
        0 <= k < ids@.len(),
    ensures
        (forall|i: int|
            0 <= i < ids@.len() ==> registry@.grants((#[trigger] ids@[i])@, principal@, capsule_id@))
            ==> infos@.len() == ids@.len() && infos@[k].label@ == registry@.process(ids@[k]@).label
            && infos@[k].age_ms == (if now >= registry@.process(ids@[k]@).spawned_at {
            now - registry@.process(ids@[k]@).spawned_at
        } else {
            0
        }),
        (forall|i: int|
            0 <= i < ids@.len() ==> !registry@.grants(
                (#[trigger] ids@[i])@,
                principal@,
                capsule_id@,
            )) ==> infos@.len() == 0,
        infos@.len() <= ids@.len(),
{
    lemma_granted(registry, ids@, principal@, capsule_id@);
}

/// The ids that are granted are all of them where all are granted, and none where none is.
proof fn lemma_granted(
    registry: &PersistentProcessRegistry,
    ids: Seq<String>,
    principal: Seq<char>,
    capsule_id: Seq<char>,
)
    ensures
        granted_ids(registry@, ids, principal, capsule_id).len() <= ids.len(),
        (forall|i: int|
            0 <= i < ids.len() ==> registry@.grants((#[trigger] ids[i])@, principal, capsule_id))
            ==> granted_ids(registry@, ids, principal, capsule_id) == Seq::new(
            ids.len(),
            |i: int| ids[i]@,
        ),
        (forall|i: int|
            0 <= i < ids.len() ==> !registry@.grants((#[trigger] ids[i])@, principal, capsule_id))
            ==> granted_ids(registry@, ids, principal, capsule_id).len() == 0,
    decreases ids.len(),
{
    if ids.len() > 0 {
        lemma_granted(registry, ids.drop_last(), principal, capsule_id);
        assert forall|i: int| 0 <= i < ids.drop_last().len() implies (
        #[trigger] ids.drop_last()[i]) == ids[i] by {}
        assert(Seq::new(ids.drop_last().len(), |i: int| ids.drop_last()[i]@).push(ids.last()@)
            =~= Seq::new(ids.len(), |i: int| ids[i]@));
        assert((forall|i: int|
            0 <= i < ids.len() ==> registry@.grants((#[trigger] ids[i])@, principal, capsule_id))
            ==> (forall|i: int|
            0 <= i < ids.drop_last().len() ==> registry@.grants(
                (#[trigger] ids.drop_last()[i])@,
                principal,
                capsule_id,
            )));
        assert(registry@.grants(ids.last()@, principal, capsule_id) == registry@.grants(
            ids[ids.len() - 1]@,
            principal,
            capsule_id,
        ));
    } else {
        assert(Seq::new(ids.len(), |i: int| ids[i]@) =~= Seq::<Seq<char>>::empty());
    }
}

/// Whatever a caller does to a process of theirs touches it, also where there is nothing to be done,
/// and does not make it any younger; it leaves every other process as it is.
pub proof fn law_handling_touches_one_process(
    read: &mut PersistentProcessRegistry,
    polled: &mut PersistentProcessRegistry,
    signalled: &mut PersistentProcessRegistry,
    written: &mut PersistentProcessRegistry,
    closed: &mut PersistentProcessRegistry,
    stopped: &mut PersistentProcessRegistry,
    id: &str,
    principal: &str,
    capsule_id: &str,
    which: LogStream,
    cursor: &LogCursor,
    max: u32,
    len: usize,
    grace: Option<u64>,
    now: u64,
    a: Result<ReadLogsResult, ErrorCode>,
    b: Result<LogChunk, ErrorCode>,
    c: Result<Option<u32>, ErrorCode>,
    d: Result<String, ErrorCode>,
    e: Result<(), ErrorCode>,
    f: Result<StopPlan, ErrorCode>,
    other: Seq<char>,
)
    requires
        old(read)@.grants(id@, principal@, capsule_id@),
        *old(polled) == *old(read) && *old(signalled) == *old(read) && *old(written) == *old(read)
            && *old(closed) == *old(read) && *old(stopped) == *old(read),
        call_ensures(
            PersistentProcessRegistry::read_logs,
            (read, id, principal, capsule_id, now),
            a,
        ),
        call_ensures(
            PersistentProcessRegistry::read_since,
            (polled, id, principal, capsule_id, which, cursor, max, now),
            b,
        ),
        call_ensures(
            PersistentProcessRegistry::signal,
            (signalled, id, principal, capsule_id, now),
            c,
        ),
        len <= 1024 * 1024,
        call_ensures(
            PersistentProcessRegistry::begin_write,
            (written, id, principal, capsule_id, len, now),
            d,
        ),
        call_ensures(
            PersistentProcessRegistry::close_stdin,
            (closed, id, principal, capsule_id, now),
            e,
        ),
        call_ensures(
            PersistentProcessRegistry::stop,
            (stopped, id, principal, capsule_id, grace, now),
            f,
        ),
        other != old(read)@.slot(id@),
        old(read)@.entries.contains_key(other),
    ensures
        handled(old(read)@, final(read)@, id@, now, other),
        handled(old(read)@, final(polled)@, id@, now, other),
        handled(old(read)@, final(signalled)@, id@, now, other),
        handled(old(read)@, final(written)@, id@, now, other),
        handled(old(read)@, final(closed)@, id@, now, other),
        handled(old(read)@, final(stopped)@, id@, now, other),
        final(polled)@.process(id@).stdout == old(read)@.process(id@).stdout,
        final(signalled)@.process(id@).stdin_open == old(read)@.process(id@).stdin_open,
        final(written)@.process(id@).stdin_open == old(read)@.process(id@).stdin_open,
        final(stopped)@.process(id@).stdout == old(read)@.process(id@).stdout,
        final(closed)@.process(id@).stdout == old(read)@.process(id@).stdout,
{
}

/// Between two moments a process was touched at `now`, stayed what it is, and the process at `other`
/// stayed as it was.
pub open spec fn handled(
    before: RegistryView,
    after: RegistryView,
    id: Seq<char>,
    now: u64,
    other: Seq<char>,
) -> bool {
    let slot = before.slot(id);
    &&& after.entries.contains_key(slot)
    &&& after.entries[slot].last_touch == now
    &&& after.entries[slot].spawned_at == before.entries[slot].spawned_at
    &&& after.entries[slot].phase == before.entries[slot].phase
    &&& after.entries[slot].exit == before.entries[slot].exit
    &&& after.entries[slot].creator == before.entries[slot].creator
    &&& after.entries[slot].capsule_id == before.entries[slot].capsule_id
    &&& after.entries[slot].label == before.entries[slot].label
    &&& after.entries[slot].os_pid == before.entries[slot].os_pid
    &&& after.entries.contains_key(other) && after.entries[other] == before.entries[other]
}

/// What a process wrote before it exited is read after it; what comes out of it and how it ends
/// changes nothing of when it was touched, and nothing of any other process.
pub proof fn law_output_survives_the_exit(
    fed: &mut PersistentProcessRegistry,
    exited: &mut PersistentProcessRegistry,
    read: &mut PersistentProcessRegistry,
    key: &str,
    which: LogStream,
    chunk: &[u8],
    accepted: Option<bool>,
    record: ExitRecord,
    exit: u64,
    id: &str,
    principal: &str,
    capsule_id: &str,
    now: u64,
    logs: Result<ReadLogsResult, ErrorCode>,
    other: Seq<char>,
)
    requires
        old(fed)@.grants(id@, principal@, capsule_id@),
        key@ == old(fed)@.slot(id@),
        call_ensures(PersistentProcessRegistry::feed, (fed, key, which, chunk), accepted),
        *old(exited) == *final(fed),
        call_ensures(PersistentProcessRegistry::record_exit, (exited, key, record, exit), ()),
        *old(read) == *final(exited),
        call_ensures(
            PersistentProcessRegistry::read_logs,
            (read, id, principal, capsule_id, now),
            logs,
        ),
        other != key@,
        old(fed)@.entries.contains_key(other),
    ensures
        logs is Ok,
        logs->Ok_0.stdout@ == lossy_text(final(fed)@.process(id@).stdout.bytes),
        logs->Ok_0.stderr@ == lossy_text(final(fed)@.process(id@).stderr.bytes),
        final(fed)@.process(id@).last_touch == old(fed)@.process(id@).last_touch,
        final(exited)@.process(id@).last_touch == old(fed)@.process(id@).last_touch,
        final(exited)@.process(id@).exited_at == Some(exit),
        final(exited)@.process(id@).spawned_at == old(fed)@.process(id@).spawned_at,
        final(exited)@.entries.contains_key(other) && final(exited)@.entries[other] == old(fed)@.entries[other],
{
}

/// What does not fit into a ring that presses back is refused whole and changes nothing; a ring that
/// drops takes everything and counts what it dropped.
pub proof fn law_full_rings(
    fed: &mut PersistentProcessRegistry,
    key: &str,
    which: LogStream,
    chunk: &[u8],
    accepted: Option<bool>,
)
    requires
        old(fed)@.entries.contains_key(key@),
        call_ensures(PersistentProcessRegistry::feed, (fed, key, which, chunk), accepted),
        old(fed)@.entries[key@].ring(which).bytes.len() + chunk@.len() > old(fed)@.entries[key@].ring(which).cap,
    ensures
        ({
            let before = old(fed)@.entries[key@].ring(which);
            let after = final(fed)@.entries[key@].ring(which);
            let lost = before.bytes.len() + chunk@.len() - before.cap;
            &&& before.overflow is Backpressure ==> accepted == Some(false) && after == before
            &&& before.overflow is DropOldest ==> {
                &&& accepted == Some(true)
                &&& after.bytes.len() == before.cap
                &&& after.bytes == (before.bytes + chunk@).skip(lost)
                &&& after.front == before.front + lost
                &&& after.dropped == before.dropped + lost
            }
        }),
{
}

/// What happens to an id that is not kept any more happens to nobody.
pub proof fn law_late_events_change_nothing(
    fed: &mut PersistentProcessRegistry,
    exited: &mut PersistentProcessRegistry,
    finished: &mut PersistentProcessRegistry,
    gone: &mut PersistentProcessRegistry,
    key: &str,
    which: LogStream,
    chunk: &[u8],
    record: ExitRecord,
    exit: u64,
    count: u32,
    written: bool,
    accepted: Option<bool>,
    told: Result<u32, ErrorCode>,
    reaped: Option<Reaped>,
)
    requires
        !old(fed)@.entries.contains_key(key@),
        *old(exited) == *old(fed) && *old(finished) == *old(fed) && *old(gone) == *old(fed),
        call_ensures(PersistentProcessRegistry::feed, (fed, key, which, chunk), accepted),
        call_ensures(PersistentProcessRegistry::record_exit, (exited, key, record, exit), ()),
        call_ensures(
            PersistentProcessRegistry::finish_write,
            (finished, key, count, written),
            told,
        ),
        call_ensures(PersistentProcessRegistry::finish_stop, (gone, key), reaped),
    ensures
        accepted is None,
        reaped is None,
        final(fed)@ == old(fed)@,
        final(exited)@ == old(fed)@,
        final(finished)@ == old(fed)@,
        final(gone)@.entries == old(fed)@.entries,
{
    assert(final(gone)@.entries =~= old(fed)@.entries);
}

/// A process whose input is open and free is written to; a cursor that is one is read from, and
/// one that is none finds nothing.
pub proof fn law_open_input_is_written_to(
    written: &mut PersistentProcessRegistry,
    read: &mut PersistentProcessRegistry,
    id: &str,
    principal: &str,
    capsule_id: &str,
    len: usize,
    which: LogStream,
    cursor: &LogCursor,
    at: Result<Option<u64>, ErrorCode>,
    max: u32,
    now: u64,
    key: Result<String, ErrorCode>,
    chunk: Result<LogChunk, ErrorCode>,
)
    requires
        old(written)@.grants(id@, principal@, capsule_id@),
        len <= 1024 * 1024,
        call_ensures(
            PersistentProcessRegistry::begin_write,
            (written, id, principal, capsule_id, len, now),
            key,
        ),
        *old(read) == *old(written),
        call_ensures(decode_cursor, (cursor,), at),
        call_ensures(
            PersistentProcessRegistry::read_since,
            (read, id, principal, capsule_id, which, cursor, max, now),
            chunk,
        ),
    ensures
        old(written)@.process(id@).stdin_held ==> key is Ok && key->Ok_0@ == old(written)@.slot(id@),
        !old(written)@.process(id@).stdin_held ==> key == Err::<String, ErrorCode>(
            ErrorCode::Closed,
        ),
        at is Ok <==> chunk is Ok,
        at is Err ==> chunk == Err::<LogChunk, ErrorCode>(ErrorCode::NoSuchProcess),
{
}

/// A reader that comes too late is told how much it missed and reads from what is left; one that
/// asks for little reads that much and no more.
pub proof fn law_late_readers(
    read: &mut PersistentProcessRegistry,
    id: &str,
    principal: &str,
    capsule_id: &str,
    which: LogStream,
    cursor: &LogCursor,
    at: u64,
    max: u32,
    now: u64,
    chunk: Result<LogChunk, ErrorCode>,
    next: Result<Option<u64>, ErrorCode>,
)
    requires
        old(read)@.valid(),
        old(read)@.grants(id@, principal@, capsule_id@),
        call_ensures(decode_cursor, (cursor,), Ok::<Option<u64>, ErrorCode>(Some(at))),
        max <= 4 * 1024 * 1024,
        call_ensures(
            PersistentProcessRegistry::read_since,
            (read, id, principal, capsule_id, which, cursor, max, now),
            chunk,
        ),
        chunk is Ok ==> call_ensures(decode_cursor, (&chunk->Ok_0.next,), next),
    ensures
        ({
            let ring = old(read)@.process(id@).ring(which);
            let end = ring.front + ring.bytes.len();
            &&& chunk is Ok
            &&& at < ring.front ==> chunk->Ok_0.bytes_dropped == ring.front - at
            &&& at >= ring.front ==> chunk->Ok_0.bytes_dropped == 0
            &&& chunk->Ok_0.data@.len() <= max
            &&& at < ring.front && ring.bytes.len() <= max ==> chunk->Ok_0.data@ == ring.bytes
            &&& ring.front <= at <= end && end - at <= max ==> chunk->Ok_0.data@ == ring.bytes.skip(
                at - ring.front,
            ) && next == Ok::<Option<u64>, ErrorCode>(Some(end as u64))
            &&& ring.front <= at <= end && end - at > max ==> chunk->Ok_0.data@
                == ring.bytes.subrange(at - ring.front, at - ring.front + max) && next == Ok::<
                Option<u64>,
                ErrorCode,
            >(Some((at + max) as u64)) && !chunk->Ok_0.drained_eof
            &&& at > end ==> chunk->Ok_0.data@.len() == 0
        }),
{
    let entry = old(read)@.process(id@);
    assert(entry.valid());
    let ring = entry.ring(which);
    let to = ring.stop(Some(at), max as int);
    law_cursor_round_trip(to as u64);
    let end = ring.front + ring.bytes.len();
    if ring.front <= at <= end && end - at <= max {
        assert(ring.between(at as int, end) =~= ring.bytes.skip(at - ring.front));
    }
    if at < ring.front && ring.bytes.len() <= max {
        assert(ring.between(ring.front, end) =~= ring.bytes);
    }
}

/// Logs and signals are for the owner; what is released is named by its own key and process id, and
/// a registry that was shut down keeps its key.
pub proof fn law_owners_alone(
    read: &mut PersistentProcessRegistry,
    signalled: &mut PersistentProcessRegistry,
    released: &mut PersistentProcessRegistry,
    shut: &mut PersistentProcessRegistry,
    id: &str,
    principal: &str,
    capsule_id: &str,
    now: u64,
    logs: Result<ReadLogsResult, ErrorCode>,
    target: Result<Option<u32>, ErrorCode>,
    gone: Result<Option<Reaped>, ErrorCode>,
    all: Vec<Reaped>,
)
    requires
        call_ensures(
            PersistentProcessRegistry::read_logs,
            (read, id, principal, capsule_id, now),
            logs,
        ),
        call_ensures(
            PersistentProcessRegistry::signal,
            (signalled, id, principal, capsule_id, now),
            target,
        ),
        call_ensures(
            PersistentProcessRegistry::release,
            (released, id, principal, capsule_id),
            gone,
        ),
        call_ensures(PersistentProcessRegistry::shutdown, (shut,), all),
    ensures
        logs is Ok <==> old(read)@.grants(id@, principal@, capsule_id@),
        target is Ok <==> old(signalled)@.grants(id@, principal@, capsule_id@),
        logs is Err ==> final(read)@ == old(read)@ && logs->Err_0 is NoSuchProcess,
        target is Err ==> final(signalled)@ == old(signalled)@ && target->Err_0 is NoSuchProcess,
        gone is Ok && gone->Ok_0 is Some ==> {
            &&& gone->Ok_0->Some_0.key@ == old(released)@.slot(id@)
            &&& gone->Ok_0->Some_0.os_pid == old(released)@.process(id@).os_pid
            &&& !final(released)@.grants(id@, principal@, capsule_id@)
        },
        final(shut)@.key == old(shut)@.key && final(shut)@.drawn == old(shut)@.drawn,
        !final(shut)@.grants(id@, principal@, capsule_id@),
{
}

} // verus!
