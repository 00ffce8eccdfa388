//! What callers of the registry can rely on from one call to the next.

use vstd::prelude::*;

use crate::names::listing;
use crate::process::lasting::{are_params, spawn_persistent, LastingAnswers, Starter};
use crate::process::persistent::config::{lemma_printable_fixed, lemma_utf8_monotone, longest_fit};
use crate::process::persistent::entry::{describes, EntryView, ExitRecord, Phase};
use crate::process::persistent::registry::{
    listed_slots, PersistentProcessRegistry, Reaped, RegistryView, SpawnParams, StopAction,
    StopPlan, WaitOutcome, WaitStep,
};
use crate::process::start::SpawnStep;
use crate::process::types::{
    ErrorCode, ExitInfo, LogStream, OverflowPolicy, ProcessInfo, ProcessPhase, ReadLogsResult,
    SpawnRequest,
};
use crate::text::{joined, lemma_utf8_len, lossy_text, occurs_at, opt_view, views};
use vstd::utf8::encode_utf8;

verus! {

/// Whoever waits for a process that exited, or asks for its state or its output, is told the exit
/// code and the signal that were recorded, and that it runs no more.
pub proof fn law_exit_is_told_as_recorded(
    recorded: &mut PersistentProcessRegistry,
    waited: &mut PersistentProcessRegistry,
    read: &mut PersistentProcessRegistry,
    key: &str,
    record: ExitRecord,
    exit: u64,
    id: &str,
    principal: &str,
    capsule_id: &str,
    now: u64,
    step: Result<WaitStep, ErrorCode>,
    info: Result<ProcessInfo, ErrorCode>,
    logs: Result<ReadLogsResult, ErrorCode>,
)
    requires
        old(recorded)@.grants(id@, principal@, capsule_id@),
        key@ == old(recorded)@.slot(id@),
        call_ensures(PersistentProcessRegistry::record_exit, (recorded, key, record, exit), ()),
        *old(waited) == *final(recorded),
        call_ensures(
            PersistentProcessRegistry::wait,
            (waited, id, principal, capsule_id, now),
            step,
        ),
        call_ensures(
            PersistentProcessRegistry::status,
            (&*final(recorded), id, principal, capsule_id, now),
            info,
        ),
        *old(read) == *final(recorded),
        call_ensures(
            PersistentProcessRegistry::read_logs,
            (read, id, principal, capsule_id, now),
            logs,
        ),
    ensures
        step is Ok && step->Ok_0 is Ready,
        step->Ok_0->Ready_0.exit_code == record.exit_code,
        step->Ok_0->Ready_0.signal == record.signal,
        info is Ok && info->Ok_0.exit is Some,
        info->Ok_0.exit->Some_0.exit_code == record.exit_code,
        info->Ok_0.exit->Some_0.signal == record.signal,
        info->Ok_0.phase == ProcessPhase::Exited,
        info->Ok_0.os_pid is None,
        !info->Ok_0.stdin_open,
        logs is Ok && logs->Ok_0.exit is Some,
        logs->Ok_0.exit->Some_0.exit_code == record.exit_code,
        logs->Ok_0.exit->Some_0.signal == record.signal,
        !logs->Ok_0.running,
{
}

/// Of a process that runs, nobody is told an exit: waiting goes on, and its state names the
/// process.
pub proof fn law_running_process_has_no_exit(
    waited: &mut PersistentProcessRegistry,
    id: &str,
    principal: &str,
    capsule_id: &str,
    now: u64,
    step: Result<WaitStep, ErrorCode>,
    info: Result<ProcessInfo, ErrorCode>,
)
    requires
        old(waited)@.valid(),
        old(waited)@.grants(id@, principal@, capsule_id@),
        old(waited)@.process(id@).phase is Running,
        call_ensures(
            PersistentProcessRegistry::wait,
            (waited, id, principal, capsule_id, now),
            step,
        ),
        call_ensures(
            PersistentProcessRegistry::status,
            (&*old(waited), id, principal, capsule_id, now),
            info,
        ),
    ensures
        step == Ok::<WaitStep, ErrorCode>(WaitStep::Await),
        info is Ok,
        info->Ok_0.exit is None,
        info->Ok_0.phase == ProcessPhase::Running,
        info->Ok_0.os_pid == Some(old(waited)@.process(id@).os_pid),
{
    assert(old(waited)@.process(id@).valid());
}

/// The exit that was waited for is the exit that was reported: the code and the signal are both
/// passed on.
pub proof fn law_waited_exit_is_passed_on(
    record: ExitRecord,
    waited: Result<ExitInfo, ErrorCode>,
    late: Result<ExitInfo, ErrorCode>,
    info: ExitInfo,
)
    requires
        call_ensures(ExitRecord::to_info, (record,), info),
        call_ensures(
            PersistentProcessRegistry::wait_result,
            (WaitOutcome::Exited(record),),
            waited,
        ),
        call_ensures(PersistentProcessRegistry::wait_result, (WaitOutcome::TimedOut,), late),
    ensures
        info.exit_code == record.exit_code,
        info.signal == record.signal,
        waited is Ok,
        waited->Ok_0.exit_code == record.exit_code,
        waited->Ok_0.signal == record.signal,
        late == Err::<ExitInfo, ErrorCode>(ErrorCode::WaitTimeout),
{
}

/// A process of the caller is listed under every filter that stands somewhere in its label, and
/// without a filter; one in whose label the filter stands nowhere is not.
pub proof fn law_filter_is_a_part_of_the_label(
    registry: &PersistentProcessRegistry,
    principal: &str,
    capsule_id: &str,
    filter: &str,
    now: u64,
    some: Vec<ProcessInfo>,
    all: Vec<ProcessInfo>,
    slot: Seq<char>,
    a: Seq<char>,
    b: Seq<char>,
)
    requires
        registry@.valid(),
        call_ensures(
            PersistentProcessRegistry::list,
            (registry, principal, capsule_id, Some(filter), now),
            some,
        ),
        call_ensures(
            PersistentProcessRegistry::list,
            (registry, principal, capsule_id, None::<&str>, now),
            all,
        ),
        registry@.entries.contains_key(slot),
        registry@.entries[slot].creator == principal@,
        registry@.entries[slot].capsule_id == capsule_id@,
        registry@.entries[slot].label == a + filter@ + b,
    ensures
        exists|i: int| 0 <= i < all@.len() && (#[trigger] all@[i]).id@ == registry@.entries[slot].id,
        exists|i: int|
            0 <= i < some@.len() && (#[trigger] some@[i]).id@ == registry@.entries[slot].id,
{
    let label = registry@.entries[slot].label;
    assert(label.subrange(a.len() as int, a.len() as int + filter@.len()) =~= filter@);
    assert(occurs_at(label, filter@, a.len() as int));
    lemma_is_listed(registry, principal, capsule_id, Some(filter), now, some, slot);
    lemma_is_listed(registry, principal, capsule_id, None, now, all, slot);
}

/// Whatever is listed under a filter belongs to the caller, has the filter somewhere in its label,
/// and is listed once.
pub proof fn law_listed_labels_hold_the_filter(
    registry: &PersistentProcessRegistry,
    principal: &str,
    capsule_id: &str,
    filter: &str,
    now: u64,
    some: Vec<ProcessInfo>,
    i: int,
)
    requires
        registry@.valid(),
        call_ensures(
            PersistentProcessRegistry::list,
            (registry, principal, capsule_id, Some(filter), now),
            some,
        ),
        0 <= i < some@.len(),
    ensures
        exists|a: Seq<char>, b: Seq<char>| some@[i].label@ == #[trigger] (a + filter@ + b),
        exists|slot: Seq<char>|
            {
                &&& #[trigger] registry@.entries.contains_key(slot)
                &&& registry@.entries[slot].creator == principal@
                &&& registry@.entries[slot].capsule_id == capsule_id@
                &&& registry@.entries[slot].id == some@[i].id@
            },
        forall|j: int| 0 <= j < some@.len() && j != i ==> (#[trigger] some@[j]).id@ != some@[i].id@,
{
    let wanted = listed_slots(registry@, principal@, capsule_id@, opt_view(Some(filter)));
    let slots = choose|slots: Seq<Seq<char>>|
        {
            &&& #[trigger] listing(slots, wanted)
            &&& some@.len() == slots.len()
            &&& forall|k: int|
                0 <= k < some@.len() ==> describes(
                    #[trigger] some@[k],
                    registry@.entries[slots[k]],
                    now,
                )
        };
    let slot = slots[i];
    assert(describes(some@[i], registry@.entries[slot], now));
    assert(wanted.contains(slot));
    let label = registry@.entries[slot].label;
    let at = choose|at: int| occurs_at(label, filter@, at);
    let a = label.take(at);
    let b = label.skip(at + filter@.len());
    assert(a + filter@ + b =~= label);
    assert forall|j: int| 0 <= j < some@.len() && j != i implies (#[trigger] some@[j]).id@
        != some@[i].id@ by {
        assert(describes(some@[j], registry@.entries[slots[j]], now));
        assert(wanted.contains(slots[j]));
        assert(registry@.slot(registry@.entries[slots[j]].id) == slots[j]);
        assert(registry@.slot(registry@.entries[slot].id) == slot);
    }
}

/// The empty filter shows every process of the caller, as no filter does.
pub proof fn law_empty_filter_shows_all(
    registry: &PersistentProcessRegistry,
    principal: &str,
    capsule_id: &str,
    now: u64,
    some: Vec<ProcessInfo>,
    slot: Seq<char>,
)
    requires
        registry@.valid(),
        call_ensures(
            PersistentProcessRegistry::list,
            (registry, principal, capsule_id, Some(""), now),
            some,
        ),
        registry@.entries.contains_key(slot),
        registry@.entries[slot].creator == principal@,
        registry@.entries[slot].capsule_id == capsule_id@,
    ensures
        exists|i: int|
            0 <= i < some@.len() && (#[trigger] some@[i]).id@ == registry@.entries[slot].id,
{
    reveal_strlit("");
    let label = registry@.entries[slot].label;
    assert(label.subrange(0, 0) =~= ""@);
    assert(occurs_at(label, ""@, 0));
    lemma_is_listed(registry, principal, capsule_id, Some(""), now, some, slot);
}

/// A process that is wanted is among those that are listed.
proof fn lemma_is_listed(
    registry: &PersistentProcessRegistry,
    principal: &str,
    capsule_id: &str,
    filter: Option<&str>,
    now: u64,
    infos: Vec<ProcessInfo>,
    slot: Seq<char>,
)
    requires
        call_ensures(
            PersistentProcessRegistry::list,
            (registry, principal, capsule_id, filter, now),
            infos,
        ),
        listed_slots(registry@, principal@, capsule_id@, opt_view(filter)).contains(slot),
    ensures
        exists|i: int|
            0 <= i < infos@.len() && (#[trigger] infos@[i]).id@ == registry@.entries[slot].id,
{
    let wanted = listed_slots(registry@, principal@, capsule_id@, opt_view(filter));
    let slots = choose|slots: Seq<Seq<char>>|
        {
            &&& #[trigger] listing(slots, wanted)
            &&& infos@.len() == slots.len()
            &&& forall|k: int|
                0 <= k < infos@.len() ==> describes(
                    #[trigger] infos@[k],
                    registry@.entries[slots[k]],
                    now,
                )
        };
    assert(slots.contains(slot));
    let i = choose|i: int| 0 <= i < slots.len() && slots[i] == slot;
    assert(describes(infos@[i], registry@.entries[slots[i]], now));
}

/// A process that was started to outlive its instance is what was asked for: it belongs to the
/// caller and to the capsule, it bears the label that was asked for as far as a label goes, its
/// rings have the capacity that was asked for and overflow as was asked for, and its input stays
/// open only if that was asked for.
pub proof fn law_started_as_requested(
    registry: &mut PersistentProcessRegistry,
    request: &SpawnRequest,
    answers: &LastingAnswers,
    starter: &Starter,
    start: u64,
    r: (SpawnStep, Option<String>),
)
    requires
        call_ensures(spawn_persistent, (request, answers, starter, registry, start), r),
        r.1 is Some,
    ensures
        ({
            let view = final(registry)@;
            let entry = view.process(r.1->Some_0@);
            &&& starter.principal is Some
            &&& view.grants(r.1->Some_0@, starter.principal->Some_0@, starter.capsule_id@)
            &&& entry.id == r.1->Some_0@
            &&& entry.phase is Running
            &&& entry.exit is None
            &&& answers.preparation.owned is Some
            &&& answers.preparation.owned->Some_0 is Ok
            &&& entry.os_pid == answers.preparation.owned->Some_0->Ok_0.pid
            &&& (request.cmd@ + " "@).is_prefix_of(entry.command)
            &&& request.args@.len() == 1 ==> entry.command == request.cmd@ + " "@
                + request.args@[0]@
            &&& entry.spawned_at == start
            &&& entry.last_touch == start
            &&& entry.stdin_open ==> request.keep_stdin_open == Some(true)
            &&& entry.stdin_held == entry.stdin_open
            &&& entry.stdout.bytes.len() == 0 && entry.stderr.bytes.len() == 0
            &&& entry.stdout.cap == entry.stderr.cap
            &&& request.log_ring_bytes is None ==> entry.stdout.cap == 1024 * 1024
            &&& request.log_ring_bytes is Some ==> {
                let asked = request.log_ring_bytes->Some_0;
                &&& 4096 <= asked <= 8 * 1024 * 1024 ==> entry.stdout.cap == asked
                &&& asked < 4096 ==> entry.stdout.cap == 4096
                &&& asked > 8 * 1024 * 1024 ==> entry.stdout.cap == 8 * 1024 * 1024
            }
            &&& entry.stdout.overflow is Backpressure <==> request.overflow == Some(
                OverflowPolicy::Backpressure,
            )
            &&& entry.stderr.overflow == entry.stdout.overflow
        }),
{
    let view = final(registry)@;
    let params = choose|params: SpawnParams| #[trigger]
        are_params(params, *request, *answers, *starter) && old(registry)@.refusal(
            params.creator@,
            params.concurrent_cap as int,
        ) is None && exists|answer: Result<String, ErrorCode>| #[trigger]
            old(registry)@.answers(params, start, answer, view) && answer == Ok::<
                String,
                ErrorCode,
            >(r.1->Some_0);
    assert(old(registry)@.answers(params, start, Ok(r.1->Some_0), view));
    let words = views(request.args@);
    let cmd = request.cmd@ + " "@;
    let entry = view.process(r.1->Some_0@);
    assert(entry.command == cmd + joined(words, " "@));
    assert(cmd.is_prefix_of(cmd + joined(words, " "@)));
    if request.args@.len() == 1 {
        assert(words[0] == request.args@[0]@);
    }
}

/// A label without control characters that takes no more than a hundred and twenty-eight bytes is
/// borne as it was asked for.
pub proof fn law_label_is_borne(
    registry: &mut PersistentProcessRegistry,
    request: &SpawnRequest,
    answers: &LastingAnswers,
    starter: &Starter,
    start: u64,
    r: (SpawnStep, Option<String>),
    label: String,
)
    requires
        call_ensures(spawn_persistent, (request, answers, starter, registry, start), r),
        r.1 is Some,
        request.label == Some(label),
        encode_utf8(label@).len() <= 128,
        forall|i: int|
            0 <= i < label@.len() ==> {
                let code = (#[trigger] label@[i]) as u32;
                0x20 <= code < 0x7f || 0x9f < code
            },
    ensures
        final(registry)@.process(r.1->Some_0@).label == label@,
{
    let view = final(registry)@;
    let entry = view.process(r.1->Some_0@);
    lemma_printable_fixed(label@);
    lemma_utf8_len(label@);
    assert(longest_fit(label@, 128, entry.label));
    if entry.label.len() < label@.len() {
        lemma_utf8_monotone(label@, entry.label.len() as int + 1, label@.len() as int);
        assert(label@.take(label@.len() as int) =~= label@);
    }
    assert(label@.take(label@.len() as int) =~= label@);
}

/// A process that was started to outlive its instance is swept as its request says: while it runs
/// it stays as long as it is younger than the life that was asked for and was touched more recently
/// than the idle time that was asked for, and it is swept as soon as one of the two is over.
pub proof fn law_life_is_as_requested(
    started_in: &mut PersistentProcessRegistry,
    touched_in: &mut PersistentProcessRegistry,
    swept_in: &mut PersistentProcessRegistry,
    request: &SpawnRequest,
    answers: &LastingAnswers,
    starter: &Starter,
    start: u64,
    r: (SpawnStep, Option<String>),
    id: &str,
    principal: &str,
    capsule_id: &str,
    touch: u64,
    step: Result<WaitStep, ErrorCode>,
    now: u64,
    reaped: Vec<Reaped>,
    life: u64,
    idle: u64,
)
    requires
        call_ensures(spawn_persistent, (request, answers, starter, started_in, start), r),
        r.1 is Some && id@ == r.1->Some_0@,
        *old(touched_in) == *final(started_in),
        call_ensures(
            PersistentProcessRegistry::wait,
            (touched_in, id, principal, capsule_id, touch),
            step,
        ),
        step is Ok,
        *old(swept_in) == *final(touched_in),
        call_ensures(PersistentProcessRegistry::reap_sweep, (swept_in, now), reaped),
        request.max_lifetime_ms == Some(life),
        request.idle_timeout_ms == Some(idle),
        life <= 6 * 60 * 60 * 1000,
        idle <= 6 * 60 * 60 * 1000,
        start <= now,
        touch <= now,
    ensures
        final(swept_in)@.grants(id@, principal@, capsule_id@) <==> now - start < life && now - touch
            < idle,
{
    let entry = final(started_in)@.process(id@);
    assert(entry.max_lifetime == life);
    assert(entry.idle_timeout == idle);
}

/// Without times of its own a process lives for six hours at most and may be left alone for half
/// an hour; its id is kept for five minutes after it exited. Nothing that is asked for takes it
/// over six hours, or over one hour after its exit.
pub proof fn law_life_is_bounded(
    registry: &mut PersistentProcessRegistry,
    request: &SpawnRequest,
    answers: &LastingAnswers,
    starter: &Starter,
    start: u64,
    r: (SpawnStep, Option<String>),
    now: u64,
    touch: u64,
    exit: u64,
    record: ExitRecord,
)
    requires
        call_ensures(spawn_persistent, (request, answers, starter, registry, start), r),
        r.1 is Some,
        start <= now,
        touch <= now,
        exit <= now,
    ensures
        ({
            let entry = final(registry)@.process(r.1->Some_0@);
            let six_hours = 6 * 60 * 60 * 1000;
            let half_an_hour = 30 * 60 * 1000;
            &&& now - start >= six_hours ==> entry.touched(touch).is_due(now)
            &&& now - touch >= six_hours ==> entry.touched(touch).is_due(now)
            &&& request.max_lifetime_ms is None && request.idle_timeout_ms is None ==> (
            entry.touched(touch).is_due(now) <==> now - start >= six_hours || now - touch
                >= half_an_hour)
            &&& now - exit >= 60 * 60 * 1000 ==> entry.exited(record, exit).is_due(now)
            &&& request.exit_retention_ms is None ==> (entry.exited(record, exit).is_due(now) <==>
            now - exit >= 5 * 60 * 1000)
            &&& request.exit_retention_ms is Some && request.exit_retention_ms->Some_0 <= 60 * 60
                * 1000 ==> (entry.exited(record, exit).is_due(now) <==> now - exit
                >= request.exit_retention_ms->Some_0)
        }),
{
}

/// A registry that refuses a start says why and keeps nothing; one that takes a process in hands out
/// an id of fifty-two small letters and digits under which nothing was kept before, and forgets
/// nobody else.
pub proof fn law_starts_are_taken_in(
    registry: &mut PersistentProcessRegistry,
    p: SpawnParams,
    principal: &str,
    now: u64,
    may: Result<(), ErrorCode>,
    r: Result<String, ErrorCode>,
    slot: Seq<char>,
    i: int,
)
    requires
        principal@ == p.creator@,
        call_ensures(
            PersistentProcessRegistry::may_start,
            (&*old(registry), principal, p.concurrent_cap),
            may,
        ),
        call_ensures(PersistentProcessRegistry::spawn, (registry, p, now), r),
    ensures
        may is Err ==> r is Err && r->Err_0 == may->Err_0 && final(registry)@ == old(registry)@,
        may is Ok && r is Err ==> r->Err_0 is Unknown && final(registry)@.entries == old(registry)@.entries,
        r is Ok ==> {
            let id = r->Ok_0@;
            &&& may is Ok
            &&& id.len() == 52
            &&& 0 <= i < id.len() ==> (97 <= id[i] as int <= 122 || 50 <= id[i] as int <= 55)
            &&& !old(registry)@.entries.contains_key(old(registry)@.slot(id))
            &&& final(registry)@.grants(id, p.creator@, p.capsule_id@)
            &&& final(registry)@.process(id).os_pid == p.os_pid
            &&& old(registry)@.entries.contains_key(slot)
                ==> final(registry)@.entries.contains_key(slot) && final(registry)@.entries[slot]
                == old(registry)@.entries[slot]
            &&& final(registry)@.entries.contains_key(slot) ==> old(registry)@.entries.contains_key(slot) || slot == old(registry)@.slot(id)
        },
{
    if may is Ok {
        assert(old(registry)@.answers(p, now, r, final(registry)@));
        if r is Ok && 0 <= i < r->Ok_0@.len() {
            let c = r->Ok_0@[i];
            assert(('a' <= c && c <= 'z') || ('2' <= c && c <= '7'));
        }
    }
}

} // verus!
