//! What holds of the registry across its operations.

use vstd::prelude::*;

use crate::process::persistent::config::{MAX_REGISTRY_ENTRIES, MAX_RETAINED_PER_PRINCIPAL};
use crate::process::persistent::entry::{elapsed, EntryView, ExitRecord, Phase};
use crate::process::persistent::registry::{started, RegistryView, SpawnParams};
use crate::process::persistent::ring::{law_push_keeps_tail, law_read_returns_written, RingView};
use crate::process::types::{ErrorCode, LogStream};

verus! {

/// A process has one owner: whoever else holds its id is not let near it.
pub proof fn law_one_owner(
    view: RegistryView,
    id: Seq<char>,
    principal: Seq<char>,
    capsule_id: Seq<char>,
    other_principal: Seq<char>,
    other_capsule: Seq<char>,
)
    requires
        view.grants(id, principal, capsule_id),
    ensures
        view.grants(id, other_principal, other_capsule) <==> other_principal == principal
            && other_capsule == capsule_id,
{
}

/// What a caller does to a process of their own leaves every other process as it is.
pub proof fn law_others_untouched(
    view: RegistryView,
    id: Seq<char>,
    entry: EntryView,
    slot: Seq<char>,
    now: u64,
)
    requires
        view.entries.contains_key(slot),
        slot != view.slot(id),
    ensures
        view.with(view.slot(id), entry).entries.contains_key(slot),
        view.with(view.slot(id), entry).entries[slot] == view.entries[slot],
        view.touched(id, now).entries[slot] == view.entries[slot],
        view.without(view.slot(id)).entries.contains_key(slot),
        view.without(view.slot(id)).entries[slot] == view.entries[slot],
{
}

/// The limits hold after every start: on the registry as a whole, on the ids that a principal
/// keeps, and on the processes that a principal runs.
pub proof fn law_limits_hold_after_spawn(
    view: RegistryView,
    p: SpawnParams,
    id: String,
    now: u64,
    after: RegistryView,
)
    requires
        view.valid(),
        view.refusal(p.creator@, p.concurrent_cap as int) is None,
        view.answers(p, now, Ok(id), after),
    ensures
        ({
            &&& after.entries.dom().len() <= MAX_REGISTRY_ENTRIES
            &&& after.retained_slots(p.creator@).len() == view.retained_slots(p.creator@).len() + 1
            &&& after.retained_slots(p.creator@).len() <= MAX_RETAINED_PER_PRINCIPAL
            &&& after.live_slots(p.creator@).len() == view.live_slots(p.creator@).len() + 1
            &&& after.live_slots(p.creator@).len() <= p.concurrent_cap
        }),
{
    let slot = view.slot(id@);
    let drawn = after.drawn.skip(view.drawn.len() as int);
    let entry = choose|entry: EntryView| #[trigger]
        started(p, id@, now, entry) && after == view.drew(drawn).with(slot, entry);
    let who = p.creator@;
    assert(after.entries.dom() =~= view.entries.dom().insert(slot));
    lemma_slots_finite(view, who);
    assert(after.retained_slots(who) =~= view.retained_slots(who).insert(slot));
    assert(after.live_slots(who) =~= view.live_slots(who).insert(slot));
}

/// Starting a process takes nothing from anyone else: what other principals keep and run stays.
pub proof fn law_spawn_leaves_others(
    view: RegistryView,
    p: SpawnParams,
    r: Result<String, ErrorCode>,
    now: u64,
    after: RegistryView,
    other: Seq<char>,
)
    requires
        view.answers(p, now, r, after),
        other != p.creator@,
    ensures
        after.retained_slots(other) == view.retained_slots(other),
        after.live_slots(other) == view.live_slots(other),
{
    assert(after.retained_slots(other) =~= view.retained_slots(other));
    assert(after.live_slots(other) =~= view.live_slots(other));
}

/// Forgetting a process frees its place: its creator keeps one id fewer, and runs one process
/// fewer if it was running.
pub proof fn law_forgetting_frees_a_place(view: RegistryView, slot: Seq<char>)
    requires
        view.valid(),
        view.entries.contains_key(slot),
    ensures
        ({
            let who = view.entries[slot].creator;
            let after = view.without(slot);
            &&& after.retained_slots(who).len() + 1 == view.retained_slots(who).len()
            &&& after.entries.dom().len() + 1 == view.entries.dom().len()
            &&& view.entries[slot].is_live() ==> after.live_slots(who).len() + 1
                == view.live_slots(who).len()
            &&& !view.entries[slot].is_live() ==> after.live_slots(who) == view.live_slots(who)
        }),
{
    let who = view.entries[slot].creator;
    let after = view.without(slot);
    lemma_slots_finite(view, who);
    assert(after.retained_slots(who) =~= view.retained_slots(who).remove(slot));
    assert(after.entries.dom() =~= view.entries.dom().remove(slot));
    if view.entries[slot].is_live() {
        assert(after.live_slots(who) =~= view.live_slots(who).remove(slot));
    } else {
        assert(after.live_slots(who) =~= view.live_slots(who));
    }
}

/// A process that exits frees its place among the running ones and keeps its id.
pub proof fn law_exit_frees_a_running_place(
    view: RegistryView,
    slot: Seq<char>,
    record: ExitRecord,
    now: u64,
)
    requires
        view.valid(),
        view.entries.contains_key(slot),
        view.entries[slot].is_live(),
    ensures
        ({
            let who = view.entries[slot].creator;
            let after = view.with(slot, view.entries[slot].exited(record, now));
            &&& after.live_slots(who).len() + 1 == view.live_slots(who).len()
            &&& after.retained_slots(who) == view.retained_slots(who)
            &&& after.entries[slot].stdout == view.entries[slot].stdout
            &&& after.entries[slot].stderr == view.entries[slot].stderr
        }),
{
    let who = view.entries[slot].creator;
    let after = view.with(slot, view.entries[slot].exited(record, now));
    lemma_slots_finite(view, who);
    assert(after.live_slots(who) =~= view.live_slots(who).remove(slot));
    assert(after.retained_slots(who) =~= view.retained_slots(who));
}

/// A sweep forgets the due processes and no others, and sweeping again at the same time forgets
/// nothing more.
pub proof fn law_sweep_is_exact(view: RegistryView, now: u64, slot: Seq<char>)
    ensures
        view.swept(now).entries.contains_key(slot) <==> view.entries.contains_key(slot)
            && !view.entries[slot].is_due(now),
        view.swept(now).entries.contains_key(slot) ==> view.swept(now).entries[slot]
            == view.entries[slot],
        view.swept(now).swept(now) == view.swept(now),
{
    assert(view.swept(now).swept(now).entries =~= view.swept(now).entries);
}

/// A running process is never swept before its time: one that is younger than its lifetime and
/// was touched more recently than its idle time stays.
pub proof fn law_sweep_spares_the_busy(entry: EntryView, now: u64)
    requires
        entry.phase is Running,
        elapsed(now, entry.spawned_at) < entry.max_lifetime,
        elapsed(now, entry.last_touch) < entry.idle_timeout,
    ensures
        !entry.is_due(now),
{
}

/// A running process outlives nothing: once its lifetime is over it is swept, however often it
/// was touched.
pub proof fn law_touch_does_not_extend_life(entry: EntryView, touch: u64, now: u64)
    requires
        entry.phase is Running,
        elapsed(now, entry.spawned_at) >= entry.max_lifetime,
    ensures
        entry.touched(touch).is_due(now),
{
}

/// Reading from the front of a stream gives back what came out of the process, byte for byte,
/// as long as it fits into the ring.
pub proof fn law_output_reads_back(
    entry: EntryView,
    which: LogStream,
    history: Seq<u8>,
    chunk: Seq<u8>,
    max: int,
)
    requires
        entry.valid(),
        entry.ring(which).holds_tail_of(history),
        entry.ring(which).takes(chunk) ==> entry.ring(which).end() + chunk.len()
            <= crate::process::persistent::ring::MAX_STREAM_OFFSET,
        entry.ring(which).bytes.len() + chunk.len() <= entry.ring(which).cap,
        chunk.len() <= max,
    ensures
        ({
            let ring = entry.fed(which, chunk).ring(which);
            let at = Some(entry.ring(which).end() as u64);
            &&& ring.between(ring.start(at), ring.stop(at, max)) == chunk
            &&& ring.missed(at) == 0
            &&& ring.stop(at, max) == ring.end()
        }),
{
    let old_ring = entry.ring(which);
    let ring = entry.fed(which, chunk).ring(which);
    let at = Some(old_ring.end() as u64);
    law_push_keeps_tail(old_ring, history, chunk);
    law_read_returns_written(ring, history + chunk, at, max);
    assert(ring.between(ring.start(at), ring.stop(at, max)) =~= chunk);
}

/// The places of a principal are finitely many.
proof fn lemma_slots_finite(view: RegistryView, who: Seq<char>)
    requires
        view.valid(),
    ensures
        view.retained_slots(who).finite(),
        view.live_slots(who).finite(),
{
    let dom = view.entries.dom();
    vstd::set_lib::lemma_len_subset(view.retained_slots(who), dom);
    vstd::set_lib::lemma_len_subset(view.live_slots(who), dom);
}

} // verus!
