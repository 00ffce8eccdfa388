//! The authorities that an invocation was granted, so that they can be taken back when it ends.
//!
//! Each authority is kept with the stamp under which it was granted: that the same name comes
//! again does not make it the same invocation. Children are granted after their parents, so
//! taking authorities back in reverse order takes back children first.

use vstd::prelude::*;

use crate::host_state::types::StampedInvocation;

verus! {

/// A granted authority, by its slot and the generation of that slot.
#[derive(Debug, Clone, Copy, PartialEq, Eq, Structural)]
pub struct ResourceHandle {
    pub slot: u32,
    pub generation: u64,
}

/// A granted authority and the stamp under which it was granted.
pub struct TrackedAuthority {
    pub stamp: StampedInvocation,
    pub handle: ResourceHandle,
}

/// What the table that holds the authorities says of itself.
#[derive(Debug, Clone, Copy, PartialEq, Eq, Structural)]
pub struct TableCounts {
    /// How many units are reserved. What was passed to a child counts once.
    pub active_units: u128,
    /// How many slots it has.
    pub slots: usize,
    /// How many selectors are revoked.
    pub revoked_selectors: usize,
}

impl TableCounts {
    /// A fresh table.
    pub open spec fn fresh() -> TableCounts {
        TableCounts { active_units: 0, slots: 0, revoked_selectors: 0 }
    }
}

/// The authorities that are still to be taken back, in the order in which they were granted, what
/// their table said of itself last, and how many reserved units have been released so far.
pub struct HostStateSemanticAuthorities {
    pub table: TableCounts,
    pub granted: Vec<TrackedAuthority>,
    pub released_units: u128,
}

/// The readings of the table's count of released units before and after one release.
#[derive(Debug, Clone, Copy, PartialEq, Eq, Structural)]
pub struct ReleaseReading {
    pub before: u128,
    pub after: u128,
}

/// The count of released units after one release. A count that ran backwards, or that no longer
/// fits, is pinned to the largest value, so that it never looks like room to release more.
pub open spec fn released_after(units: int, reading: ReleaseReading) -> int {
    let delta = reading.after - reading.before;
    if delta >= 0 && units + delta <= u128::MAX {
        units + delta
    } else {
        u128::MAX as int
    }
}

/// The count of released units after a run of releases.
pub open spec fn released_over(units: int, readings: Seq<ReleaseReading>) -> int
    decreases readings.len(),
{
    if readings.len() == 0 {
        units
    } else {
        released_after(released_over(units, readings.drop_last()), readings.last())
    }
}

/// The handles in the order in which they were granted.
pub open spec fn handles_of(granted: Seq<TrackedAuthority>) -> Seq<ResourceHandle> {
    Seq::new(granted.len(), |i: int| granted[i].handle)
}

/// The authorities other than `handle`, in their order.
pub open spec fn without_handle(granted: Seq<TrackedAuthority>, handle: ResourceHandle) -> Seq<
    TrackedAuthority,
>
    decreases granted.len(),
{
    if granted.len() == 0 {
        Seq::empty()
    } else if granted.last().handle == handle {
        without_handle(granted.drop_last(), handle)
    } else {
        without_handle(granted.drop_last(), handle).push(granted.last())
    }
}

impl HostStateSemanticAuthorities {
    /// No authority is granted and nothing was released.
    pub fn new() -> (authorities: Self)
        ensures
            authorities.table == TableCounts::fresh(),
            authorities.granted@.len() == 0,
            authorities.released_units == 0,
    {
        HostStateSemanticAuthorities {
            table: TableCounts { active_units: 0, slots: 0, revoked_selectors: 0 },
            granted: Vec::new(),
            released_units: 0,
        }
    }

    /// Notes what the table says of itself, after it granted, revoked or took back something.
    pub fn note_table(&mut self, table: TableCounts)
        ensures
            *final(self) == (HostStateSemanticAuthorities { table, ..*old(self) }),
    {
        self.table = table;
    }

    /// Notes that an authority was granted, at the top or under another one.
    pub fn track(&mut self, stamp: &StampedInvocation, handle: ResourceHandle)
        ensures
            final(self).table == old(self).table,
            final(self).released_units == old(self).released_units,
            final(self).granted@.len() == old(self).granted@.len() + 1,
            final(self).granted@.drop_last() == old(self).granted@,
            final(self).granted@.last().handle == handle,
            final(self).granted@.last().stamp.uid@ == stamp.uid@,
    {
        self.granted.push(TrackedAuthority { stamp: stamp.copy(), handle });
        assert(self.granted@.drop_last() =~= old(self).granted@);
    }

    /// The authorities in the order in which they are to be taken back: the last granted first.
    pub fn drain_order(&self) -> (order: Vec<ResourceHandle>)
        ensures
            order@ == handles_of(self.granted@).reverse(),
    {
        let mut order: Vec<ResourceHandle> = Vec::new();
        let mut i: usize = self.granted.len();
        while i > 0
            invariant
                i <= self.granted@.len(),
                order@.len() == self.granted@.len() - i,
                forall|k: int|
                    0 <= k < order@.len() ==> order@[k] == self.granted@[self.granted@.len() - 1
                        - k].handle,
            decreases i,
        {
            i -= 1;
            order.push(self.granted[i].handle);
        }
        assert(order@ =~= handles_of(self.granted@).reverse());
        order
    }

    /// The authority that is to be taken back after `released` others were, if there is one: the last
    /// granted first.
    pub fn next_to_release(&self, released: usize) -> (authority: Option<&TrackedAuthority>)
        ensures
            match authority {
                Some(next) => released < self.granted@.len() && *next
                    == self.granted@[self.granted@.len() - 1 - released],
                None => released >= self.granted@.len(),
            },
    {
        if released < self.granted.len() {
            Some(&self.granted[self.granted.len() - 1 - released])
        } else {
            None
        }
    }

    /// Notes that every authority was taken back, with the readings taken around each release,
    /// in the order of `drain_order`. Nothing is left to take back, and a fresh table takes the place
    /// of the old one.
    pub fn prepare_for_replacement(&mut self, readings: &Vec<ReleaseReading>)
        requires
            readings@.len() == old(self).granted@.len(),
        ensures
            final(self).table == TableCounts::fresh(),
            final(self).granted@.len() == 0,
            final(self).released_units == released_over(
                old(self).released_units as int,
                readings@,
            ),
    {
        let ghost start = self.released_units as int;
        let mut i: usize = 0;
        assert(readings@.take(0) =~= Seq::<ReleaseReading>::empty());
        while i < readings.len()
            invariant
                i <= readings@.len(),
                self.granted@.len() == readings@.len() - i,
                self.released_units == released_over(start, readings@.take(i as int)),
            decreases readings.len() - i,
        {
            assert(readings@.take(i + 1).drop_last() =~= readings@.take(i as int));
            let _ = self.granted.pop();
            self.record_release(readings[i]);
            i += 1;
        }
        assert(readings@.take(readings@.len() as int) =~= readings@);
        self.table = TableCounts { active_units: 0, slots: 0, revoked_selectors: 0 };
    }

    /// Adds one release to the count.
    pub fn record_release(&mut self, reading: ReleaseReading)
        ensures
            final(self).table == old(self).table,
            final(self).granted == old(self).granted,
            final(self).released_units == released_after(
                old(self).released_units as int,
                reading,
            ),
    {
        let total: u128 = match reading.after.checked_sub(reading.before) {
            Some(delta) => match self.released_units.checked_add(delta) {
                Some(sum) => sum,
                None => u128::MAX,
            },
            None => u128::MAX,
        };
        self.released_units = total;
    }

    /// Notes what came of taking one authority back. An authority that could not be taken back
    /// stays.
    pub fn reclaim<E>(&mut self, handle: ResourceHandle, outcome: Result<ReleaseReading, E>) -> (r:
        Result<(), E>)
        ensures
            match outcome {
                Ok(reading) => {
                    &&& r is Ok
                    &&& final(self).table == old(self).table
                    &&& final(self).granted@ == without_handle(old(self).granted@, handle)
                    &&& final(self).released_units == released_after(
                        old(self).released_units as int,
                        reading,
                    )
                },
                Err(code) => r == Err::<(), E>(code) && *final(self) == *old(self),
            },
    {
        let reading = match outcome {
            Err(code) => {
                return Err(code);
            },
            Ok(reading) => reading,
        };
        let ghost before = self.granted@;
        let mut granted: Vec<TrackedAuthority> = Vec::new();
        std::mem::swap(&mut granted, &mut self.granted);
        let mut kept: Vec<TrackedAuthority> = Vec::new();
        assert(before.take(0) =~= Seq::<TrackedAuthority>::empty());
        for authority in it: granted
            invariant
                it.seq() == before,
                kept@ == without_handle(before.take(it.index() as int), handle),
        {
            proof {
                let i = it.index() as int;
                assert(before.take(i + 1).drop_last() =~= before.take(i));
                assert(before.take(i + 1).last() == before[i]);
            }
            if !(authority.handle == handle) {
                kept.push(authority);
            }
        }
        assert(before.take(before.len() as int) =~= before);
        self.granted = kept;
        self.record_release(reading);
        Ok(())
    }

    /// How many authorities are still to be taken back.
    pub fn tracked_count(&self) -> (n: usize)
        ensures
            n == self.granted@.len(),
    {
        self.granted.len()
    }

    /// Whether an authority is still to be taken back.
    pub fn tracks_handle(&self, handle: ResourceHandle) -> (tracks: bool)
        ensures
            tracks == handles_of(self.granted@).contains(handle),
    {
        let mut i: usize = 0;
        while i < self.granted.len()
            invariant
                i <= self.granted@.len(),
                forall|k: int| 0 <= k < i ==> self.granted@[k].handle != handle,
            decreases self.granted.len() - i,
        {
            if self.granted[i].handle == handle {
                assert(handles_of(self.granted@)[i as int] == handle);
                return true;
            }
            i += 1;
        }
        false
    }

    /// How many units the table has reserved.
    pub fn active_reserved_units(&self) -> (units: u128)
        ensures
            units == self.table.active_units,
    {
        self.table.active_units
    }

    /// How many slots the table has.
    pub fn allocated_slot_count(&self) -> (n: usize)
        ensures
            n == self.table.slots,
    {
        self.table.slots
    }

    /// How many selectors the table has revoked.
    pub fn revoked_selector_count(&self) -> (n: usize)
        ensures
            n == self.table.revoked_selectors,
    {
        self.table.revoked_selectors
    }

    /// How many reserved units have been released.
    pub fn released_reserved_units(&self) -> (units: u128)
        ensures
            units == self.released_units,
    {
        self.released_units
    }
}

/// Authorities are taken back children first: one that was granted later comes earlier.
pub proof fn law_children_first(granted: Seq<TrackedAuthority>, parent: int, child: int)
    requires
        0 <= parent < child < granted.len(),
    ensures
        ({
            let order = handles_of(granted).reverse();
            let p = granted.len() - 1 - parent;
            let c = granted.len() - 1 - child;
            order[p] == granted[parent].handle && order[c] == granted[child].handle && c < p
        }),
{
}

/// Releases add up: as long as the readings run forward and the sum fits, the count grows by
/// exactly what the table released.
pub proof fn law_releases_add_up(units: int, readings: Seq<ReleaseReading>, n: int)
    requires
        0 <= units,
        0 <= n <= readings.len(),
        forall|i: int| 0 <= i < readings.len() ==> (#[trigger] readings[i]).before <= readings[i].after,
        forall|i: int|
            0 < i < readings.len() ==> (#[trigger] readings[i]).before == readings[i - 1].after,
        readings.len() > 0 ==> units + readings.last().after - readings[0].before <= u128::MAX,
    ensures
        released_over(units, readings.take(n)) == (if n == 0 {
            units
        } else {
            units + readings[n - 1].after - readings[0].before
        }),
    decreases n,
{
    if n > 0 {
        law_releases_add_up(units, readings, n - 1);
        assert(readings.take(n).drop_last() =~= readings.take(n - 1));
        lemma_readings_grow(readings, n - 1, readings.len() - 1);
    } else {
        assert(readings.take(0) =~= Seq::<ReleaseReading>::empty());
    }
}

/// The readings around the releases of a table that loses no unit. `held` are the units that it has
/// reserved before each release and after the last: a release turns reserved units into released
/// ones and makes no others, and between two releases nothing happens.
pub open spec fn conserves(readings: Seq<ReleaseReading>, held: Seq<nat>) -> bool {
    &&& held.len() == readings.len() + 1
    &&& forall|i: int|
        0 <= i < readings.len() ==> (#[trigger] readings[i]).after - readings[i].before == held[i]
            - held[i + 1]
    &&& forall|i: int| 0 <= i < readings.len() ==> held[i + 1] <= #[trigger] held[i]
    &&& forall|i: int|
        0 < i < readings.len() ==> (#[trigger] readings[i]).before == readings[i - 1].after
}

/// A replacement takes everything back and releases each unit once. Afterwards no authority is
/// tracked, the table has no unit, no slot and no revoked selector, and the count has grown by exactly
/// what the table had reserved when the replacement began, whatever of it was revoked before and however it was passed on: what was passed to a child
/// goes back to its parent first and is released with it, so it is not counted twice. That holds of
/// a table that loses no unit and ends with none reserved, as long as the sum fits.
pub proof fn law_replacement_releases_all(
    before: HostStateSemanticAuthorities,
    after: HostStateSemanticAuthorities,
    readings: Seq<ReleaseReading>,
    held: Seq<nat>,
)
    requires
        readings.len() == before.granted@.len(),
        after.table == TableCounts::fresh(),
        after.granted@.len() == 0,
        after.released_units == released_over(before.released_units as int, readings),
        conserves(readings, held),
        held[0] == before.table.active_units,
        held.last() == 0,
        before.released_units + before.table.active_units <= u128::MAX,
    ensures
        handles_of(after.granted@) == Seq::<ResourceHandle>::empty(),
        after.table.active_units == 0,
        after.table.slots == 0,
        after.table.revoked_selectors == 0,
        after.released_units == before.released_units + before.table.active_units,
{
    assert(handles_of(after.granted@) =~= Seq::<ResourceHandle>::empty());
    lemma_releases_follow_held(before.released_units as int, readings, held, readings.len() as int);
    assert(readings.take(readings.len() as int) =~= readings);
}

/// After each release the count has grown by what is no longer reserved.
proof fn lemma_releases_follow_held(
    units: int,
    readings: Seq<ReleaseReading>,
    held: Seq<nat>,
    n: int,
)
    requires
        0 <= units,
        0 <= n <= readings.len(),
        conserves(readings, held),
        units + held[0] <= u128::MAX,
    ensures
        released_over(units, readings.take(n)) == units + held[0] - held[n],
        held[n] <= held[0],
    decreases n,
{
    if n > 0 {
        lemma_releases_follow_held(units, readings, held, n - 1);
        assert(readings.take(n).drop_last() =~= readings.take(n - 1));
        assert(readings.take(n).last() == readings[n - 1]);
        assert(held[n - 1 + 1] <= held[n - 1]);
    } else {
        assert(readings.take(0) =~= Seq::<ReleaseReading>::empty());
    }
}

/// Readings that run forward one after the other never fall.
proof fn lemma_readings_grow(readings: Seq<ReleaseReading>, i: int, j: int)
    requires
        0 <= i <= j < readings.len(),
        forall|k: int| 0 <= k < readings.len() ==> (#[trigger] readings[k]).before <= readings[k].after,
        forall|k: int|
            0 < k < readings.len() ==> (#[trigger] readings[k]).before == readings[k - 1].after,
    ensures
        readings[i].after <= readings[j].after,
    decreases j - i,
{
    if i < j {
        lemma_readings_grow(readings, i, j - 1);
        assert(readings[j].before == readings[j - 1].after);
    }
}

/// An authority that was taken back is gone, and no other authority is lost with it.
pub proof fn law_reclaim_is_exact(
    granted: Seq<TrackedAuthority>,
    handle: ResourceHandle,
    other: ResourceHandle,
)
    ensures
        !handles_of(without_handle(granted, handle)).contains(handle),
        other != handle ==> (handles_of(without_handle(granted, handle)).contains(other)
            <==> handles_of(granted).contains(other)),
    decreases granted.len(),
{
    let left = without_handle(granted, handle);
    if granted.len() > 0 {
        let rest = granted.drop_last();
        let left_rest = without_handle(rest, handle);
        law_reclaim_is_exact(rest, handle, other);
        let last = granted.last().handle;
        if last != handle {
            assert(handles_of(left) =~= handles_of(left_rest).push(last));
            lemma_push_contains(handles_of(left_rest), last, handle);
            lemma_push_contains(handles_of(left_rest), last, other);
        }
        assert(handles_of(granted) =~= handles_of(rest).push(last));
        lemma_push_contains(handles_of(rest), last, other);
    }
}

/// A sequence with one more entry holds what it held, and that entry.
proof fn lemma_push_contains(s: Seq<ResourceHandle>, x: ResourceHandle, y: ResourceHandle)
    ensures
        s.push(x).contains(y) <==> s.contains(y) || x == y,
{
    if s.contains(y) {
        let i = choose|i: int| 0 <= i < s.len() && s[i] == y;
        assert(s.push(x)[i] == y);
    }
    if x == y {
        assert(s.push(x)[s.len() as int] == y);
    }
    if s.push(x).contains(y) {
        let i = choose|i: int| 0 <= i < s.push(x).len() && s.push(x)[i] == y;
        if i < s.len() {
            assert(s[i] == y);
        }
    }
}

} // verus!
