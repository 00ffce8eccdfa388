//! What reserved units come to while authorities are granted, passed on, invalidated and taken back.

use vstd::prelude::*;

use crate::host_state::authority::{
    conserves, handles_of, law_replacement_releases_all, released_over,
    HostStateSemanticAuthorities, ReleaseReading, ResourceHandle, TableCounts,
};

verus! {

/// A granted authority: which one it was passed on by, if any, and the units that it has reserved
/// itself.
pub struct Grant {
    pub parent: Option<int>,
    pub units: nat,
}

/// What happens to the authorities of a table.
pub enum GrantOp {
    /// One is granted with so many units.
    Admit(nat),
    /// The authority at a place passes so many of its units on to a new one.
    Attenuate(int, nat),
    /// Some are revoked, by themselves, by a selector or by a new epoch. What they have reserved
    /// stays reserved.
    Invalidate,
}

/// The authorities after one more thing happened. Passing on more than there is changes nothing.
pub open spec fn granted_by(grants: Seq<Grant>, op: GrantOp) -> Seq<Grant> {
    match op {
        GrantOp::Admit(units) => grants.push(Grant { parent: None, units }),
        GrantOp::Attenuate(p, units) => if 0 <= p < grants.len() && units <= grants[p].units {
            grants.update(
                p,
                Grant { units: (grants[p].units - units) as nat, ..grants[p] },
            ).push(Grant { parent: Some(p), units })
        } else {
            grants
        },
        GrantOp::Invalidate => grants,
    }
}

/// The authorities in the order in which they were granted.
pub open spec fn grants_after(ops: Seq<GrantOp>) -> Seq<Grant>
    decreases ops.len(),
{
    if ops.len() == 0 {
        Seq::empty()
    } else {
        granted_by(grants_after(ops.drop_last()), ops.last())
    }
}

/// How many units were granted in all.
pub open spec fn admitted(ops: Seq<GrantOp>) -> nat
    decreases ops.len(),
{
    if ops.len() == 0 {
        0
    } else {
        admitted(ops.drop_last()) + match ops.last() {
            GrantOp::Admit(units) => units,
            _ => 0,
        }
    }
}

/// How many units are reserved in all.
pub open spec fn total(grants: Seq<Grant>) -> nat
    decreases grants.len(),
{
    if grants.len() == 0 {
        0
    } else {
        total(grants.drop_last()) + grants.last().units
    }
}

/// Whoever passed an authority on was granted before it.
pub open spec fn sound(grants: Seq<Grant>) -> bool {
    forall|i: int|
        0 <= i < grants.len() && (#[trigger] grants[i]).parent is Some ==> 0
            <= grants[i].parent->Some_0 < i
}

/// The authorities after the last granted one was taken back. Its units go back to whoever passed
/// them on.
pub open spec fn after_release(grants: Seq<Grant>) -> Seq<Grant> {
    let rest = grants.drop_last();
    match grants.last().parent {
        Some(p) if 0 <= p < rest.len() => rest.update(
            p,
            Grant { units: rest[p].units + grants.last().units, ..rest[p] },
        ),
        _ => rest,
    }
}

/// How many units are released when the last granted one is taken back: none that go back to
/// another.
pub open spec fn freed(grants: Seq<Grant>) -> nat {
    match grants.last().parent {
        Some(_) => 0,
        None => grants.last().units,
    }
}

/// The units that are reserved before each of the releases that take everything back, and after the
/// last.
pub open spec fn held_over(grants: Seq<Grant>) -> Seq<nat>
    decreases grants.len(),
{
    if grants.len() == 0 {
        seq![0nat]
    } else {
        seq![total(grants)] + held_over(after_release(grants))
    }
}

/// The readings are those around the releases that take everything back, the last granted first.
pub open spec fn follows(readings: Seq<ReleaseReading>, grants: Seq<Grant>) -> bool
    decreases grants.len(),
{
    &&& readings.len() == grants.len()
    &&& grants.len() > 0 ==> {
        &&& readings[0].after - readings[0].before == freed(grants)
        &&& readings.len() > 1 ==> readings[1].before == readings[0].after
        &&& follows(readings.drop_first(), after_release(grants))
    }
}

/// Changing one authority changes the sum by as much.
proof fn lemma_total_update(grants: Seq<Grant>, p: int, grant: Grant)
    requires
        0 <= p < grants.len(),
    ensures
        total(grants.update(p, grant)) == total(grants) - grants[p].units + grant.units,
    decreases grants.len(),
{
    let changed = grants.update(p, grant);
    if p == grants.len() - 1 {
        assert(changed.drop_last() =~= grants.drop_last());
    } else {
        lemma_total_update(grants.drop_last(), p, grant);
        assert(changed.drop_last() =~= grants.drop_last().update(p, grant));
        assert(changed.last() == grants.last());
    }
}

/// Passing units on and revoking authorities neither makes units nor loses any: what is reserved is
/// what was granted. Whoever passed an authority on was granted before it.
pub proof fn law_passing_on_keeps_units(ops: Seq<GrantOp>)
    ensures
        total(grants_after(ops)) == admitted(ops),
        sound(grants_after(ops)),
    decreases ops.len(),
{
    if ops.len() > 0 {
        law_passing_on_keeps_units(ops.drop_last());
        let grants = grants_after(ops.drop_last());
        match ops.last() {
            GrantOp::Admit(units) => {
                let more = grants.push(Grant { parent: None, units });
                assert(more.drop_last() =~= grants);
            },
            GrantOp::Attenuate(p, units) => {
                if 0 <= p < grants.len() && units <= grants[p].units {
                    let left = Grant { units: (grants[p].units - units) as nat, ..grants[p] };
                    lemma_total_update(grants, p, left);
                    let rest = grants.update(p, left);
                    let more = rest.push(Grant { parent: Some(p), units });
                    assert(more.drop_last() =~= rest);
                }
            },
            GrantOp::Invalidate => {},
        }
    }
}

/// A release turns what it frees from reserved into released, and leaves the rest in order.
proof fn lemma_release(grants: Seq<Grant>)
    requires
        sound(grants),
        grants.len() > 0,
    ensures
        sound(after_release(grants)),
        after_release(grants).len() == grants.len() - 1,
        total(grants) == total(after_release(grants)) + freed(grants),
{
    let rest = grants.drop_last();
    assert forall|i: int| 0 <= i < rest.len() && (#[trigger] rest[i]).parent is Some implies 0
        <= rest[i].parent->Some_0 < i by {
        assert(rest[i] == grants[i]);
    }
    match grants.last().parent {
        Some(p) => {
            assert(grants[grants.len() - 1].parent is Some);
            lemma_total_update(
                rest,
                p,
                Grant { units: rest[p].units + grants.last().units, ..rest[p] },
            );
        },
        None => {},
    }
}

/// Taking everything back, the last granted first, loses no unit and ends with none reserved.
proof fn lemma_follows_conserves(readings: Seq<ReleaseReading>, grants: Seq<Grant>)
    requires
        sound(grants),
        follows(readings, grants),
    ensures
        conserves(readings, held_over(grants)),
        held_over(grants)[0] == total(grants),
        held_over(grants).last() == 0,
    decreases grants.len(),
{
    let held = held_over(grants);
    if grants.len() > 0 {
        let rest = after_release(grants);
        let later = readings.drop_first();
        lemma_release(grants);
        lemma_follows_conserves(later, rest);
        let held_later = held_over(rest);
        assert forall|i: int| 0 <= i < held_later.len() implies held[i + 1] == #[trigger] held_later[i] by {}
        assert(held[0] == total(grants));
        assert(held[1] == held_later[0]);
        assert forall|i: int| 0 <= i < readings.len() implies (#[trigger] readings[i]).after
            - readings[i].before == held[i] - held[i + 1] && held[i + 1] <= held[i] by {
            if i > 0 {
                assert(later[i - 1] == readings[i]);
                assert(held[i] == held_later[i - 1]);
                assert(held[i + 1] == held_later[i - 1 + 1]);
                assert(held_later[i - 1 + 1] <= held_later[i - 1]);
            }
        }
        assert forall|i: int| 0 <= i < readings.len() implies held[i + 1] <= #[trigger] held[i] by {
            assert(readings[i].after - readings[i].before == held[i] - held[i + 1]);
        }
        assert forall|i: int| 0 < i < readings.len() implies (#[trigger] readings[i]).before
            == readings[i - 1].after by {
            if i > 1 {
                assert(later[i - 1] == readings[i]);
                assert(later[i - 2] == readings[i - 1]);
            }
        }
        assert(held.last() == held_later.last());
    }
}

/// Whatever was granted, passed on and revoked before, a replacement releases each unit once: no
/// authority is tracked afterwards, the table is fresh, and the count has grown by what was granted,
/// which is what the table had reserved. A parent of ten units that passed four of them on releases
/// ten.
pub proof fn law_replacement_releases_what_was_granted(
    before: HostStateSemanticAuthorities,
    after: HostStateSemanticAuthorities,
    ops: Seq<GrantOp>,
    readings: Seq<ReleaseReading>,
)
    requires
        before.granted@.len() == grants_after(ops).len(),
        before.table.active_units == total(grants_after(ops)),
        follows(readings, grants_after(ops)),
        before.released_units + before.table.active_units <= u128::MAX,
        after.table == TableCounts::fresh(),
        after.granted@.len() == 0,
        after.released_units == released_over(before.released_units as int, readings),
    ensures
        handles_of(after.granted@) == Seq::<ResourceHandle>::empty(),
        after.table.active_units == 0,
        after.table.slots == 0,
        after.table.revoked_selectors == 0,
        after.released_units == before.released_units + before.table.active_units,
        before.table.active_units == admitted(ops),
{
    law_passing_on_keeps_units(ops);
    lemma_follows_conserves(readings, grants_after(ops));
    law_replacement_releases_all(before, after, readings, held_over(grants_after(ops)));
}

} // verus!
