//! The running children of a capsule, for cancellation.
//!
//! Each child is known by its process id and may be tied to the call that started it, so that a
//! cancelled call takes only its own children with it. Process ids are reused by the operating
//! system, so a child that the host owns as a tree also has an identity that is never reused.

use vstd::prelude::*;

use crate::text::{contains_string, views};

verus! {

/// How long a child has between the interrupt and the kill, in milliseconds.
pub const SIGKILL_GRACE_PERIOD_MS: u64 = 2000;

/// Who answers for a tracked child.
#[derive(Debug, Clone, Copy, PartialEq, Eq, Structural)]
pub enum TrackedOwner {
    /// Nobody: the child is known by its process id alone.
    Legacy,
    /// The tree with this identity.
    Tree(u64),
}

/// A tracked child.
pub struct TrackedProcess {
    pub call_id: Option<String>,
    pub owner: TrackedOwner,
}

/// A child to be cancelled.
#[derive(Debug, Clone, Copy, PartialEq, Eq, Structural)]
pub struct CancellationTarget {
    pub pid: u32,
    pub identity: Option<u64>,
}

/// How an operating system ends processes.
#[derive(Debug, Clone, Copy, PartialEq, Eq, Structural)]
pub enum Platform {
    Unix,
    Windows,
    Other,
}

/// The first thing to do to a child that is cancelled.
#[derive(Debug, Clone, Copy, PartialEq, Eq, Structural)]
pub enum FirstSignal {
    /// Interrupt the root process of the tree with this identity.
    InterruptRoot(u64),
    /// Interrupt the process with this id.
    InterruptPid(i32),
    /// End the tree with this identity at once.
    TerminateTree(u64),
}

/// What cancelling some children comes to.
pub struct CancelPlan {
    /// What to do at once, in order.
    pub now: Vec<FirstSignal>,
    /// The children to look at again after the grace period.
    pub recheck: Vec<CancellationTarget>,
}

/// The children of one capsule, in order of their process ids.
pub struct ProcessTracker {
    active_pids: Vec<(u32, TrackedProcess)>,
}

/// `pid` stands at `at`.
pub open spec fn pid_at(entries: Seq<(u32, TrackedProcess)>, pid: u32, at: int) -> bool {
    0 <= at < entries.len() && entries[at].0 == pid
}

/// The entries stand in strictly increasing order of their process ids.
pub open spec fn increasing(entries: Seq<(u32, TrackedProcess)>) -> bool {
    forall|i: int, j: int|
        0 <= i < j < entries.len() ==> (#[trigger] entries[i]).0 < (#[trigger] entries[j]).0
}

/// What the entries say of each process id.
pub open spec fn by_pid(entries: Seq<(u32, TrackedProcess)>) -> Map<u32, TrackedProcess> {
    Map::new(
        |pid: u32| exists|at: int| pid_at(entries, pid, at),
        |pid: u32| entries[choose|at: int| pid_at(entries, pid, at)].1,
    )
}

impl TrackedProcess {
    /// Whether the child can still be reached: a tree only as long as it is alive.
    pub open spec fn reachable(self, live_trees: Seq<u64>) -> bool {
        match self.owner {
            TrackedOwner::Legacy => true,
            TrackedOwner::Tree(identity) => live_trees.contains(identity),
        }
    }

    /// The child as a target.
    pub open spec fn as_target(self, pid: u32) -> CancellationTarget {
        CancellationTarget {
            pid,
            identity: match self.owner {
                TrackedOwner::Legacy => None,
                TrackedOwner::Tree(identity) => Some(identity),
            },
        }
    }

    /// Whether cancelling the calls `call_ids` cancels this child: it belongs to one of them, or
    /// to none that is known.
    pub open spec fn belongs_to(self, call_ids: Seq<Seq<char>>) -> bool {
        match self.call_id {
            None => true,
            Some(id) => call_ids.contains(id@),
        }
    }

    /// The child as a target, if it can still be reached.
    pub fn target(&self, pid: u32, live_trees: &Vec<u64>) -> (target: Option<CancellationTarget>)
        ensures
            target == (if self.reachable(live_trees@) {
                Some(self.as_target(pid))
            } else {
                None
            }),
    {
        match self.owner {
            TrackedOwner::Legacy => Some(CancellationTarget { pid, identity: None }),
            TrackedOwner::Tree(identity) => {
                if contains_u64(live_trees, identity) {
                    Some(CancellationTarget { pid, identity: Some(identity) })
                } else {
                    None
                }
            },
        }
    }
}

/// Whether `value` stands in `list`.
fn contains_u64(list: &Vec<u64>, value: u64) -> (found: bool)
    ensures
        found == list@.contains(value),
{
    let mut i: usize = 0;
    while i < list.len()
        invariant
            i <= list@.len(),
            forall|j: int| 0 <= j < i ==> list@[j] != value,
        decreases list.len() - i,
    {
        if list[i] == value {
            assert(list@[i as int] == value);
            return true;
        }
        i += 1;
    }
    false
}

/// `targets` are, in order of process ids, the children for which `wanted` holds.
pub open spec fn are_targets(
    targets: Seq<CancellationTarget>,
    children: Map<u32, TrackedProcess>,
    wanted: spec_fn(TrackedProcess) -> bool,
) -> bool {
    &&& forall|i: int, j: int| 0 <= i < j < targets.len() ==> targets[i].pid < targets[j].pid
    &&& forall|i: int|
        0 <= i < targets.len() ==> {
            let pid = (#[trigger] targets[i]).pid;
            &&& children.contains_key(pid)
            &&& wanted(children[pid])
            &&& targets[i] == children[pid].as_target(pid)
        }
    &&& forall|pid: u32|
        children.contains_key(pid) && wanted(children[pid]) ==> exists|i: int|
            0 <= i < targets.len() && (#[trigger] targets[i]).pid == pid
}

impl View for ProcessTracker {
    type V = Map<u32, TrackedProcess>;

    closed spec fn view(&self) -> Map<u32, TrackedProcess> {
        by_pid(self.active_pids@)
    }
}

impl ProcessTracker {
    #[verifier::type_invariant]
    spec fn ordered(&self) -> bool {
        increasing(self.active_pids@)
    }

    /// No child is tracked.
    pub fn new() -> (tracker: Self)
        ensures
            tracker@ == Map::<u32, TrackedProcess>::empty(),
    {
        let tracker = ProcessTracker { active_pids: Vec::new() };
        assert(tracker@ =~= Map::<u32, TrackedProcess>::empty());
        tracker
    }

    /// How many tracked process ids are below `pid`.
    fn position(&self, pid: u32) -> (at: usize)
        ensures
            at <= self.active_pids@.len(),
            forall|i: int| 0 <= i < at ==> self.active_pids@[i].0 < pid,
            forall|i: int| at <= i < self.active_pids@.len() ==> self.active_pids@[i].0 >= pid,
    {
        proof {
            use_type_invariant(self);
        }
        let mut at: usize = 0;
        while at < self.active_pids.len() && self.active_pids[at].0 < pid
            invariant
                at <= self.active_pids@.len(),
                forall|i: int| 0 <= i < at ==> self.active_pids@[i].0 < pid,
            decreases self.active_pids.len() - at,
        {
            at += 1;
        }
        proof {
            if at < self.active_pids@.len() {
                assert forall|i: int| at <= i < self.active_pids@.len() implies
                    self.active_pids@[i].0 >= pid by {
                    if i > at {
                        assert(self.active_pids@[at as int].0 < self.active_pids@[i].0);
                    }
                }
            }
        }
        at
    }

    /// Tracks a child in place of whatever was tracked under its process id.
    fn track(&mut self, pid: u32, child: TrackedProcess)
        ensures
            final(self)@ == old(self)@.insert(pid, child),
    {
        self.unregister(pid);
        proof {
            use_type_invariant(&*self);
        }
        let ghost before = self.active_pids@;
        let at: usize = self.position(pid);
        let mut entries: Vec<(u32, TrackedProcess)> = Vec::new();
        std::mem::swap(&mut entries, &mut self.active_pids);
        proof {
            assert(!by_pid(before).contains_key(pid));
            assert forall|i: int| !pid_at(before, pid, i) by {
                if pid_at(before, pid, i) {
                    assert(by_pid(before).contains_key(pid));
                }
            }
            assert forall|i: int| at <= i < before.len() implies before[i].0 > pid by {
                assert(!pid_at(before, pid, i));
            }
            lemma_inserted(before, pid, child, at as int);
        }
        entries.insert(at, (pid, child));
        self.active_pids = entries;
    }

    /// Tracks a child by its process id alone. There is no process with the id zero.
    pub fn register(&mut self, pid: u32, call_id: Option<String>)
        ensures
            final(self)@ == (if pid == 0 {
                old(self)@
            } else {
                old(self)@.insert(pid, (TrackedProcess { call_id, owner: TrackedOwner::Legacy }))
            }),
    {
        if pid == 0 {
            return;
        }
        self.track(pid, TrackedProcess { call_id, owner: TrackedOwner::Legacy });
    }

    /// Tracks a child that the host owns as the tree `identity`.
    pub fn register_tree(&mut self, pid: u32, identity: u64, call_id: Option<String>)
        ensures
            final(self)@ == old(self)@.insert(
                pid,
                (TrackedProcess { call_id, owner: TrackedOwner::Tree(identity) }),
            ),
    {
        self.track(pid, TrackedProcess { call_id, owner: TrackedOwner::Tree(identity) });
    }

    /// Forgets the child with this process id.
    pub fn unregister(&mut self, pid: u32)
        ensures
            final(self)@ == old(self)@.remove(pid),
    {
        proof {
            use_type_invariant(&*self);
        }
        let ghost before = self.active_pids@;
        let at: usize = self.position(pid);
        if at < self.active_pids.len() && self.active_pids[at].0 == pid {
            proof {
                lemma_taken(before, pid, at as int);
            }
            let mut entries: Vec<(u32, TrackedProcess)> = Vec::new();
            std::mem::swap(&mut entries, &mut self.active_pids);
            let _ = entries.remove(at);
            self.active_pids = entries;
        } else {
            assert forall|i: int| !pid_at(before, pid, i) by {}
            assert(self@ =~= old(self)@.remove(pid));
        }
    }

    /// Forgets the child with this process id only if it is still the tree `identity`.
    pub fn unregister_identity(&mut self, pid: u32, identity: u64)
        ensures
            final(self)@ == (if old(self)@.contains_key(pid) && old(self)@[pid].owner
                == TrackedOwner::Tree(identity) {
                old(self)@.remove(pid)
            } else {
                old(self)@
            }),
    {
        if self.owner_of(pid) == Some(TrackedOwner::Tree(identity)) {
            self.unregister(pid);
        }
    }

    /// Forgets a tree unless its process id has passed to another child.
    pub fn unregister_tree(&mut self, pid: u32, identity: u64)
        ensures
            final(self)@ == (if old(self)@.contains_key(pid) && old(self)@[pid].owner
                == TrackedOwner::Tree(identity) {
                old(self)@.remove(pid)
            } else {
                old(self)@
            }),
    {
        self.unregister_identity(pid, identity);
    }

    /// Who answers for the child with this process id.
    pub fn owner_of(&self, pid: u32) -> (owner: Option<TrackedOwner>)
        ensures
            owner == (if self@.contains_key(pid) {
                Some(self@[pid].owner)
            } else {
                None
            }),
    {
        proof {
            use_type_invariant(self);
        }
        let at: usize = self.position(pid);
        if at < self.active_pids.len() && self.active_pids[at].0 == pid {
            proof {
                lemma_found(self.active_pids@, pid, at as int);
            }
            Some(self.active_pids[at].1.owner)
        } else {
            assert forall|i: int| !pid_at(self.active_pids@, pid, i) by {}
            None
        }
    }

    /// Forgets the trees that are no longer alive, and tells whether any child is left.
    pub fn has_active(&mut self, live_trees: &Vec<u64>) -> (active: bool)
        ensures
            final(self)@ == old(self)@.restrict(
                Set::new(
                    |pid: u32|
                        old(self)@.contains_key(pid) && old(self)@[pid].reachable(live_trees@),
                ),
            ),
            active == exists|pid: u32|
                old(self)@.contains_key(pid) && (#[trigger] old(self)@[pid]).reachable(live_trees@),
    {
        proof {
            use_type_invariant(&*self);
        }
        let ghost before = self.active_pids@;
        let mut entries: Vec<(u32, TrackedProcess)> = Vec::new();
        std::mem::swap(&mut entries, &mut self.active_pids);
        let mut kept: Vec<(u32, TrackedProcess)> = Vec::new();
        let ghost mut from: Seq<int> = Seq::empty();
        for entry in it: entries
            invariant
                it.seq() == before,
                increasing(before),
                from.len() == kept@.len(),
                forall|k: int|
                    0 <= k < kept@.len() ==> 0 <= #[trigger] from[k] < it.index() && kept@[k]
                        == before[from[k]] && before[from[k]].1.reachable(live_trees@),
                forall|k: int, l: int| 0 <= k < l < from.len() ==> from[k] < from[l],
                forall|i: int|
                    0 <= i < it.index() && (#[trigger] before[i]).1.reachable(live_trees@)
                        ==> from.contains(i),
        {
            let ghost at = it.index() as int;
            let ghost old_from = from;
            match entry.1.target(entry.0, live_trees) {
                Some(_) => {
                    kept.push(entry);
                    proof {
                        from = from.push(at);
                        assert(from[old_from.len() as int] == at);
                        assert forall|i: int|
                            0 <= i < at + 1 && (#[trigger] before[i]).1.reachable(
                                live_trees@,
                            ) implies from.contains(i) by {
                            if i < at {
                                let k = choose|k: int| 0 <= k < old_from.len() && old_from[k] == i;
                                assert(from[k] == i);
                            } else {
                                assert(from[old_from.len() as int] == i);
                            }
                        }
                    }
                },
                None => {},
            }
        }
        let active: bool = kept.len() > 0;
        proof {
            lemma_thinned(before, kept@, from, live_trees@);
        }
        self.active_pids = kept;
        active
    }

    /// The children that cancelling the calls `call_ids` cancels: those of these calls and those
    /// of no known call. Cancelling no call cancels nothing.
    pub fn cancel_by_call_ids(&self, call_ids: &Vec<String>, live_trees: &Vec<u64>) -> (targets: Vec<
        CancellationTarget,
    >)
        ensures
            call_ids@.len() == 0 ==> targets@.len() == 0,
            call_ids@.len() > 0 ==> are_targets(
                targets@,
                self@,
                |child: TrackedProcess|
                    child.belongs_to(views(call_ids@)) && child.reachable(live_trees@),
            ),
    {
        if call_ids.len() == 0 {
            return Vec::new();
        }
        self.select(Some(call_ids), live_trees)
    }

    /// All children that can still be reached.
    pub fn cancel_all(&self, live_trees: &Vec<u64>) -> (targets: Vec<CancellationTarget>)
        ensures
            are_targets(
                targets@,
                self@,
                |child: TrackedProcess| child.reachable(live_trees@),
            ),
    {
        let targets = self.select(None, live_trees);
        assert(are_targets(
            targets@,
            self@,
            |child: TrackedProcess| child.reachable(live_trees@),
        )) by {
            let all = |child: TrackedProcess|
                wanted_by(child, None) && child.reachable(live_trees@);
            let some = |child: TrackedProcess| child.reachable(live_trees@);
            assert(are_targets(targets@, self@, all));
            assert(all =~= some);
        }
        targets
    }

    /// The reachable children, or those among them of the given calls.
    #[verifier::spinoff_prover]
    #[verifier::rlimit(60)]
    fn select(&self, call_ids: Option<&Vec<String>>, live_trees: &Vec<u64>) -> (targets: Vec<
        CancellationTarget,
    >)
        ensures
            are_targets(
                targets@,
                self@,
                |child: TrackedProcess|
                    wanted_by(
                        child,
                        match call_ids {
                            Some(ids) => Some(views(ids@)),
                            None => None,
                        },
                    ) && child.reachable(live_trees@),
            ),
    {
        proof {
            use_type_invariant(self);
        }
        let ghost entries = self.active_pids@;
        let ghost ids: Option<Seq<Seq<char>>> = match call_ids {
            Some(list) => Some(views(list@)),
            None => None,
        };
        let ghost wanted = |child: TrackedProcess|
            wanted_by(child, ids) && child.reachable(live_trees@);
        let mut targets: Vec<CancellationTarget> = Vec::new();
        let mut i: usize = 0;
        while i < self.active_pids.len()
            invariant
                i <= entries.len(),
                entries == self.active_pids@,
                increasing(entries),
                ids == (match call_ids {
                    Some(list) => Some(views(list@)),
                    None => None,
                }),
                wanted == (|child: TrackedProcess|
                    wanted_by(child, ids) && child.reachable(live_trees@)),
                forall|a: int, b: int|
                    0 <= a < b < targets@.len() ==> targets@[a].pid < targets@[b].pid,
                forall|a: int|
                    0 <= a < targets@.len() ==> exists|k: int|
                        0 <= k < i && entries[k].0 == targets@[a].pid && wanted(entries[k].1)
                            && #[trigger] targets@[a] == (#[trigger] entries[k]).1.as_target(
                            entries[k].0,
                        ),
                forall|k: int|
                    0 <= k < i && wanted((#[trigger] entries[k]).1) ==> exists|a: int|
                        0 <= a < targets@.len() && (#[trigger] targets@[a]).pid == entries[k].0,
            decreases self.active_pids.len() - i,
        {
            let pid: u32 = self.active_pids[i].0;
            let chosen: bool = match (&self.active_pids[i].1.call_id, call_ids) {
                (Some(id), Some(list)) => contains_string(list, id.as_str()),
                _ => true,
            };
            let ghost before = targets@;
            if chosen {
                match self.active_pids[i].1.target(pid, live_trees) {
                    Some(target) => {
                        targets.push(target);
                        proof {
                            assert(wanted(entries[i as int].1));
                            assert forall|a: int, b: int|
                                0 <= a < b < targets@.len() implies targets@[a].pid
                                < targets@[b].pid by {
                                if b == before.len() {
                                    let k = choose|k: int|
                                        0 <= k < i && entries[k].0 == before[a].pid && wanted(
                                            entries[k].1,
                                        ) && before[a] == (#[trigger] entries[k]).1.as_target(
                                            entries[k].0,
                                        );
                                    assert(entries[k].0 < entries[i as int].0);
                                }
                            }
                            assert forall|a: int| 0 <= a < targets@.len() implies exists|k: int|
                                0 <= k < i + 1 && entries[k].0 == targets@[a].pid && wanted(
                                    entries[k].1,
                                ) && #[trigger] targets@[a] == (
                                #[trigger] entries[k]).1.as_target(entries[k].0) by {
                                if a < before.len() {
                                    assert(targets@[a] == before[a]);
                                } else {
                                    assert(entries[i as int].0 == targets@[a].pid);
                                }
                            }
                            assert forall|k: int|
                                0 <= k < i + 1 && wanted((#[trigger] entries[k]).1) implies exists|
                                a: int,
                            |
                                0 <= a < targets@.len() && (#[trigger] targets@[a]).pid
                                    == entries[k].0 by {
                                if k < i {
                                    let a = choose|a: int|
                                        0 <= a < before.len() && (#[trigger] before[a]).pid
                                            == entries[k].0;
                                    assert(targets@[a].pid == entries[k].0);
                                } else {
                                    assert(targets@[before.len() as int].pid == entries[k].0);
                                }
                            }
                        }
                    },
                    None => {
                        assert(!wanted(entries[i as int].1));
                    },
                }
            } else {
                assert(!wanted(entries[i as int].1));
            }
            i += 1;
        }
        proof {
            assert forall|a: int| 0 <= a < targets@.len() implies {
                let pid = (#[trigger] targets@[a]).pid;
                &&& self@.contains_key(pid)
                &&& wanted(self@[pid])
                &&& targets@[a] == self@[pid].as_target(pid)
            } by {
                let k = choose|k: int|
                    0 <= k < i && entries[k].0 == targets@[a].pid && wanted(entries[k].1)
                        && targets@[a] == (#[trigger] entries[k]).1.as_target(entries[k].0);
                lemma_found(entries, targets@[a].pid, k);
            }
            assert forall|pid: u32| self@.contains_key(pid) && wanted(self@[pid]) implies exists|
                a: int,
            |
                0 <= a < targets@.len() && (#[trigger] targets@[a]).pid == pid by {
                let k = choose|k: int| pid_at(entries, pid, k);
                assert(wanted(entries[k].1));
            }
            assert(are_targets(targets@, self@, wanted));
        }
        targets
    }

    /// What cancelling `targets` comes to on `platform`. On Unix each child is interrupted and
    /// looked at again after the grace period; on Windows each tree is ended at once, and a
    /// child without a tree is left alone.
    pub fn signal_targets(targets: &Vec<CancellationTarget>, platform: Platform) -> (plan: CancelPlan)
        ensures
            plan.now@ == first_signals(targets@, platform),
            plan.recheck@ == (if platform is Unix {
                targets@
            } else {
                Seq::empty()
            }),
    {
        let mut now: Vec<FirstSignal> = Vec::new();
        let mut recheck: Vec<CancellationTarget> = Vec::new();
        let mut i: usize = 0;
        assert(targets@.take(0) =~= Seq::<CancellationTarget>::empty());
        while i < targets.len()
            invariant
                i <= targets@.len(),
                now@ == first_signals(targets@.take(i as int), platform),
                recheck@ == (if platform is Unix {
                    targets@.take(i as int)
                } else {
                    Seq::empty()
                }),
            decreases targets.len() - i,
        {
            let target = targets[i];
            assert(targets@.take(i + 1).drop_last() =~= targets@.take(i as int));
            match platform {
                Platform::Unix => {
                    match target.identity {
                        Some(identity) => {
                            now.push(FirstSignal::InterruptRoot(identity));
                        },
                        None => {
                            if target.pid <= 0x7fff_ffff {
                                now.push(FirstSignal::InterruptPid(target.pid as i32));
                            }
                        },
                    }
                    recheck.push(target);
                },
                Platform::Windows => {
                    match target.identity {
                        Some(identity) => {
                            now.push(FirstSignal::TerminateTree(identity));
                        },
                        None => {},
                    }
                },
                Platform::Other => {},
            }
            i += 1;
        }
        assert(targets@.take(targets@.len() as int) =~= targets@);
        CancelPlan { now, recheck }
    }

    /// The processes to kill once the grace period is over: those among `recheck` that are still
    /// the children they were. A process id that has passed to another child is spared.
    pub fn escalate(&self, recheck: &Vec<CancellationTarget>) -> (kill: Vec<i32>)
        ensures
            kill@ == kills(self@, recheck@),
    {
        let mut kill: Vec<i32> = Vec::new();
        let mut i: usize = 0;
        assert(recheck@.take(0) =~= Seq::<CancellationTarget>::empty());
        while i < recheck.len()
            invariant
                i <= recheck@.len(),
                kill@ == kills(self@, recheck@.take(i as int)),
            decreases recheck.len() - i,
        {
            let target = recheck[i];
            assert(recheck@.take(i + 1).drop_last() =~= recheck@.take(i as int));
            let still_current: bool = match (self.owner_of(target.pid), target.identity) {
                (Some(TrackedOwner::Legacy), None) => true,
                (Some(TrackedOwner::Tree(current)), Some(expected)) => current == expected,
                _ => false,
            };
            if still_current && target.pid <= 0x7fff_ffff {
                kill.push(target.pid as i32);
            }
            i += 1;
        }
        assert(recheck@.take(recheck@.len() as int) =~= recheck@);
        kill
    }

    /// The tracked process ids in increasing order.
    pub fn active_pids_snapshot(&self) -> (pids: Vec<u32>)
        ensures
            forall|i: int, j: int| 0 <= i < j < pids@.len() ==> pids@[i] < pids@[j],
            forall|pid: u32| pids@.contains(pid) <==> self@.contains_key(pid),
    {
        proof {
            use_type_invariant(self);
        }
        let mut pids: Vec<u32> = Vec::new();
        let mut i: usize = 0;
        while i < self.active_pids.len()
            invariant
                i <= self.active_pids@.len(),
                pids@.len() == i,
                forall|k: int| 0 <= k < i ==> pids@[k] == self.active_pids@[k].0,
            decreases self.active_pids.len() - i,
        {
            pids.push(self.active_pids[i].0);
            i += 1;
        }
        proof {
            let entries = self.active_pids@;
            assert forall|a: int, b: int| 0 <= a < b < pids@.len() implies pids@[a] < pids@[b] by {
                assert(entries[a].0 < entries[b].0);
            }
            assert forall|pid: u32| pids@.contains(pid) <==> self@.contains_key(pid) by {
                if pids@.contains(pid) {
                    let k = choose|k: int| 0 <= k < pids@.len() && pids@[k] == pid;
                    assert(pid_at(entries, pid, k));
                }
                if self@.contains_key(pid) {
                    let k = choose|k: int| pid_at(entries, pid, k);
                    assert(pids@[k] == pid);
                }
            }
        }
        pids
    }
}

/// Whether a child is among those of the given calls; without calls every child is.
pub open spec fn wanted_by(child: TrackedProcess, call_ids: Option<Seq<Seq<char>>>) -> bool {
    match call_ids {
        Some(ids) => child.belongs_to(ids),
        None => true,
    }
}

/// What is done at once to each of `targets`.
pub open spec fn first_signals(targets: Seq<CancellationTarget>, platform: Platform) -> Seq<
    FirstSignal,
>
    decreases targets.len(),
{
    if targets.len() == 0 {
        Seq::empty()
    } else {
        let rest = first_signals(targets.drop_last(), platform);
        let target = targets.last();
        match (platform, target.identity) {
            (Platform::Unix, Some(identity)) => rest.push(FirstSignal::InterruptRoot(identity)),
            (Platform::Unix, None) => if target.pid <= i32::MAX {
                rest.push(FirstSignal::InterruptPid(target.pid as i32))
            } else {
                rest
            },
            (Platform::Windows, Some(identity)) => rest.push(FirstSignal::TerminateTree(identity)),
            _ => rest,
        }
    }
}

/// Whether the target is still the child that it was.
pub open spec fn still_current(
    children: Map<u32, TrackedProcess>,
    target: CancellationTarget,
) -> bool {
    children.contains_key(target.pid) && children[target.pid].as_target(target.pid) == target
}

/// The processes that are killed after the grace period.
pub open spec fn kills(
    children: Map<u32, TrackedProcess>,
    recheck: Seq<CancellationTarget>,
) -> Seq<i32>
    decreases recheck.len(),
{
    if recheck.len() == 0 {
        Seq::empty()
    } else {
        let rest = kills(children, recheck.drop_last());
        let target = recheck.last();
        if still_current(children, target) && target.pid <= i32::MAX {
            rest.push(target.pid as i32)
        } else {
            rest
        }
    }
}

/// The entry that has a process id is what the entries say of it.
proof fn lemma_found(entries: Seq<(u32, TrackedProcess)>, pid: u32, at: int)
    requires
        increasing(entries),
        pid_at(entries, pid, at),
    ensures
        by_pid(entries).contains_key(pid),
        by_pid(entries)[pid] == entries[at].1,
{
    let other = choose|i: int| pid_at(entries, pid, i);
    assert(pid_at(entries, pid, other));
    if other < at {
        assert(entries[other].0 < entries[at].0);
    } else if at < other {
        assert(entries[at].0 < entries[other].0);
    }
}

/// Taking an entry out takes its process id out and no other.
proof fn lemma_taken(entries: Seq<(u32, TrackedProcess)>, pid: u32, at: int)
    requires
        increasing(entries),
        pid_at(entries, pid, at),
    ensures
        increasing(entries.remove(at)),
        by_pid(entries.remove(at)) == by_pid(entries).remove(pid),
{
    let rest = entries.remove(at);
    assert forall|i: int, j: int| 0 <= i < j < rest.len() implies (#[trigger] rest[i]).0 < (
    #[trigger] rest[j]).0 by {
        let x = if i < at { i } else { i + 1 };
        let y = if j < at { j } else { j + 1 };
        assert(entries[x].0 < entries[y].0);
    }
    let less = by_pid(entries).remove(pid);
    assert forall|p: u32|
        #![trigger by_pid(rest).dom().contains(p)]
        #![trigger less.dom().contains(p)]
        by_pid(rest).dom().contains(p) == less.dom().contains(p) && (by_pid(rest).dom().contains(p)
            ==> by_pid(rest)[p] == less[p]) by {
        if by_pid(rest).dom().contains(p) {
            let i = choose|i: int| pid_at(rest, p, i);
            let x = if i < at { i } else { i + 1 };
            assert(pid_at(entries, p, x));
            lemma_found(rest, p, i);
            lemma_found(entries, p, x);
            if x < at {
                assert(entries[x].0 < entries[at].0);
            } else {
                assert(entries[at].0 < entries[x].0);
            }
        }
        if less.dom().contains(p) {
            let y = choose|i: int| pid_at(entries, p, i);
            assert(y != at);
            let j = if y < at { y } else { y - 1 };
            assert(pid_at(rest, p, j));
        }
    }
    assert(by_pid(rest) =~= less);
}

/// Putting an entry in its place adds its process id and changes no other.
proof fn lemma_inserted(
    entries: Seq<(u32, TrackedProcess)>,
    pid: u32,
    child: TrackedProcess,
    at: int,
)
    requires
        increasing(entries),
        0 <= at <= entries.len(),
        forall|i: int| 0 <= i < at ==> entries[i].0 < pid,
        forall|i: int| at <= i < entries.len() ==> entries[i].0 > pid,
    ensures
        increasing(entries.insert(at, (pid, child))),
        by_pid(entries.insert(at, (pid, child))) == by_pid(entries).insert(pid, child),
{
    let more = entries.insert(at, (pid, child));
    assert forall|i: int, j: int| 0 <= i < j < more.len() implies (#[trigger] more[i]).0 < (
    #[trigger] more[j]).0 by {
        if i != at && j != at {
            let x = if i < at { i } else { i - 1 };
            let y = if j < at { j } else { j - 1 };
            assert(entries[x].0 < entries[y].0);
        }
    }
    let wider = by_pid(entries).insert(pid, child);
    assert(pid_at(more, pid, at));
    lemma_found(more, pid, at);
    assert forall|p: u32|
        #![trigger by_pid(more).dom().contains(p)]
        #![trigger wider.dom().contains(p)]
        by_pid(more).dom().contains(p) == wider.dom().contains(p) && (by_pid(more).dom().contains(p)
            ==> by_pid(more)[p] == wider[p]) by {
        if by_pid(more).dom().contains(p) && p != pid {
            let i = choose|i: int| pid_at(more, p, i);
            assert(pid_at(more, p, i) && i != at);
            let x = if i < at { i } else { i - 1 };
            assert(pid_at(entries, p, x));
            lemma_found(more, p, i);
            lemma_found(entries, p, x);
        }
        if by_pid(entries).dom().contains(p) {
            let y = choose|i: int| pid_at(entries, p, i);
            let j = if y < at { y } else { y + 1 };
            assert(pid_at(more, p, j));
        }
    }
    assert(by_pid(more) =~= wider);
}

/// Keeping the reachable entries keeps exactly the reachable children.
proof fn lemma_thinned(
    before: Seq<(u32, TrackedProcess)>,
    kept: Seq<(u32, TrackedProcess)>,
    from: Seq<int>,
    live_trees: Seq<u64>,
)
    requires
        increasing(before),
        from.len() == kept.len(),
        forall|k: int|
            0 <= k < kept.len() ==> 0 <= #[trigger] from[k] < before.len() && kept[k]
                == before[from[k]] && before[from[k]].1.reachable(live_trees),
        forall|k: int, l: int| 0 <= k < l < from.len() ==> from[k] < from[l],
        forall|i: int|
            0 <= i < before.len() && (#[trigger] before[i]).1.reachable(live_trees)
                ==> from.contains(i),
    ensures
        increasing(kept),
        by_pid(kept) == by_pid(before).restrict(
            Set::new(
                |pid: u32|
                    by_pid(before).contains_key(pid) && by_pid(before)[pid].reachable(live_trees),
            ),
        ),
        kept.len() > 0 <==> exists|pid: u32|
            by_pid(before).contains_key(pid) && (#[trigger] by_pid(before)[pid]).reachable(
                live_trees,
            ),
{
    assert forall|i: int, j: int| 0 <= i < j < kept.len() implies (#[trigger] kept[i]).0 < (
    #[trigger] kept[j]).0 by {
        assert(from[i] < from[j]);
        assert(before[from[i]].0 < before[from[j]].0);
    }
    let thin = by_pid(before).restrict(
        Set::new(
            |pid: u32|
                by_pid(before).contains_key(pid) && by_pid(before)[pid].reachable(live_trees),
        ),
    );
    assert forall|p: u32|
        #![trigger by_pid(kept).dom().contains(p)]
        #![trigger thin.dom().contains(p)]
        by_pid(kept).dom().contains(p) == thin.dom().contains(p) && (by_pid(kept).dom().contains(p)
            ==> by_pid(kept)[p] == thin[p]) by {
        if by_pid(kept).dom().contains(p) {
            let k = choose|k: int| pid_at(kept, p, k);
            assert(pid_at(kept, p, k));
            assert(kept[k] == before[from[k]]);
            assert(pid_at(before, p, from[k]));
            lemma_found(kept, p, k);
            lemma_found(before, p, from[k]);
        }
        if thin.dom().contains(p) {
            let i = choose|i: int| pid_at(before, p, i);
            lemma_found(before, p, i);
            assert(before[i].1.reachable(live_trees));
            let k = choose|k: int| 0 <= k < from.len() && from[k] == i;
            assert(kept[k] == before[from[k]]);
            assert(pid_at(kept, p, k));
        }
    }
    assert(by_pid(kept) =~= thin);
    if kept.len() > 0 {
        assert(kept[0] == before[from[0]]);
        assert(pid_at(before, kept[0].0, from[0]));
        lemma_found(before, kept[0].0, from[0]);
        assert(by_pid(before)[kept[0].0].reachable(live_trees));
    }
    if exists|pid: u32|
        by_pid(before).contains_key(pid) && (#[trigger] by_pid(before)[pid]).reachable(live_trees) {
        let pid = choose|pid: u32|
            by_pid(before).contains_key(pid) && (#[trigger] by_pid(before)[pid]).reachable(
                live_trees,
            );
        let i = choose|i: int| pid_at(before, pid, i);
        lemma_found(before, pid, i);
        assert(before[i].1.reachable(live_trees));
        assert(from.contains(i));
    }
}

/// A late unregistration of a tree never forgets the child to which its process id has passed.
pub proof fn law_stale_unregister_spares_new_owner(
    children: Map<u32, TrackedProcess>,
    pid: u32,
    stale: u64,
    owner: TrackedProcess,
)
    requires
        owner.owner != TrackedOwner::Tree(stale),
    ensures
        ({
            let now = children.insert(pid, owner);
            let after = if now.contains_key(pid) && now[pid].owner == TrackedOwner::Tree(stale) {
                now.remove(pid)
            } else {
                now
            };
            after.contains_key(pid) && after[pid] == owner
        }),
{
}

/// Whoever is killed after the grace period was marked for cancellation and is still the same
/// child. A child that was forgotten, or replaced by one with another owner, is spared.
pub proof fn law_escalation_spares_others(
    children: Map<u32, TrackedProcess>,
    recheck: Seq<CancellationTarget>,
    killed: int,
)
    requires
        0 <= killed < kills(children, recheck).len(),
    ensures
        exists|i: int|
            0 <= i < recheck.len() && still_current(children, #[trigger] recheck[i])
                && recheck[i].pid as int == kills(children, recheck)[killed] as int,
    decreases recheck.len(),
{
    let rest = kills(children, recheck.drop_last());
    let target = recheck.last();
    if killed < rest.len() {
        law_escalation_spares_others(children, recheck.drop_last(), killed);
        let i = choose|i: int|
            0 <= i < recheck.drop_last().len() && still_current(
                children,
                #[trigger] recheck.drop_last()[i],
            ) && recheck.drop_last()[i].pid as int == rest[killed] as int;
        assert(still_current(children, recheck[i]));
    } else {
        assert(still_current(children, recheck[recheck.len() - 1]));
    }
}

} // verus!
