//! A tracker for hosts that start no processes: it keeps process ids and cancels nothing.

use std::collections::HashSet;

use vstd::prelude::*;

verus! {

broadcast use vstd::std_specs::hash::group_hash_axioms;

/// The process ids that were registered and not unregistered since.
pub struct ProcessTracker {
    pids: HashSet<u32>,
}

impl View for ProcessTracker {
    type V = Set<u32>;

    closed spec fn view(&self) -> Set<u32> {
        self.pids@
    }
}

impl ProcessTracker {
    /// A tracker without process ids.
    pub fn new() -> (tracker: Self)
        ensures
            tracker@ == Set::<u32>::empty(),
    {
        ProcessTracker { pids: HashSet::new() }
    }

    /// Adds a process id.
    pub fn register(&mut self, pid: u32)
        ensures
            final(self)@ == old(self)@.insert(pid),
    {
        let _ = self.pids.insert(pid);
    }

    /// Removes a process id.
    pub fn unregister(&mut self, pid: u32)
        ensures
            final(self)@ == old(self)@.remove(pid),
    {
        let _ = self.pids.remove(&pid);
    }

    /// Whether a process id is registered.
    pub fn contains(&self, pid: u32) -> (found: bool)
        ensures
            found == self@.contains(pid),
    {
        self.pids.contains(&pid)
    }

    /// Cancels nothing: the process ids stay registered.
    pub fn cancel_all(&self) -> (cancelled: Vec<u32>)
        ensures
            cancelled@.len() == 0,
    {
        Vec::new()
    }

    /// Cancels nothing, whatever calls are named.
    pub fn cancel_by_call_ids(&self, call_ids: &Vec<String>) -> (cancelled: Vec<u32>)
        ensures
            cancelled@.len() == 0,
    {
        Vec::new()
    }
}

/// Unregistering undoes registering an id that was not there.
pub proof fn law_unregister_undoes_register(pids: Set<u32>, pid: u32)
    requires
        !pids.contains(pid),
    ensures
        pids.insert(pid).remove(pid) == pids,
{
    assert(pids.insert(pid).remove(pid) =~= pids);
}

} // verus!
