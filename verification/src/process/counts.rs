//! How many background processes run, in all and for each principal.

use vstd::prelude::*;

use crate::names::NameMap;

verus! {

/// How many background processes a capsule may run at a time.
pub const MAX_BACKGROUND_PROCESSES: usize = 8;

/// The running background processes of one instance.
pub struct ProcessCounts {
    pub total: usize,
    pub by_principal: NameMap<usize>,
}

/// The counts as values.
pub struct CountsView {
    pub total: int,
    pub by_principal: Map<Seq<char>, usize>,
}

impl View for ProcessCounts {
    type V = CountsView;

    open spec fn view(&self) -> CountsView {
        CountsView { total: self.total as int, by_principal: self.by_principal@ }
    }
}

/// How many processes a principal may run under a profile.
pub open spec fn cap_of(profile_cap: u32) -> int {
    if profile_cap as int <= MAX_BACKGROUND_PROCESSES {
        profile_cap as int
    } else {
        MAX_BACKGROUND_PROCESSES as int
    }
}

/// How many processes a principal may run under a profile.
pub fn process_cap(profile_cap: u32) -> (cap: usize)
    ensures
        cap == cap_of(profile_cap),
        cap <= MAX_BACKGROUND_PROCESSES,
{
    if profile_cap <= 8 {
        profile_cap as usize
    } else {
        MAX_BACKGROUND_PROCESSES
    }
}

impl CountsView {
    /// How many processes a principal runs.
    pub open spec fn of(self, principal: Seq<char>) -> int {
        if self.by_principal.contains_key(principal) {
            self.by_principal[principal] as int
        } else {
            0
        }
    }

    /// Each principal that is listed runs a process.
    pub open spec fn tidy(self) -> bool {
        forall|p: Seq<char>| #[trigger]
            self.by_principal.contains_key(p) ==> self.by_principal[p] > 0
    }

    /// No more processes may be started: the principal is at its cap, counting those that
    /// outlive their instance, or the instance is.
    pub open spec fn exhausted(
        self,
        principal: Seq<char>,
        profile_cap: u32,
        persistent_live: int,
    ) -> bool {
        self.of(principal) + persistent_live >= cap_of(profile_cap) || self.total
            >= MAX_BACKGROUND_PROCESSES
    }

    /// The counts with one more process of a principal.
    pub open spec fn plus(self, principal: Seq<char>) -> CountsView {
        CountsView {
            total: self.total + 1,
            by_principal: self.by_principal.insert(principal, (self.of(principal) + 1) as usize),
        }
    }

    /// The counts with one process of a principal fewer. Counts never fall below zero.
    pub open spec fn minus(self, principal: Seq<char>) -> CountsView {
        CountsView {
            total: if self.total > 0 {
                self.total - 1
            } else {
                0
            },
            by_principal: if self.of(principal) > 1 {
                self.by_principal.insert(principal, (self.of(principal) - 1) as usize)
            } else {
                self.by_principal.remove(principal)
            },
        }
    }
}

impl ProcessCounts {
    /// No process runs.
    pub fn new() -> (counts: Self)
        ensures
            counts@.total == 0,
            counts@.by_principal == Map::<Seq<char>, usize>::empty(),
    {
        ProcessCounts { total: 0, by_principal: NameMap::new() }
    }

    /// How many processes a principal runs.
    pub fn of(&self, principal: &str) -> (n: usize)
        ensures
            n == self@.of(principal@),
    {
        match self.by_principal.get(principal) {
            Some(n) => *n,
            None => 0,
        }
    }

    /// Whether no more processes may be started.
    pub fn exhausted(&self, principal: &str, profile_cap: u32, persistent_live: usize) -> (r: bool)
        ensures
            r == self@.exhausted(principal@, profile_cap, persistent_live as int),
    {
        let cap: usize = process_cap(profile_cap);
        let own: usize = self.of(principal);
        own >= cap || persistent_live >= cap - own || self.total >= MAX_BACKGROUND_PROCESSES
    }

    /// Counts a process of a principal.
    pub fn add_one(&mut self, principal: &str)
        requires
            old(self)@.total < usize::MAX,
            old(self)@.of(principal@) < usize::MAX,
        ensures
            final(self)@ == old(self)@.plus(principal@),
    {
        let own: usize = self.of(principal);
        self.total = self.total + 1;
        self.by_principal.insert(principal.to_owned(), own + 1);
    }

    /// Counts a process of a principal no longer.
    pub fn release(&mut self, principal: &str)
        ensures
            final(self)@ == old(self)@.minus(principal@),
    {
        let own: usize = self.of(principal);
        if self.total > 0 {
            self.total = self.total - 1;
        }
        if own > 1 {
            self.by_principal.insert(principal.to_owned(), own - 1);
        } else {
            let _ = self.by_principal.remove(principal);
        }
    }
}

/// Releasing a process gives back exactly what counting it took.
pub proof fn law_release_undoes_count(counts: CountsView, principal: Seq<char>)
    requires
        counts.tidy(),
        0 <= counts.total < MAX_BACKGROUND_PROCESSES,
        counts.of(principal) < MAX_BACKGROUND_PROCESSES,
    ensures
        counts.plus(principal).minus(principal) == counts,
        counts.plus(principal).tidy(),
        counts.minus(principal).tidy(),
{
    let there = counts.plus(principal);
    assert(there.of(principal) == counts.of(principal) + 1);
    assert(there.minus(principal).by_principal =~= counts.by_principal);
}

/// Counting or releasing a process of one principal leaves the others alone.
pub proof fn law_counts_are_apart(counts: CountsView, principal: Seq<char>, other: Seq<char>)
    requires
        principal != other,
    ensures
        counts.plus(principal).of(other) == counts.of(other),
        counts.minus(principal).of(other) == counts.of(other),
{
}

} // verus!
