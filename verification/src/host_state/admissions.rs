//! Which principals have work under way, and which are retired.

use vstd::prelude::*;

use crate::cancel::may_answer;
use crate::host_state::state::HostState;
use crate::host_state::types::PrincipalId;
use crate::names::NameMap;

verus! {

/// The work under way for each principal. A retired principal gets no more work; what it has may
/// come to an end.
pub struct PrincipalInvocationTracker {
    running: NameMap<u64>,
    retired: NameMap<bool>,
}

/// The work under way and the retired principals.
pub struct AdmissionView {
    pub running: Map<Seq<char>, u64>,
    pub retired: Set<Seq<char>>,
}

impl AdmissionView {
    /// How much work a principal has under way.
    pub open spec fn count(self, principal: Seq<char>) -> int {
        if self.running.contains_key(principal) {
            self.running[principal] as int
        } else {
            0
        }
    }

    /// The view after the work of a principal changed.
    pub open spec fn with_count(self, principal: Seq<char>, count: u64) -> AdmissionView {
        AdmissionView {
            running: if count == 0 {
                self.running.remove(principal)
            } else {
                self.running.insert(principal, count)
            },
            ..self
        }
    }
}

impl View for PrincipalInvocationTracker {
    type V = AdmissionView;

    closed spec fn view(&self) -> AdmissionView {
        AdmissionView { running: self.running@, retired: self.retired@.dom() }
    }
}

impl PrincipalInvocationTracker {
    /// No work is under way and nobody is retired.
    pub fn new() -> (tracker: Self)
        ensures
            tracker@.running == Map::<Seq<char>, u64>::empty(),
            tracker@.retired == Set::<Seq<char>>::empty(),
    {
        let tracker = PrincipalInvocationTracker {
            running: NameMap::new(),
            retired: NameMap::new(),
        };
        assert(tracker@.retired =~= Set::<Seq<char>>::empty());
        tracker
    }

    /// How much work a principal has under way.
    pub fn count(&self, principal: &str) -> (n: u64)
        ensures
            n == self@.count(principal@),
    {
        match self.running.get(principal) {
            Some(n) => *n,
            None => 0,
        }
    }

    /// Begins a piece of work. A retired principal is refused.
    pub fn begin(&mut self, principal: &str) -> (admitted: bool)
        requires
            old(self)@.count(principal@) < u64::MAX,
        ensures
            admitted == !old(self)@.retired.contains(principal@),
            final(self)@ == (if admitted {
                old(self)@.with_count(principal@, (old(self)@.count(principal@) + 1) as u64)
            } else {
                old(self)@
            }),
    {
        if self.retired.contains(principal) {
            return false;
        }
        let n: u64 = self.count(principal);
        self.running.insert(principal.to_owned(), n + 1);
        true
    }

    /// Ends a piece of work.
    pub fn finish(&mut self, principal: &str)
        requires
            old(self)@.count(principal@) > 0,
        ensures
            final(self)@ == old(self)@.with_count(
                principal@,
                (old(self)@.count(principal@) - 1) as u64,
            ),
    {
        let n: u64 = self.count(principal);
        if n == 1 {
            let _ = self.running.remove(principal);
        } else {
            self.running.insert(principal.to_owned(), n - 1);
        }
    }

    /// Retires a principal.
    pub fn retire(&mut self, principal: &str)
        ensures
            final(self)@.running == old(self)@.running,
            final(self)@.retired == old(self)@.retired.insert(principal@),
    {
        self.retired.insert(principal.to_owned(), true);
        assert(self@.retired =~= old(self)@.retired.insert(principal@));
    }

    /// Opens a principal again.
    pub fn resume(&mut self, principal: &str)
        ensures
            final(self)@.running == old(self)@.running,
            final(self)@.retired == old(self)@.retired.remove(principal@),
    {
        let _ = self.retired.remove(principal);
        assert(self@.retired =~= old(self)@.retired.remove(principal@));
    }

    /// Whether a principal has no work under way.
    pub fn is_quiescent(&self, principal: &str) -> (quiet: bool)
        ensures
            quiet == (self@.count(principal@) == 0),
    {
        self.count(principal) == 0
    }
}

/// What came of beginning an operation.
#[derive(Debug, Clone, Copy, PartialEq, Eq, Structural)]
pub enum HostOperation {
    /// The operation counts as work of the caller until it is finished.
    Counted,
    /// Nobody counts.
    Uncounted,
    /// The caller may not begin an operation.
    Refused,
}

impl HostState {
    /// What comes of beginning an operation: the caller needs authority, and where work is counted
    /// the caller must not be retired.
    pub open spec fn begins(
        &self,
        before: Option<PrincipalInvocationTracker>,
        cancelled: bool,
        after: Option<PrincipalInvocationTracker>,
        r: HostOperation,
    ) -> bool {
        let active = self.invocation.profile_authorized && !cancelled;
        match before {
            None => {
                &&& after is None
                &&& r == (if active {
                    HostOperation::Uncounted
                } else {
                    HostOperation::Refused
                })
            },
            Some(tracker) => {
                let who = self.caller()@;
                let admitted = active && !tracker@.retired.contains(who);
                &&& after is Some
                &&& r == (if admitted {
                    HostOperation::Counted
                } else {
                    HostOperation::Refused
                })
                &&& after->Some_0@ == (if admitted {
                    tracker@.with_count(who, (tracker@.count(who) + 1) as u64)
                } else {
                    tracker@
                })
            },
        }
    }

    /// Begins an operation of the caller, given whether the token in effect is cancelled. The
    /// caller needs authority, and where work is counted the caller must not be retired.
    pub fn begin_host_operation_given(
        &self,
        tracker: &mut Option<PrincipalInvocationTracker>,
        cancelled: bool,
    ) -> (r: HostOperation)
        requires
            *old(tracker) is Some ==> old(tracker)->Some_0@.count(self.caller()@) < u64::MAX,
        ensures
            self.begins(*old(tracker), cancelled, *final(tracker), r),
    {
        if !self.authority_given(cancelled) {
            return HostOperation::Refused;
        }
        let principal: PrincipalId = self.effective_principal();
        let taken = tracker.take();
        match taken {
            None => HostOperation::Uncounted,
            Some(mut counts) => {
                let admitted: bool = counts.begin(principal.name.as_str());
                *tracker = Some(counts);
                if admitted {
                    HostOperation::Counted
                } else {
                    HostOperation::Refused
                }
            },
        }
    }

    /// Begins an operation of the caller. Whether the caller has authority is also up to the token
    /// in effect, which may be cancelled at any time: it is asked.
    pub fn begin_host_operation(&self, tracker: &mut Option<PrincipalInvocationTracker>) -> (r:
        HostOperation)
        requires
            *old(tracker) is Some ==> old(tracker)->Some_0@.count(self.caller()@) < u64::MAX,
        ensures
            exists|cancelled: bool| #[trigger]
                may_answer(self.token(), cancelled) && self.begins(
                    *old(tracker),
                    cancelled,
                    *final(tracker),
                    r,
                ),
    {
        let cancelled: bool = self.effective_cancel_token().is_cancelled();
        assert(may_answer(self.token(), cancelled));
        self.begin_host_operation_given(tracker, cancelled)
    }
}

/// Work that began comes to an end: finishing undoes beginning.
pub proof fn law_finish_undoes_begin(view: AdmissionView, principal: Seq<char>)
    requires
        view.count(principal) < u64::MAX,
        view.running.contains_key(principal) ==> view.running[principal] > 0,
    ensures
        ({
            let begun = view.with_count(principal, (view.count(principal) + 1) as u64);
            begun.with_count(principal, (begun.count(principal) - 1) as u64).running == view.running
        }),
{
    let begun = view.with_count(principal, (view.count(principal) + 1) as u64);
    let ended = begun.with_count(principal, (begun.count(principal) - 1) as u64);
    assert(ended.running =~= view.running);
}

} // verus!
