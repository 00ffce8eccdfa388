//! How many streams a capsule has open.
//!
//! Every stream counts three times: for the capsule, which has the quota; for the instance that
//! opened it; and for the store whose guest holds it. A connection that was accepted ahead of
//! the guest counts for the first two and not yet for the third.

use vstd::prelude::*;

verus! {

/// How many streams a capsule may have open at a time.
pub const MAX_ACTIVE_STREAMS: usize = 8;

/// The open streams as one store sees them.
#[derive(Debug, Clone, Copy, PartialEq, Eq, Structural)]
pub struct StreamCounts {
    /// Of the whole capsule.
    pub capsule: usize,
    /// Of this instance.
    pub local: usize,
    /// Held by the guest of this store.
    pub store: usize,
}

/// One less, and never below zero.
pub open spec fn one_less(n: usize) -> usize {
    if n > 0 {
        (n - 1) as usize
    } else {
        0
    }
}

impl StreamCounts {
    /// There is room for another stream.
    pub open spec fn has_room(self) -> bool {
        self.capsule < MAX_ACTIVE_STREAMS
    }

    /// The store holds no more than the instance opened, and the instance opened no more than
    /// the capsule has, which is within its quota.
    pub open spec fn consistent(self) -> bool {
        self.store <= self.local <= self.capsule <= MAX_ACTIVE_STREAMS
    }

    /// Another stream can be counted, where there is room for it.
    pub open spec fn countable(self) -> bool {
        self.has_room() ==> self.local < usize::MAX && self.store < usize::MAX
    }

    /// With one more stream that the guest holds.
    pub open spec fn opened(self) -> StreamCounts {
        StreamCounts {
            capsule: (self.capsule + 1) as usize,
            local: (self.local + 1) as usize,
            store: (self.store + 1) as usize,
        }
    }

    /// With one more connection that the guest does not hold yet.
    pub open spec fn awaited(self) -> StreamCounts {
        StreamCounts {
            capsule: (self.capsule + 1) as usize,
            local: (self.local + 1) as usize,
            ..self
        }
    }

    /// With one stream of the guest fewer.
    pub open spec fn closed(self) -> StreamCounts {
        StreamCounts {
            capsule: one_less(self.capsule),
            local: one_less(self.local),
            store: one_less(self.store),
        }
    }

    /// With one connection that the guest never held fewer.
    pub open spec fn given_up(self) -> StreamCounts {
        StreamCounts { capsule: one_less(self.capsule), local: one_less(self.local), ..self }
    }

    /// The guest takes a connection that counts already.
    pub open spec fn claimed(self) -> StreamCounts {
        StreamCounts { store: (self.store + 1) as usize, ..self }
    }

    /// Counts a stream that the guest is to hold, if there is room for it.
    pub fn reserve_net_stream(&mut self) -> (reserved: bool)
        requires
            old(self).countable(),
        ensures
            reserved == old(self).has_room(),
            *final(self) == (if old(self).has_room() {
                old(self).opened()
            } else {
                *old(self)
            }),
    {
        if self.capsule >= MAX_ACTIVE_STREAMS {
            return false;
        }
        self.capsule = self.capsule + 1;
        self.local = self.local + 1;
        self.store = self.store + 1;
        true
    }

    /// Counts a connection that the guest does not hold yet, if there is room for it.
    pub fn reserve_pending(&mut self) -> (reserved: bool)
        requires
            old(self).countable(),
        ensures
            reserved == old(self).has_room(),
            *final(self) == (if old(self).has_room() {
                old(self).awaited()
            } else {
                *old(self)
            }),
    {
        if self.capsule >= MAX_ACTIVE_STREAMS {
            return false;
        }
        self.capsule = self.capsule + 1;
        self.local = self.local + 1;
        true
    }

    /// Counts a stream of the guest no longer.
    pub fn release_net_stream(&mut self)
        ensures
            *final(self) == old(self).closed(),
    {
        if self.capsule > 0 {
            self.capsule = self.capsule - 1;
        }
        if self.local > 0 {
            self.local = self.local - 1;
        }
        if self.store > 0 {
            self.store = self.store - 1;
        }
    }

    /// Counts a connection that the guest never held no longer.
    pub fn drop_pending(&mut self)
        ensures
            *final(self) == old(self).given_up(),
    {
        if self.capsule > 0 {
            self.capsule = self.capsule - 1;
        }
        if self.local > 0 {
            self.local = self.local - 1;
        }
    }

    /// The guest takes a connection that counts already.
    pub fn claim_reserved_net_stream(&mut self)
        requires
            old(self).store < usize::MAX,
        ensures
            *final(self) == old(self).claimed(),
    {
        self.store = self.store + 1;
    }
}

/// What is reserved counts once for each of the three, never beyond the quota of the capsule, and is
/// given back by its release. The counts stay consistent.
pub proof fn law_release_gives_back(counts: StreamCounts)
    requires
        counts.has_room(),
        counts.countable(),
    ensures
        counts.opened().capsule == counts.capsule + 1,
        counts.opened().local == counts.local + 1,
        counts.opened().store == counts.store + 1,
        counts.opened().capsule <= MAX_ACTIVE_STREAMS,
        counts.opened().closed() == counts,
        counts.awaited().given_up() == counts,
        counts.consistent() ==> counts.opened().consistent() && counts.awaited().consistent()
            && counts.closed().consistent(),
{
}

/// A connection that was accepted ahead and then taken counts like one that was taken at once.
pub proof fn law_claim_completes(counts: StreamCounts)
    requires
        counts.has_room(),
        counts.countable(),
    ensures
        counts.awaited().claimed() == counts.opened(),
        counts.awaited().store == counts.store,
{
}

} // verus!
