use vstd::prelude::*;

verus! {

/// Bounds the units of work that run at once. A unit is admitted only while
/// fewer than `limit` are active, and leaves when it finishes; the run is
/// over once none is active. The controller also keeps the highest number of
/// units that were ever active at once.
pub struct ConcurrencyController {
    limit: u64,
    active: u64,
    peak: u64,
}

impl ConcurrencyController {
    /// The most units that may be active at once.
    pub closed spec fn spec_limit(&self) -> int {
        self.limit as int
    }

    /// The units active now.
    pub closed spec fn spec_active(&self) -> int {
        self.active as int
    }

    /// The most units that were ever active at once.
    pub closed spec fn spec_peak(&self) -> int {
        self.peak as int
    }

    /// The controller's counts are consistent.
    pub closed spec fn wf(&self) -> bool {
        &&& self.active <= self.peak <= self.limit
        &&& self.limit > 0
    }

    /// A controller with no active unit.
    pub fn new(limit: u64) -> (r: ConcurrencyController)
        requires
            limit > 0,
        ensures
            r.wf(),
            r.spec_limit() == limit,
            r.spec_active() == 0,
            r.spec_peak() == 0,
    {
        ConcurrencyController { limit, active: 0, peak: 0 }
    }

    /// Admits one more unit if fewer than the limit are active; returns
    /// whether it did.
    pub fn try_admit(&mut self) -> (r: bool)
        requires
            old(self).wf(),
        ensures
            final(self).wf(),
            r == (old(self).spec_active() < old(self).spec_limit()),
            final(self).spec_limit() == old(self).spec_limit(),
            r ==> final(self).spec_active() == old(self).spec_active() + 1,
            !r ==> final(self).spec_active() == old(self).spec_active(),
            final(self).spec_peak() == (if final(self).spec_active() > old(self).spec_peak() {
                final(self).spec_active()
            } else {
                old(self).spec_peak()
            }),
    {
        if self.active < self.limit {
            self.active = self.active + 1;
            if self.active > self.peak {
                self.peak = self.active;
            }
            true
        } else {
            false
        }
    }

    /// Records that an active unit has finished.
    pub fn finish(&mut self)
        requires
            old(self).wf(),
            old(self).spec_active() > 0,
        ensures
            final(self).wf(),
            final(self).spec_limit() == old(self).spec_limit(),
            final(self).spec_active() == old(self).spec_active() - 1,
            final(self).spec_peak() == old(self).spec_peak(),
    {
        self.active = self.active - 1;
    }

    /// The most units that may be active at once.
    pub fn limit(&self) -> (r: u64)
        ensures
            r == self.spec_limit(),
    {
        self.limit
    }

    /// The units active now.
    pub fn active(&self) -> (r: u64)
        ensures
            r == self.spec_active(),
    {
        self.active
    }

    /// The most units that were ever active at once.
    pub fn peak(&self) -> (r: u64)
        ensures
            r == self.spec_peak(),
    {
        self.peak
    }

    /// Whether every admitted unit has finished.
    pub fn is_drained(&self) -> (r: bool)
        ensures
            r == (self.spec_active() == 0),
    {
        self.active == 0
    }
}

/// However the units come and go, no more than `limit` are ever active at
/// once: in every consistent state both the active count and the peak are
/// within the limit.
pub proof fn lemma_active_within_limit(c: ConcurrencyController)
    requires
        c.wf(),
    ensures
        0 <= c.spec_active() <= c.spec_peak() <= c.spec_limit(),
{
}

} // verus!
