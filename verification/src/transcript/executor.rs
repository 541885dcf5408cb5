//! A counting-permit limiter that caps how many operations of one stage run at once.

use vstd::prelude::*;

verus! {

/// The permit counter of one stage: `max` permits, of which `running` are held.
pub struct StageExecutor {
    max: usize,
    running: usize,
}

impl StageExecutor {
    /// The number of permits of the stage.
    pub closed spec fn limit(&self) -> nat {
        self.max as nat
    }

    /// The number of permits that operations hold right now.
    pub closed spec fn in_use(&self) -> nat {
        self.running as nat
    }

    /// No more permits are held than the stage has.
    pub open spec fn wf(&self) -> bool {
        self.in_use() <= self.limit()
    }

    /// A stage with `max` permits, none of them held.
    pub fn new(max: usize) -> (stage: Self)
        ensures
            stage.wf(),
            stage.limit() == max,
            stage.in_use() == 0,
    {
        StageExecutor { max, running: 0 }
    }

    /// The configured maximum.
    pub fn max_jobs(&self) -> (n: usize)
        ensures
            n == self.limit(),
    {
        self.max
    }

    /// How many operations hold a permit.
    pub fn active(&self) -> (n: usize)
        ensures
            n == self.in_use(),
    {
        self.running
    }

    /// How many permits are free.
    pub fn available(&self) -> (n: usize)
        requires
            self.wf(),
        ensures
            n == self.limit() - self.in_use(),
    {
        self.max - self.running
    }

    /// Takes a permit if one is free, and says whether it did.
    pub fn try_acquire(&mut self) -> (granted: bool)
        requires
            old(self).wf(),
        ensures
            final(self).wf(),
            final(self).limit() == old(self).limit(),
            granted <==> old(self).in_use() < old(self).limit(),
            granted ==> final(self).in_use() == old(self).in_use() + 1,
            !granted ==> final(self).in_use() == old(self).in_use(),
    {
        if self.running < self.max {
            self.running = self.running + 1;
            true
        } else {
            false
        }
    }

    /// Gives one held permit back, and says whether one was held.
    pub fn release(&mut self) -> (released: bool)
        requires
            old(self).wf(),
        ensures
            final(self).wf(),
            final(self).limit() == old(self).limit(),
            released == (old(self).in_use() > 0),
            released ==> final(self).in_use() == old(self).in_use() - 1,
            !released ==> final(self).in_use() == old(self).in_use(),
    {
        if self.running > 0 {
            self.running = self.running - 1;
            true
        } else {
            false
        }
    }
}

} // verus!
