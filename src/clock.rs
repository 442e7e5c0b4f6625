//! A periodic counter that turns elapsed cycles into ticks.
use vstd::prelude::*;

verus! {

pub struct Clock {
    /// Cycles per tick.
    pub period: u32,
    /// Cycles counted towards the next tick.
    pub n: u32,
}

impl Clock {
    pub open spec fn wf(&self) -> bool {
        1 <= self.period && self.n < self.period
    }

    pub fn power_up(period: u32) -> (r: Self)
        requires
            1 <= period,
        ensures
            r.wf(),
            r.period == period,
            r.n == 0,
    {
        Self { period, n: 0 }
    }

    /// Counts `cycles` more cycles and returns the ticks completed.
    pub fn next(&mut self, cycles: u32) -> (r: u32)
        requires
            old(self).wf(),
        ensures
            final(self).wf(),
            final(self).period == old(self).period,
            r == (old(self).n + cycles) / old(self).period as int,
            final(self).n == (old(self).n + cycles) % old(self).period as int,
    {
        let total = self.n as u64 + cycles as u64;
        let p = self.period as u64;
        let ticks = total / p;
        assert(ticks <= 0xFFFF_FFFF) by (nonlinear_arith)
            requires
                ticks == total / p,
                total <= 0xFFFF_FFFF + p - 1,
                p >= 1,
        {
            assert(ticks * p <= total);
            assert((ticks - 1) * p <= 0xFFFF_FFFE);
        }
        self.n = (total % p) as u32;
        ticks as u32
    }
}

} // verus!
