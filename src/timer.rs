//! The divider and the programmable timer.
use vstd::prelude::*;
use crate::clock::Clock;
use crate::intf::{Flags, Intf};

verus! {

/// The cycles per timer tick that the low two bits of TAC select.
pub open spec fn tac_period(v: u8) -> u32 {
    if v % 4 == 0 {
        1024
    } else if v % 4 == 1 {
        16
    } else if v % 4 == 2 {
        64
    } else {
        256
    }
}

/// TIMA after `k` ticks, and whether it overflowed on one of them (it is
/// then reloaded from TMA).
pub open spec fn tima_run(tima: u8, tma: u8, k: nat) -> (u8, bool)
    decreases k,
{
    if k == 0 {
        (tima, false)
    } else {
        let (t, fired) = tima_run(tima, tma, (k - 1) as nat);
        if t == 255 {
            (tma, true)
        } else {
            ((t + 1) as u8, fired)
        }
    }
}

pub struct Timer {
    pub div: u8,
    pub tima: u8,
    pub tma: u8,
    pub tac: u8,
    pub div_clock: Clock,
    pub tma_clock: Clock,
}

impl Timer {
    pub open spec fn wf(&self) -> bool {
        &&& self.div_clock.wf()
        &&& self.div_clock.period == 256
        &&& self.tma_clock.wf()
        &&& self.tma_clock.period == tac_period(self.tac)
    }

    pub open spec fn read(&self, a: u16) -> u8 {
        if a == 0xFF04 {
            self.div
        } else if a == 0xFF05 {
            self.tima
        } else if a == 0xFF06 {
            self.tma
        } else {
            self.tac
        }
    }

    /// What a write of `v` to register `a` leaves: DIV resets to zero, a
    /// TAC with a new rate restarts the timer from TMA.
    pub open spec fn set_post(&self, old: &Timer, a: u16, v: u8) -> bool {
        &&& self.wf()
        &&& a == 0xFF04 ==> self.div == 0 && self.div_clock.n == 0
        &&& a == 0xFF05 ==> self.tima == v
        &&& a == 0xFF06 ==> self.tma == v
        &&& a == 0xFF07 ==> self.tac == v && (old.tac % 4 != v % 4 ==> self.tima == old.tma && self.tma_clock.n
            == 0)
        &&& (a == 0xFF07 && old.tac % 4 == v % 4) ==> self.tima == old.tima
        &&& (a != 0xFF05 && a != 0xFF07) ==> self.tima == old.tima
        &&& a != 0xFF06 ==> self.tma == old.tma
        &&& a != 0xFF07 ==> self.tac == old.tac
        &&& a != 0xFF04 ==> self.div == old.div
    }

    pub fn power_up() -> (r: Self)
        ensures
            r.wf(),
            r.div == 0 && r.tima == 0 && r.tma == 0 && r.tac == 0,
    {
        Timer { div: 0, tima: 0, tma: 0, tac: 0, div_clock: Clock::power_up(256), tma_clock: Clock::power_up(1024) }
    }

    pub fn get(&self, a: u16) -> (r: u8)
        requires
            0xFF04 <= a <= 0xFF07,
        ensures
            r == self.read(a),
    {
        match a {
            0xFF04 => self.div,
            0xFF05 => self.tima,
            0xFF06 => self.tma,
            _ => self.tac,
        }
    }

    /// Writes a register: DIV resets to zero, TAC with a new rate restarts
    /// the timer from TMA.
    pub fn set(&mut self, a: u16, v: u8)
        requires
            old(self).wf(),
            0xFF04 <= a <= 0xFF07,
        ensures
            final(self).set_post(old(self), a, v),
    {
        match a {
            0xFF04 => {
                self.div = 0x00;
                self.div_clock.n = 0x00;
            },
            0xFF05 => self.tima = v,
            0xFF06 => self.tma = v,
            _ => {
                if self.tac % 4 != v % 4 {
                    self.tma_clock.n = 0x00;
                    self.tma_clock.period = match v % 4 {
                        0x00 => 1024,
                        0x01 => 16,
                        0x02 => 64,
                        _ => 256,
                    };
                    self.tima = self.tma;
                }
                self.tac = v;
            },
        }
    }

    /// Advances both counters by `cycles`; an overflow of TIMA reloads it
    /// from TMA and raises the timer interrupt.
    pub fn next(&mut self, cycles: u32, intf: &mut Intf)
        requires
            old(self).wf(),
        ensures
            final(self).wf(),
            final(self).div == (old(self).div + (old(self).div_clock.n + cycles) / 256 % 256) % 256,
            final(self).tma == old(self).tma,
            final(self).tac == old(self).tac,
            old(self).tac & 0x04 == 0 ==> final(self).tima == old(self).tima && final(intf).data == old(intf).data,
            old(self).tac & 0x04 != 0 ==> ({
                let (t, fired) = tima_run(
                    old(self).tima,
                    old(self).tma,
                    ((old(self).tma_clock.n + cycles) / old(self).tma_clock.period as int) as nat,
                );
                &&& final(self).tima == t
                &&& final(intf).data == if fired { old(intf).data | 0x04 } else { old(intf).data }
            }),
    {
        let ticks = self.div_clock.next(cycles);
        self.div = ((self.div as u32 + ticks % 256) % 256) as u8;
        if (self.tac & 0x04) != 0x00 {
            let n = self.tma_clock.next(cycles);
            let tma = self.tma;
            let mut tima = self.tima;
            let mut fired = false;
            let mut i: u32 = 0;
            while i < n
                invariant
                    i <= n,
                    (tima, fired) == tima_run(old(self).tima, tma, i as nat),
                decreases n - i,
            {
                if tima == 255 {
                    tima = tma;
                    fired = true;
                } else {
                    tima = tima + 1;
                }
                i = i + 1;
            }
            self.tima = tima;
            if fired {
                intf.hi(Flags::Timer);
            }
        }
    }
}

} // verus!
