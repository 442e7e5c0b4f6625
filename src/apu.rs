//! The integer state of the sound channels: their registers and the
//! length, envelope, sweep and noise units that the frame sequencer
//! steps. The synthesis into samples is left to the caller.
use vstd::prelude::*;
use crate::clock::Clock;
use vstd::arithmetic::power2::{lemma2_to64, lemma_pow2_adds, pow2};

verus! {

#[derive(Clone, Copy, PartialEq, Eq, Structural, Debug)]
pub enum Channel {
    Square1,
    Square2,
    Wave,
    Noise,
    Mixer,
}

/// The five registers NRx0 to NRx4 of one channel (or of the mixer).
pub struct Register {
    pub channel: Channel,
    pub nrx0: u8,
    pub nrx1: u8,
    pub nrx2: u8,
    pub nrx3: u8,
    pub nrx4: u8,
}

impl Register {
    pub open spec fn frequency(&self) -> u16 {
        ((self.nrx4 % 8) as int * 256 + self.nrx3) as u16
    }

    pub open spec fn trigger(&self) -> bool {
        self.nrx4 >= 0x80
    }

    pub open spec fn length_enable(&self) -> bool {
        (self.nrx4 / 64) % 2 == 1
    }

    pub open spec fn sweep_period(&self) -> u8 {
        (self.nrx0 / 16) % 8
    }

    pub open spec fn shift(&self) -> u8 {
        self.nrx0 % 8
    }

    pub open spec fn negate(&self) -> bool {
        (self.nrx0 / 8) % 2 == 1
    }

    pub open spec fn envelope_period(&self) -> u8 {
        self.nrx2 % 8
    }

    pub fn power_up(channel: Channel) -> (r: Self)
        ensures
            r.channel == channel,
            r.nrx0 == 0 && r.nrx2 == 0 && r.nrx3 == 0 && r.nrx4 == 0,
            r.nrx1 == if channel == Channel::Square1 || channel == Channel::Square2 { 0x40u8 } else { 0x00u8 },
    {
        let nrx1 = match channel {
            Channel::Square1 | Channel::Square2 => 0x40,
            _ => 0x00,
        };
        Self { channel, nrx0: 0x00, nrx1, nrx2: 0x00, nrx3: 0x00, nrx4: 0x00 }
    }

    pub fn get_sweep_period(&self) -> (r: u8)
        ensures
            r == self.sweep_period(),
    {
        (self.nrx0 / 16) % 8
    }

    pub fn get_negate(&self) -> (r: bool)
        ensures
            r == self.negate(),
    {
        (self.nrx0 / 8) % 2 == 1
    }

    pub fn get_shift(&self) -> (r: u8)
        ensures
            r == self.shift(),
    {
        self.nrx0 % 8
    }

    pub fn get_dac_power(&self) -> (r: bool)
        ensures
            r == (self.nrx0 >= 0x80),
    {
        self.nrx0 >= 0x80
    }

    pub fn get_duty(&self) -> (r: u8)
        ensures
            r == self.nrx1 / 64,
    {
        self.nrx1 / 64
    }

    /// The length counter's load: 256 minus NR31 for the wave channel, 64
    /// minus the low six bits of NRx1 for the others.
    pub fn get_length_load(&self) -> (r: u16)
        ensures
            r == if self.channel == Channel::Wave { 256 - self.nrx1 } else { 64 - self.nrx1 % 64 },
    {
        if self.channel == Channel::Wave {
            256 - self.nrx1 as u16
        } else {
            64 - (self.nrx1 % 64) as u16
        }
    }

    pub fn get_starting_volume(&self) -> (r: u8)
        ensures
            r == self.nrx2 / 16,
    {
        self.nrx2 / 16
    }

    pub fn get_volume_code(&self) -> (r: u8)
        ensures
            r == (self.nrx2 / 32) % 4,
    {
        (self.nrx2 / 32) % 4
    }

    pub fn get_envelope_add_mode(&self) -> (r: bool)
        ensures
            r == ((self.nrx2 / 8) % 2 == 1),
    {
        (self.nrx2 / 8) % 2 == 1
    }

    pub fn get_period(&self) -> (r: u8)
        ensures
            r == self.envelope_period(),
    {
        self.nrx2 % 8
    }

    /// The 11-bit frequency: the low three bits of NRx4 over NRx3.
    pub fn get_frequency(&self) -> (r: u16)
        ensures
            r == self.frequency(),
            r < 2048,
    {
        (self.nrx4 % 8) as u16 * 256 + self.nrx3 as u16
    }

    pub fn set_frequency(&mut self, f: u16)
        ensures
            final(self).frequency() == f % 2048,
            final(self).nrx4 / 8 == old(self).nrx4 / 8,
            final(self).channel == old(self).channel,
            final(self).nrx0 == old(self).nrx0 && final(self).nrx1 == old(self).nrx1 && final(self).nrx2 == old(
                self,
            ).nrx2,
    {
        self.nrx4 = self.nrx4 / 8 * 8 + ((f / 256) % 8) as u8;
        self.nrx3 = (f % 256) as u8;
    }

    pub fn get_clock_shift(&self) -> (r: u8)
        ensures
            r == self.nrx3 / 16,
    {
        self.nrx3 / 16
    }

    pub fn get_width_mode(&self) -> (r: bool)
        ensures
            r == ((self.nrx3 / 8) % 2 == 1),
    {
        (self.nrx3 / 8) % 2 == 1
    }

    pub fn get_dividor(&self) -> (r: u8)
        ensures
            r == self.nrx3 % 8,
    {
        self.nrx3 % 8
    }

    pub fn get_trigger(&self) -> (r: bool)
        ensures
            r == self.trigger(),
    {
        self.nrx4 >= 0x80
    }

    pub fn set_trigger(&mut self, b: bool)
        ensures
            final(self).trigger() == b,
            final(self).nrx4 % 128 == old(self).nrx4 % 128,
            *final(self) == (Register { nrx4: final(self).nrx4, ..*old(self) }),
    {
        self.nrx4 = self.nrx4 % 128 + if b { 0x80 } else { 0x00 };
    }

    pub fn get_length_enable(&self) -> (r: bool)
        ensures
            r == self.length_enable(),
    {
        (self.nrx4 / 64) % 2 == 1
    }

    /// The left output volume of the mixer.
    pub fn get_l(&self) -> (r: u8)
        ensures
            r == (self.nrx0 / 16) % 8,
    {
        (self.nrx0 / 16) % 8
    }

    /// The right output volume of the mixer.
    pub fn get_r(&self) -> (r: u8)
        ensures
            r == self.nrx0 % 8,
    {
        self.nrx0 % 8
    }

    pub fn get_power(&self) -> (r: bool)
        ensures
            r == (self.nrx2 >= 0x80),
    {
        self.nrx2 >= 0x80
    }
}

/// The cycles between two steps of a channel's waveform: from the
/// frequency for the square and wave channels, from the divisor and the
/// clock shift for the noise channel.
pub open spec fn period_of(reg: Register) -> u32 {
    match reg.channel {
        Channel::Square1 | Channel::Square2 => ((2048 - reg.frequency()) * 4) as u32,
        Channel::Wave => ((2048 - reg.frequency()) * 2) as u32,
        _ => {
            let d = reg.nrx3 % 8;
            let base: int = if d == 0 { 8 } else { d * 16 };
            (base * pow2((reg.nrx3 / 16) as nat)) as u32
        },
    }
}

pub fn period(reg: &Register) -> (r: u32)
    ensures
        r == period_of(*reg),
        r >= 1,
{
    match reg.channel {
        Channel::Square1 | Channel::Square2 => {
            let f = reg.get_frequency() as u32;
            (2048 - f) * 4
        },
        Channel::Wave => {
            let f = reg.get_frequency() as u32;
            (2048 - f) * 2
        },
        _ => {
            let d = reg.get_dividor();
            let base: u32 = if d == 0 { 8 } else { (d as u32) * 16 };
            let s = reg.get_clock_shift();
            let mut r = base;
            let mut i: u8 = 0;
            proof {
                lemma2_to64();
            }
            while i < s
                invariant
                    i <= s,
                    s < 16,
                    1 <= base <= 112,
                    r == base * pow2(i as nat),
                    1 <= pow2(i as nat) <= 0x8000,
                decreases s - i,
            {
                proof {
                    lemma_pow2_bound(i as nat);
                    assert(base * pow2(i as nat + 1) <= 112 * 0x8000) by (nonlinear_arith)
                        requires
                            base <= 112,
                            pow2(i as nat + 1) <= 0x8000,
                    ;
                    assert(base * pow2(i as nat + 1) == 2 * (base * pow2(i as nat))) by (nonlinear_arith)
                        requires
                            pow2(i as nat + 1) == 2 * pow2(i as nat),
                    ;
                }
                r = r * 2;
                i = i + 1;
            }
            assert(r >= 1) by (nonlinear_arith)
                requires
                    r == base * pow2(i as nat),
                    base >= 1,
                    pow2(i as nat) >= 1,
            ;
            r
        },
    }
}

proof fn lemma_pow2_bound(n: nat)
    requires
        n < 15,
    ensures
        pow2(n + 1) <= 0x8000,
        pow2(n + 1) == 2 * pow2(n),
        pow2(n) >= 1,
{
    lemma2_to64();
    lemma_pow2_adds(n, 1);
}

/// The 512 Hz frame sequencer's step, 0 to 7.
pub struct FrameSequencer {
    pub step: u8,
}

impl FrameSequencer {
    pub fn power_up() -> (r: Self)
        ensures
            r.step == 0,
    {
        Self { step: 0x00 }
    }

    pub fn next(&mut self) -> (r: u8)
        requires
            old(self).step < 8,
        ensures
            r == (old(self).step + 1) % 8,
            final(self).step == r,
    {
        self.step = (self.step + 1) % 8;
        self.step
    }
}

/// Silences a channel after its length runs out.
pub struct LengthCounter {
    pub n: u16,
}

impl LengthCounter {
    pub fn power_up() -> (r: Self)
        ensures
            r.n == 0,
    {
        Self { n: 0x0000 }
    }

    pub fn next(&mut self, reg: &mut Register)
        ensures
            old(reg).length_enable() && old(self).n != 0 ==> final(self).n == old(self).n - 1,
            !(old(reg).length_enable() && old(self).n != 0) ==> final(self).n == old(self).n,
            *final(reg) == if old(reg).length_enable() && old(self).n == 1 {
                Register { nrx4: old(reg).nrx4 % 128, ..*old(reg) }
            } else {
                *old(reg)
            },
    {
        if reg.get_length_enable() && self.n != 0 {
            self.n = self.n - 1;
            if self.n == 0 {
                reg.set_trigger(false);
            }
        }
    }

    pub fn reload(&mut self, reg: &Register)
        ensures
            final(self).n == if old(self).n == 0 {
                if reg.channel == Channel::Wave { 256u16 } else { 64u16 }
            } else {
                old(self).n
            },
    {
        if self.n == 0x0000 {
            self.n = if reg.channel == Channel::Wave { 256 } else { 64 };
        }
    }
}

/// Raises or lowers the volume every envelope period.
pub struct VolumeEnvelope {
    pub timer: Clock,
    pub volume: u8,
}

impl VolumeEnvelope {
    pub open spec fn wf(&self) -> bool {
        self.timer.wf() && self.volume <= 15
    }

    pub fn power_up() -> (r: Self)
        ensures
            r.wf(),
            r.volume == 0,
            r.timer.period == 8,
    {
        Self { timer: Clock::power_up(8), volume: 0x00 }
    }

    /// One envelope clock: at the end of a period the volume moves one
    /// step up or down, staying within 0 to 15.
    pub fn next(&mut self, reg: &Register)
        requires
            old(self).wf(),
        ensures
            final(self).wf(),
            reg.envelope_period() == 0 ==> *final(self) == *old(self),
    {
        if reg.get_period() == 0 {
            return ;
        }
        if self.timer.next(1) == 0x00 {
            return ;
        }
        let v = if reg.get_envelope_add_mode() {
            self.volume.wrapping_add(1)
        } else {
            self.volume.wrapping_sub(1)
        };
        if v <= 15 {
            self.volume = v;
        }
    }

    pub fn reload(&mut self, reg: &Register)
        requires
            old(self).wf(),
        ensures
            final(self).wf(),
            final(self).timer.period == if reg.envelope_period() == 0 { 8 } else { reg.envelope_period() as u32 },
            final(self).volume == reg.nrx2 / 16,
    {
        let p = reg.get_period();
        self.timer.period = if p == 0 { 8 } else { p as u32 };
        self.timer.n = 0;
        self.volume = reg.get_starting_volume();
    }
}

/// The frequency sweep of the first square channel.
pub struct FrequencySweep {
    pub timer: Clock,
    pub enable: bool,
    pub shadow: u16,
    pub newfeq: u16,
}

impl FrequencySweep {
    pub open spec fn wf(&self) -> bool {
        self.timer.wf()
    }

    pub open spec fn calc(shadow: u16, reg: Register) -> u16 {
        let offset = shadow as int / pow2(reg.shift() as nat) as int;
        if reg.negate() {
            ((shadow - offset + 65536) % 65536) as u16
        } else {
            ((shadow + offset) % 65536) as u16
        }
    }

    pub fn power_up() -> (r: Self)
        ensures
            r.wf(),
            !r.enable,
            r.shadow == 0 && r.newfeq == 0,
    {
        Self { timer: Clock::power_up(8), enable: false, shadow: 0x0000, newfeq: 0x0000 }
    }

    /// One sweep clock: at the end of a period a new frequency is
    /// computed; it replaces the channel's if it is in range and the shift
    /// is not zero, and an overflow silences the channel.
    pub fn next(&mut self, reg: &mut Register)
        requires
            old(self).wf(),
        ensures
            final(self).wf(),
            final(reg).channel == old(reg).channel,
            !old(self).enable || old(reg).sweep_period() == 0 ==> *final(self) == *old(self) && *final(reg) == *old(
                reg,
            ),
    {
        if !self.enable || reg.get_sweep_period() == 0 {
            return ;
        }
        if self.timer.next(1) == 0x00 {
            return ;
        }
        self.frequency_calc(reg);
        self.overflow_check(reg);
        if self.newfeq < 2048 && reg.get_shift() != 0 {
            reg.set_frequency(self.newfeq);
            self.shadow = self.newfeq;
            self.frequency_calc(reg);
            self.overflow_check(reg);
        }
    }

    /// The next frequency: the shadow frequency plus or minus itself
    /// shifted right by the sweep shift.
    pub fn frequency_calc(&mut self, reg: &Register)
        ensures
            final(self).newfeq == FrequencySweep::calc(old(self).shadow, *reg),
            *final(self) == (FrequencySweep { newfeq: final(self).newfeq, ..*old(self) }),
    {
        let s = reg.get_shift();
        let mut offset = self.shadow;
        let mut i: u8 = 0;
        proof {
            lemma2_to64();
        }
        while i < s
            invariant
                i <= s,
                s < 8,
                offset == self.shadow as int / pow2(i as nat) as int,
                pow2(i as nat) > 0,
            decreases s - i,
        {
            proof {
                lemma_div_twice(self.shadow as nat, pow2(i as nat));
                lemma_pow2_adds(i as nat, 1);
                lemma2_to64();
            }
            offset = offset / 2;
            i = i + 1;
        }
        if reg.get_negate() {
            self.newfeq = self.shadow.wrapping_sub(offset);
        } else {
            self.newfeq = self.shadow.wrapping_add(offset);
        }
    }

    /// A new frequency past 11 bits silences the channel.
    pub fn overflow_check(&self, reg: &mut Register)
        ensures
            self.newfeq >= 2048 ==> *final(reg) == (Register { nrx4: old(reg).nrx4 % 128, ..*old(reg) }),
            self.newfeq < 2048 ==> *final(reg) == *old(reg),
    {
        if self.newfeq >= 2048 {
            reg.set_trigger(false);
        }
    }

    pub fn reload(&mut self, reg: &mut Register)
        requires
            old(self).wf(),
        ensures
            final(self).wf(),
            final(self).shadow == old(reg).frequency(),
            final(self).enable == (old(reg).sweep_period() != 0 || old(reg).shift() != 0),
            final(reg).channel == old(reg).channel,
    {
        self.shadow = reg.get_frequency();
        let p = reg.get_sweep_period();
        self.timer.period = if p == 0 { 8 } else { p as u32 };
        self.timer.n = 0;
        self.enable = p != 0x00 || reg.get_shift() != 0x00;
        if reg.get_shift() != 0x00 {
            self.frequency_calc(reg);
            self.overflow_check(reg);
        }
    }
}

proof fn lemma_div_twice(x: nat, p: nat)
    requires
        p > 0,
    ensures
        x / p / 2 == x / (2 * p),
{
    vstd::arithmetic::div_mod::lemma_div_denominator(x as int, p as int, 2);
}

/// The noise channel's linear-feedback shift register.
pub struct Lfsr {
    pub n: u16,
}

impl Lfsr {
    pub fn power_up() -> (r: Self)
        ensures
            r.n == 1,
    {
        Self { n: 0x0001 }
    }

    /// Shifts the register once; the feedback is the exclusive-or of the
    /// two bits at the tap, which the width mode puts at 6 or 14. Returns
    /// the bit that left the tap.
    pub fn next(&mut self, reg: &Register) -> (r: bool)
        ensures
            ({
                let s: u16 = if reg.get_width_mode_spec() { 6 } else { 14 };
                let shifted = ((old(self).n as int * 2) % 65536) as u16;
                &&& r == ((old(self).n >> s) % 2 == 1)
                &&& final(self).n == shifted | (((old(self).n >> s) ^ (shifted >> s)) % 2)
            }),
    {
        let s: u16 = if reg.get_width_mode() { 6 } else { 14 };
        let src = self.n;
        let shifted = ((src as u32 * 2) % 65536) as u16;
        let bit = ((src >> s) ^ (shifted >> s)) % 2;
        self.n = shifted | bit;
        (src >> s) % 2 == 1
    }

    pub fn reload(&mut self)
        ensures
            final(self).n == 1,
    {
        self.n = 0x0001;
    }
}

impl Register {
    pub open spec fn get_width_mode_spec(&self) -> bool {
        (self.nrx3 / 8) % 2 == 1
    }
}

} // verus!
