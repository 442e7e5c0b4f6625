//! The instruction interpreter: ALU helpers, interrupt dispatch, the
//! opcode tables and the step function.
use vstd::prelude::*;
use crate::alu::{
    add16_result, bit, add_carry, add_half, add_result, daa_high, daa_result, inc_result, dec_result,
    offset, rotl_result, rotr_result, sub_carry, sub_half, sub_result, swap_result,
};
use crate::registers::{Register, Term};
use crate::registers::Flags::{CarryFlag, HalfCarryFlag, SubtractionFlag, ZeroFlag};
use crate::bits::{lemma_high_page, word};
use crate::mmunit::{is_hram, is_sound, is_wram, lemma_word_round_trip, Mmunit, Sound};

verus! {

pub struct Cpu {
    pub reg: Register,
    pub halted: bool,
    /// The global interrupt-enable flag.
    pub ei: bool,
}

impl Cpu {
    pub open spec fn wf(&self) -> bool {
        self.reg.wf()
    }

    /// The registers hold `a` in A and the four flags, everything else is
    /// as in `old`.
    pub open spec fn alu_done(&self, old: Cpu, a: u8, z: bool, n: bool, h: bool, c: bool) -> bool {
        &&& self.reg.wf()
        &&& self.reg.a_reg == a
        &&& self.reg.has_flags(z, n, h, c)
        &&& self.reg.same_but_af(old.reg)
        &&& self.halted == old.halted
        &&& self.ei == old.ei
    }

    pub open spec fn cf(&self) -> bool {
        self.reg.flag(CarryFlag)
    }

    pub open spec fn zf(&self) -> bool {
        self.reg.flag(ZeroFlag)
    }

    pub open spec fn nf(&self) -> bool {
        self.reg.flag(SubtractionFlag)
    }

    pub open spec fn hf(&self) -> bool {
        self.reg.flag(HalfCarryFlag)
    }

    /// Sets all four flags at once.
    fn set_flags(&mut self, z: bool, n: bool, h: bool, c: bool)
        requires
            old(self).wf(),
        ensures
            final(self).alu_done(*old(self), old(self).reg.a_reg, z, n, h, c),
    {
        self.reg.set_flag(CarryFlag, c);
        self.reg.set_flag(HalfCarryFlag, h);
        self.reg.set_flag(SubtractionFlag, n);
        self.reg.set_flag(ZeroFlag, z);
    }

    /// Adds a byte to A.
    pub fn alu_add(&mut self, value: u8)
        requires
            old(self).wf(),
        ensures
            ({
                let (a, r) = (old(self).reg.a_reg, add_result(old(self).reg.a_reg, value, false));
                final(self).alu_done(*old(self), r, r == 0, false, add_half(a, value, false), add_carry(a, value, false))
            }),
    {
        let a = self.reg.a_reg;
        let r = a.wrapping_add(value);
        self.set_flags(r == 0x00, false, a % 16 + value % 16 > 15, a as u16 + value as u16 > 0xFF);
        self.reg.a_reg = r;
    }

    /// Adds a byte and the carry flag to A.
    pub fn alu_adc(&mut self, value: u8)
        requires
            old(self).wf(),
        ensures
            ({
                let (a, cin) = (old(self).reg.a_reg, old(self).cf());
                let r = add_result(a, value, cin);
                final(self).alu_done(*old(self), r, r == 0, false, add_half(a, value, cin), add_carry(a, value, cin))
            }),
    {
        let a = self.reg.a_reg;
        let c: u8 = if self.reg.get_flag(CarryFlag) { 1 } else { 0 };
        let r = a.wrapping_add(value).wrapping_add(c);
        self.set_flags(
            r == 0x00,
            false,
            a % 16 + value % 16 + c > 15,
            a as u16 + value as u16 + c as u16 > 0xFF,
        );
        self.reg.a_reg = r;
    }

    /// Subtracts a byte from A.
    pub fn alu_sub(&mut self, value: u8)
        requires
            old(self).wf(),
        ensures
            ({
                let (a, r) = (old(self).reg.a_reg, sub_result(old(self).reg.a_reg, value, false));
                final(self).alu_done(*old(self), r, r == 0, true, sub_half(a, value, false), sub_carry(a, value, false))
            }),
    {
        let a = self.reg.a_reg;
        let r = a.wrapping_sub(value);
        self.set_flags(r == 0x00, true, a % 16 < value % 16, a < value);
        self.reg.a_reg = r;
    }

    /// Subtracts a byte and the carry flag from A.
    pub fn alu_sbc(&mut self, value: u8)
        requires
            old(self).wf(),
        ensures
            ({
                let (a, cin) = (old(self).reg.a_reg, old(self).cf());
                let r = sub_result(a, value, cin);
                final(self).alu_done(*old(self), r, r == 0, true, sub_half(a, value, cin), sub_carry(a, value, cin))
            }),
    {
        let a = self.reg.a_reg;
        let c: u8 = if self.reg.get_flag(CarryFlag) { 1 } else { 0 };
        let r = a.wrapping_sub(value).wrapping_sub(c);
        self.set_flags(r == 0x00, true, a % 16 < value % 16 + c, (a as u16) < value as u16 + c as u16);
        self.reg.a_reg = r;
    }

    /// A becomes A and the byte.
    pub fn alu_and(&mut self, value: u8)
        requires
            old(self).wf(),
        ensures
            final(self).alu_done(*old(self), old(self).reg.a_reg & value, old(self).reg.a_reg & value == 0, false, true, false),
    {
        let r = self.reg.a_reg & value;
        self.set_flags(r == 0x00, false, true, false);
        self.reg.a_reg = r;
    }

    /// A becomes A exclusive-or the byte.
    pub fn alu_xor(&mut self, value: u8)
        requires
            old(self).wf(),
        ensures
            final(self).alu_done(*old(self), old(self).reg.a_reg ^ value, old(self).reg.a_reg ^ value == 0, false, false, false),
    {
        let r = self.reg.a_reg ^ value;
        self.set_flags(r == 0x00, false, false, false);
        self.reg.a_reg = r;
    }

    /// A becomes A or the byte.
    pub fn alu_or(&mut self, value: u8)
        requires
            old(self).wf(),
        ensures
            final(self).alu_done(*old(self), old(self).reg.a_reg | value, old(self).reg.a_reg | value == 0, false, false, false),
    {
        let r = self.reg.a_reg | value;
        self.set_flags(r == 0x00, false, false, false);
        self.reg.a_reg = r;
    }

    /// Compares A with a byte: the flags of a subtraction, A unchanged.
    pub fn alu_cp(&mut self, value: u8)
        requires
            old(self).wf(),
        ensures
            ({
                let a = old(self).reg.a_reg;
                final(self).alu_done(*old(self), a, sub_result(a, value, false) == 0, true, sub_half(a, value, false), sub_carry(a, value, false))
            }),
    {
        let r = self.reg.a_reg;
        self.alu_sub(value);
        self.reg.a_reg = r;
    }

    /// Increments a byte; the carry flag stays.
    pub fn alu_inc(&mut self, value: u8) -> (r: u8)
        requires
            old(self).wf(),
        ensures
            r == inc_result(value),
            final(self).alu_done(*old(self), old(self).reg.a_reg, r == 0, false, value % 16 == 15, old(self).cf()),
    {
        let r = value.wrapping_add(1);
        let c = self.reg.get_flag(CarryFlag);
        self.set_flags(r == 0x00, false, value % 16 == 15, c);
        r
    }

    /// Decrements a byte; the carry flag stays.
    pub fn alu_dec(&mut self, value: u8) -> (r: u8)
        requires
            old(self).wf(),
        ensures
            r == dec_result(value),
            final(self).alu_done(*old(self), old(self).reg.a_reg, r == 0, true, value % 16 == 0, old(self).cf()),
    {
        let r = value.wrapping_sub(1);
        let c = self.reg.get_flag(CarryFlag);
        self.set_flags(r == 0x00, true, value % 16 == 0, c);
        r
    }

    /// Adds a word to HL; the zero flag stays.
    pub fn alu_add_hl(&mut self, value: u16)
        requires
            old(self).wf(),
        ensures
            ({
                let hl = old(self).reg.hl();
                let o = *old(self);
                &&& final(self).reg.hl() == add16_result(hl, value)
                &&& final(self).reg.has_flags(o.zf(), false, hl % 4096 + value % 4096 > 4095, hl + value > 65535)
                &&& final(self).reg.wf()
                &&& final(self).reg.a_reg == o.reg.a_reg
                &&& final(self).reg.bc() == o.reg.bc()
                &&& final(self).reg.de() == o.reg.de()
                &&& final(self).reg.stack_pointer == o.reg.stack_pointer
                &&& final(self).reg.program_counter == o.reg.program_counter
                &&& final(self).halted == o.halted
                &&& final(self).ei == o.ei
            }),
    {
        let a = self.reg.parse_hl();
        let r = a.wrapping_add(value);
        let z = self.reg.get_flag(ZeroFlag);
        self.set_flags(z, false, a % 4096 + value % 4096 > 4095, a as u32 + value as u32 > 0xFFFF);
        self.reg.set_hl(r);
    }

    /// Sets the flags of adding a signed byte to the stack pointer and
    /// returns the sum; the flags come from the unsigned low byte.
    pub fn sp_offset(&mut self, value: u8) -> (r: u16)
        requires
            old(self).wf(),
        ensures
            ({
                let sp = old(self).reg.stack_pointer;
                &&& r == offset(sp, value)
                &&& final(self).alu_done(*old(self), old(self).reg.a_reg, false, false, sp % 16 + value % 16 > 15, sp % 256 + value > 255)
            }),
    {
        let sp = self.reg.stack_pointer;
        self.set_flags(false, false, sp % 16 + (value % 16) as u16 > 15, sp % 256 + value as u16 > 255);
        if value < 128 {
            sp.wrapping_add(value as u16)
        } else {
            sp.wrapping_sub(256 - value as u16)
        }
    }

    /// Swaps the nibbles of a byte.
    pub fn alu_swap(&mut self, value: u8) -> (r: u8)
        requires
            old(self).wf(),
        ensures
            r == swap_result(value),
            final(self).alu_done(*old(self), old(self).reg.a_reg, value == 0, false, false, false),
    {
        self.set_flags(value == 0x00, false, false, false);
        value / 16 + (value % 16) * 16
    }

    /// Decimal-adjusts A after an addition or a subtraction of two
    /// binary-coded decimals.
    pub fn alu_daa(&mut self)
        requires
            old(self).wf(),
        ensures
            ({
                let o = *old(self);
                let r = daa_result(o.reg.a_reg, o.nf(), o.hf(), o.cf());
                final(self).alu_done(o, r, r == 0, o.nf(), false, daa_high(o.reg.a_reg, o.nf(), o.cf()))
            }),
    {
        let a = self.reg.a_reg;
        let n = self.reg.get_flag(SubtractionFlag);
        let low = self.reg.get_flag(HalfCarryFlag) || (!n && a % 16 > 9);
        let high = self.reg.get_flag(CarryFlag) || (!n && a > 0x99);
        let adjust: u8 = (if low { 0x06 } else { 0x00 }) + (if high { 0x60 } else { 0x00 });
        assert(adjust == 6 * bit(low) + 0x60 * bit(high));
        let r = if n { a.wrapping_sub(adjust) } else { a.wrapping_add(adjust) };
        assert(r == daa_result(a, n, old(self).hf(), old(self).cf()));
        self.set_flags(r == 0x00, n, false, high);
        self.reg.a_reg = r;
    }

    /// Complements A.
    pub fn alu_cpl(&mut self)
        requires
            old(self).wf(),
        ensures
            final(self).alu_done(*old(self), (255 - old(self).reg.a_reg) as u8, old(self).zf(), true, true, old(self).cf()),
    {
        let z = self.reg.get_flag(ZeroFlag);
        let c = self.reg.get_flag(CarryFlag);
        self.set_flags(z, true, true, c);
        self.reg.a_reg = 255 - self.reg.a_reg;
    }

    /// Complements the carry flag.
    pub fn alu_ccf(&mut self)
        requires
            old(self).wf(),
        ensures
            final(self).alu_done(*old(self), old(self).reg.a_reg, old(self).zf(), false, false, !old(self).cf()),
    {
        let z = self.reg.get_flag(ZeroFlag);
        let c = self.reg.get_flag(CarryFlag);
        self.set_flags(z, false, false, !c);
    }

    /// Sets the carry flag.
    pub fn alu_scf(&mut self)
        requires
            old(self).wf(),
        ensures
            final(self).alu_done(*old(self), old(self).reg.a_reg, old(self).zf(), false, false, true),
    {
        let z = self.reg.get_flag(ZeroFlag);
        self.set_flags(z, false, false, true);
    }

    /// Rotates left; bit 7 goes to the carry and to bit 0.
    pub fn alu_rlc(&mut self, value: u8) -> (r: u8)
        requires
            old(self).wf(),
        ensures
            r == rotl_result(value, value >= 128),
            final(self).alu_done(*old(self), old(self).reg.a_reg, r == 0, false, false, value >= 128),
    {
        let c = value >= 128;
        let r = (value % 128) * 2 + if c { 1 } else { 0 };
        assert((value % 128) * 2 == (value * 2) % 256);
        self.set_flags(r == 0x00, false, false, c);
        r
    }

    /// Rotates left through the carry.
    pub fn alu_rl(&mut self, value: u8) -> (r: u8)
        requires
            old(self).wf(),
        ensures
            r == rotl_result(value, old(self).cf()),
            final(self).alu_done(*old(self), old(self).reg.a_reg, r == 0, false, false, value >= 128),
    {
        let c = value >= 128;
        let r = (value % 128) * 2 + if self.reg.get_flag(CarryFlag) { 1 } else { 0 };
        assert((value % 128) * 2 == (value * 2) % 256);
        self.set_flags(r == 0x00, false, false, c);
        r
    }

    /// Rotates right; bit 0 goes to the carry and to bit 7.
    pub fn alu_rrc(&mut self, value: u8) -> (r: u8)
        requires
            old(self).wf(),
        ensures
            r == rotr_result(value, value % 2 == 1),
            final(self).alu_done(*old(self), old(self).reg.a_reg, r == 0, false, false, value % 2 == 1),
    {
        let c = value % 2 == 1;
        let r = value / 2 + if c { 0x80 } else { 0 };
        self.set_flags(r == 0x00, false, false, c);
        r
    }

    /// Rotates right through the carry.
    pub fn alu_rr(&mut self, value: u8) -> (r: u8)
        requires
            old(self).wf(),
        ensures
            r == rotr_result(value, old(self).cf()),
            final(self).alu_done(*old(self), old(self).reg.a_reg, r == 0, false, false, value % 2 == 1),
    {
        let c = value % 2 == 1;
        let r = value / 2 + if self.reg.get_flag(CarryFlag) { 0x80 } else { 0 };
        self.set_flags(r == 0x00, false, false, c);
        r
    }

    /// Shifts left; bit 7 goes to the carry.
    pub fn alu_sla(&mut self, value: u8) -> (r: u8)
        requires
            old(self).wf(),
        ensures
            r == rotl_result(value, false),
            final(self).alu_done(*old(self), old(self).reg.a_reg, r == 0, false, false, value >= 128),
    {
        let c = value >= 128;
        let r = (value % 128) * 2;
        assert((value % 128) * 2 == (value * 2) % 256);
        self.set_flags(r == 0x00, false, false, c);
        r
    }

    /// Shifts right keeping bit 7; bit 0 goes to the carry.
    pub fn alu_sra(&mut self, value: u8) -> (r: u8)
        requires
            old(self).wf(),
        ensures
            r == rotr_result(value, value >= 128),
            final(self).alu_done(*old(self), old(self).reg.a_reg, r == 0, false, false, value % 2 == 1),
    {
        let c = value % 2 == 1;
        let r = value / 2 + if value >= 128 { 0x80 } else { 0 };
        self.set_flags(r == 0x00, false, false, c);
        r
    }

    /// Shifts right; bit 0 goes to the carry, bit 7 becomes zero.
    pub fn alu_srl(&mut self, value: u8) -> (r: u8)
        requires
            old(self).wf(),
        ensures
            r == rotr_result(value, false),
            final(self).alu_done(*old(self), old(self).reg.a_reg, r == 0, false, false, value % 2 == 1),
    {
        let c = value % 2 == 1;
        let r = value / 2;
        self.set_flags(r == 0x00, false, false, c);
        r
    }

    /// Tests a bit: the zero flag tells whether it is clear.
    pub fn alu_bit(&mut self, value: u8, bit: u8)
        requires
            old(self).wf(),
            bit < 8,
        ensures
            final(self).alu_done(*old(self), old(self).reg.a_reg, value & (1u8 << bit) == 0, false, true, old(self).cf()),
    {
        let r = value & (1u8 << bit) == 0x00;
        let c = self.reg.get_flag(CarryFlag);
        self.set_flags(r, false, true, c);
    }

    /// Sets a bit of a byte.
    pub fn alu_set(&self, value: u8, bit: u8) -> (r: u8)
        requires
            bit < 8,
        ensures
            r == value | (1u8 << bit),
    {
        value | (1u8 << bit)
    }

    /// Clears a bit of a byte.
    pub fn alu_res(&self, value: u8, bit: u8) -> (r: u8)
        requires
            bit < 8,
        ensures
            r == value & !(1u8 << bit),
    {
        value & !(1u8 << bit)
    }

    /// Moves the program counter by a signed byte.
    pub fn alu_jr(&mut self, value: u8)
        ensures
            *final(self) == (Cpu {
                reg: Register { program_counter: offset(old(self).reg.program_counter, value), ..old(self).reg },
                ..*old(self)
            }),
    {
        let pc = self.reg.program_counter;
        self.reg.program_counter = if value < 128 {
            pc.wrapping_add(value as u16)
        } else {
            pc.wrapping_sub(256 - value as u16)
        };
    }
}


pub const CLOCK_FREQUENCY: u32 = 4194304;

/// Milliseconds of emulated time between two pacing points.
pub const STEP_TIME: u32 = 16;

/// Clock cycles in `STEP_TIME` milliseconds.
pub const STEP_CYCLES: u32 = 67108;

/// Why the interpreter stopped.
#[derive(Clone, Copy, PartialEq, Eq, Structural, Debug)]
pub enum CpuError {
    /// An opcode that the processor does not define.
    UnsupportedOperation(u8),
}

/// The machine cycles of each primary opcode, branch not taken.
pub open spec fn op_table() -> Seq<u32> {
    seq![
        1u32, 3, 2, 2, 1, 1, 2, 1, 5, 2, 2, 2, 1, 1, 2, 1,
        0, 3, 2, 2, 1, 1, 2, 1, 3, 2, 2, 2, 1, 1, 2, 1,
        2, 3, 2, 2, 1, 1, 2, 1, 2, 2, 2, 2, 1, 1, 2, 1,
        2, 3, 2, 2, 3, 3, 3, 1, 2, 2, 2, 2, 1, 1, 2, 1,
        1, 1, 1, 1, 1, 1, 2, 1, 1, 1, 1, 1, 1, 1, 2, 1,
        1, 1, 1, 1, 1, 1, 2, 1, 1, 1, 1, 1, 1, 1, 2, 1,
        1, 1, 1, 1, 1, 1, 2, 1, 1, 1, 1, 1, 1, 1, 2, 1,
        2, 2, 2, 2, 2, 2, 0, 2, 1, 1, 1, 1, 1, 1, 2, 1,
        1, 1, 1, 1, 1, 1, 2, 1, 1, 1, 1, 1, 1, 1, 2, 1,
        1, 1, 1, 1, 1, 1, 2, 1, 1, 1, 1, 1, 1, 1, 2, 1,
        1, 1, 1, 1, 1, 1, 2, 1, 1, 1, 1, 1, 1, 1, 2, 1,
        1, 1, 1, 1, 1, 1, 2, 1, 1, 1, 1, 1, 1, 1, 2, 1,
        2, 3, 3, 4, 3, 4, 2, 4, 2, 4, 3, 0, 3, 6, 2, 4,
        2, 3, 3, 0, 3, 4, 2, 4, 2, 4, 3, 0, 3, 0, 2, 4,
        3, 3, 2, 0, 0, 4, 2, 4, 4, 1, 4, 0, 0, 0, 2, 4,
        3, 3, 2, 1, 0, 4, 2, 4, 3, 2, 4, 1, 0, 0, 2, 4
    ]
}

/// The machine cycles of each extended (0xCB-prefixed) opcode.
pub open spec fn cb_table() -> Seq<u32> {
    seq![
        2u32, 2, 2, 2, 2, 2, 4, 2, 2, 2, 2, 2, 2, 2, 4, 2,
        2, 2, 2, 2, 2, 2, 4, 2, 2, 2, 2, 2, 2, 2, 4, 2,
        2, 2, 2, 2, 2, 2, 4, 2, 2, 2, 2, 2, 2, 2, 4, 2,
        2, 2, 2, 2, 2, 2, 4, 2, 2, 2, 2, 2, 2, 2, 4, 2,
        2, 2, 2, 2, 2, 2, 3, 2, 2, 2, 2, 2, 2, 2, 3, 2,
        2, 2, 2, 2, 2, 2, 3, 2, 2, 2, 2, 2, 2, 2, 3, 2,
        2, 2, 2, 2, 2, 2, 3, 2, 2, 2, 2, 2, 2, 2, 3, 2,
        2, 2, 2, 2, 2, 2, 3, 2, 2, 2, 2, 2, 2, 2, 3, 2,
        2, 2, 2, 2, 2, 2, 4, 2, 2, 2, 2, 2, 2, 2, 4, 2,
        2, 2, 2, 2, 2, 2, 4, 2, 2, 2, 2, 2, 2, 2, 4, 2,
        2, 2, 2, 2, 2, 2, 4, 2, 2, 2, 2, 2, 2, 2, 4, 2,
        2, 2, 2, 2, 2, 2, 4, 2, 2, 2, 2, 2, 2, 2, 4, 2,
        2, 2, 2, 2, 2, 2, 4, 2, 2, 2, 2, 2, 2, 2, 4, 2,
        2, 2, 2, 2, 2, 2, 4, 2, 2, 2, 2, 2, 2, 2, 4, 2,
        2, 2, 2, 2, 2, 2, 4, 2, 2, 2, 2, 2, 2, 2, 4, 2,
        2, 2, 2, 2, 2, 2, 4, 2, 2, 2, 2, 2, 2, 2, 4, 2
    ]
}

pub fn op_cycles(op: u8) -> (r: u32)
    ensures
        r == op_table()[op as int],
        r <= 6,
{
    let t: [u32; 256] = [
        1, 3, 2, 2, 1, 1, 2, 1, 5, 2, 2, 2, 1, 1, 2, 1,
        0, 3, 2, 2, 1, 1, 2, 1, 3, 2, 2, 2, 1, 1, 2, 1,
        2, 3, 2, 2, 1, 1, 2, 1, 2, 2, 2, 2, 1, 1, 2, 1,
        2, 3, 2, 2, 3, 3, 3, 1, 2, 2, 2, 2, 1, 1, 2, 1,
        1, 1, 1, 1, 1, 1, 2, 1, 1, 1, 1, 1, 1, 1, 2, 1,
        1, 1, 1, 1, 1, 1, 2, 1, 1, 1, 1, 1, 1, 1, 2, 1,
        1, 1, 1, 1, 1, 1, 2, 1, 1, 1, 1, 1, 1, 1, 2, 1,
        2, 2, 2, 2, 2, 2, 0, 2, 1, 1, 1, 1, 1, 1, 2, 1,
        1, 1, 1, 1, 1, 1, 2, 1, 1, 1, 1, 1, 1, 1, 2, 1,
        1, 1, 1, 1, 1, 1, 2, 1, 1, 1, 1, 1, 1, 1, 2, 1,
        1, 1, 1, 1, 1, 1, 2, 1, 1, 1, 1, 1, 1, 1, 2, 1,
        1, 1, 1, 1, 1, 1, 2, 1, 1, 1, 1, 1, 1, 1, 2, 1,
        2, 3, 3, 4, 3, 4, 2, 4, 2, 4, 3, 0, 3, 6, 2, 4,
        2, 3, 3, 0, 3, 4, 2, 4, 2, 4, 3, 0, 3, 0, 2, 4,
        3, 3, 2, 0, 0, 4, 2, 4, 4, 1, 4, 0, 0, 0, 2, 4,
        3, 3, 2, 1, 0, 4, 2, 4, 3, 2, 4, 1, 0, 0, 2, 4
    ];
    assert(t@ =~= op_table());
    let r = t[op as usize];
    assert(r <= 6) by {
        assert(forall|i: int| 0 <= i < 256 ==> #[trigger] t@[i] <= 6);
    }
    r
}

pub fn cb_cycles(op: u8) -> (r: u32)
    ensures
        r == cb_table()[op as int],
        r <= 4,
{
    let t: [u32; 256] = [
        2, 2, 2, 2, 2, 2, 4, 2, 2, 2, 2, 2, 2, 2, 4, 2,
        2, 2, 2, 2, 2, 2, 4, 2, 2, 2, 2, 2, 2, 2, 4, 2,
        2, 2, 2, 2, 2, 2, 4, 2, 2, 2, 2, 2, 2, 2, 4, 2,
        2, 2, 2, 2, 2, 2, 4, 2, 2, 2, 2, 2, 2, 2, 4, 2,
        2, 2, 2, 2, 2, 2, 3, 2, 2, 2, 2, 2, 2, 2, 3, 2,
        2, 2, 2, 2, 2, 2, 3, 2, 2, 2, 2, 2, 2, 2, 3, 2,
        2, 2, 2, 2, 2, 2, 3, 2, 2, 2, 2, 2, 2, 2, 3, 2,
        2, 2, 2, 2, 2, 2, 3, 2, 2, 2, 2, 2, 2, 2, 3, 2,
        2, 2, 2, 2, 2, 2, 4, 2, 2, 2, 2, 2, 2, 2, 4, 2,
        2, 2, 2, 2, 2, 2, 4, 2, 2, 2, 2, 2, 2, 2, 4, 2,
        2, 2, 2, 2, 2, 2, 4, 2, 2, 2, 2, 2, 2, 2, 4, 2,
        2, 2, 2, 2, 2, 2, 4, 2, 2, 2, 2, 2, 2, 2, 4, 2,
        2, 2, 2, 2, 2, 2, 4, 2, 2, 2, 2, 2, 2, 2, 4, 2,
        2, 2, 2, 2, 2, 2, 4, 2, 2, 2, 2, 2, 2, 2, 4, 2,
        2, 2, 2, 2, 2, 2, 4, 2, 2, 2, 2, 2, 2, 2, 4, 2,
        2, 2, 2, 2, 2, 2, 4, 2, 2, 2, 2, 2, 2, 2, 4, 2
    ];
    assert(t@ =~= cb_table());
    let r = t[op as usize];
    assert(r <= 4) by {
        assert(forall|i: int| 0 <= i < 256 ==> #[trigger] t@[i] <= 4);
    }
    r
}

/// The opcodes that the processor leaves undefined.
pub open spec fn illegal(op: u8) -> bool {
    op == 0xD3 || op == 0xDB || op == 0xDD || op == 0xE3 || op == 0xE4 || op == 0xEB || op == 0xEC || op == 0xED
        || op == 0xF4 || op == 0xFC || op == 0xFD
}

/// The condition of a conditional branch, from bits 3 and 4 of its opcode:
/// not zero, zero, not carry, carry.
pub open spec fn condition(op: u8, reg: Register) -> bool {
    let k = (op / 8) % 4;
    if k == 0 {
        !reg.flag(ZeroFlag)
    } else if k == 1 {
        reg.flag(ZeroFlag)
    } else if k == 2 {
        !reg.flag(CarryFlag)
    } else {
        reg.flag(CarryFlag)
    }
}

/// The extra machine cycles of a taken branch.
pub open spec fn extra_cycles(op: u8, reg: Register) -> u32 {
    if !condition(op, reg) {
        0
    } else if op == 0x20 || op == 0x28 || op == 0x30 || op == 0x38 {
        1
    } else if op == 0xC2 || op == 0xCA || op == 0xD2 || op == 0xDA {
        1
    } else if op == 0xC4 || op == 0xCC || op == 0xD4 || op == 0xDC {
        3
    } else if op == 0xC0 || op == 0xC8 || op == 0xD0 || op == 0xD8 {
        3
    } else {
        0
    }
}

/// The machine cycles of an instruction from its first two bytes and the
/// registers before it.
pub open spec fn instr_cycles(op: u8, cb: u8, reg: Register) -> u32 {
    if op == 0xCB {
        cb_table()[cb as int]
    } else {
        (op_table()[op as int] + extra_cycles(op, reg)) as u32
    }
}

/// The bit index of the lowest set bit of `p` from bit `n` on; 8 if none.
pub open spec fn lowest_from(p: u8, n: u8) -> u8
    decreases 8 - n,
{
    if n >= 8 {
        8
    } else if (p >> n) % 2 == 1 {
        n
    } else {
        lowest_from(p, (n + 1) as u8)
    }
}

/// The interrupt line that dispatch serves among the pending lines `p`.
pub open spec fn lowest_bit(p: u8) -> u8 {
    lowest_from(p, 0)
}


/// The value of the byte register with index `i` in the order B, C, D, E,
/// H, L, -, A (index 6 stands for the byte at HL).
pub open spec fn reg8(r: Register, i: u8) -> u8 {
    if i == 0 {
        r.b_reg
    } else if i == 1 {
        r.c_reg
    } else if i == 2 {
        r.d_reg
    } else if i == 3 {
        r.e_reg
    } else if i == 4 {
        r.h_reg
    } else if i == 5 {
        r.l_reg
    } else {
        r.a_reg
    }
}

pub open spec fn with_reg8(r: Register, i: u8, v: u8) -> Register {
    if i == 0 {
        Register { b_reg: v, ..r }
    } else if i == 1 {
        Register { c_reg: v, ..r }
    } else if i == 2 {
        Register { d_reg: v, ..r }
    } else if i == 3 {
        Register { e_reg: v, ..r }
    } else if i == 4 {
        Register { h_reg: v, ..r }
    } else if i == 5 {
        Register { l_reg: v, ..r }
    } else {
        Register { a_reg: v, ..r }
    }
}

/// The accumulator and the flags Z, N, H, C after accumulator operation
/// `k` (ADD, ADC, SUB, SBC, AND, XOR, OR, CP) of `a` with `v`, carry in `cin`.
pub open spec fn alu_outcome(k: u8, a: u8, v: u8, cin: bool) -> (u8, bool, bool, bool, bool) {
    if k == 0 {
        let r = add_result(a, v, false);
        (r, r == 0, false, add_half(a, v, false), add_carry(a, v, false))
    } else if k == 1 {
        let r = add_result(a, v, cin);
        (r, r == 0, false, add_half(a, v, cin), add_carry(a, v, cin))
    } else if k == 2 {
        let r = sub_result(a, v, false);
        (r, r == 0, true, sub_half(a, v, false), sub_carry(a, v, false))
    } else if k == 3 {
        let r = sub_result(a, v, cin);
        (r, r == 0, true, sub_half(a, v, cin), sub_carry(a, v, cin))
    } else if k == 4 {
        (a & v, a & v == 0, false, true, false)
    } else if k == 5 {
        (a ^ v, a ^ v == 0, false, false, false)
    } else if k == 6 {
        (a | v, a | v == 0, false, false, false)
    } else {
        (a, sub_result(a, v, false) == 0, true, sub_half(a, v, false), sub_carry(a, v, false))
    }
}

/// The bus is well formed and keeps its speed and model.
pub open spec fn kept<A: Sound>(new: Mmunit<A>, old: Mmunit<A>) -> bool {
    new.wf() && new.speed == old.speed && new.term == old.term
}

pub open spec fn inc16(w: u16, n: int) -> u16 {
    ((w + n + 65536) % 65536) as u16
}

/// The index of the lowest set bit of a non-zero byte.
fn lowest_set(ii: u8) -> (n: u8)
    requires
        ii != 0,
    ensures
        n == lowest_bit(ii),
        n < 8,
{
    reveal_with_fuel(lowest_from, 9);
    assert(ii != 0 && (ii >> 0u8) % 2 == 0 && (ii >> 1u8) % 2 == 0 && (ii >> 2u8) % 2 == 0 && (ii >> 3u8) % 2 == 0
        && (ii >> 4u8) % 2 == 0 && (ii >> 5u8) % 2 == 0 && (ii >> 6u8) % 2 == 0 ==> (ii >> 7u8) % 2 == 1)
        by (bit_vector);
    if (ii >> 0) % 2 == 1 {
        0
    } else if (ii >> 1) % 2 == 1 {
        1
    } else if (ii >> 2) % 2 == 1 {
        2
    } else if (ii >> 3) % 2 == 1 {
        3
    } else if (ii >> 4) % 2 == 1 {
        4
    } else if (ii >> 5) % 2 == 1 {
        5
    } else if (ii >> 6) % 2 == 1 {
        6
    } else {
        7
    }
}

/// Where the program counter goes after an instruction outside the load
/// and accumulator blocks, for a CPU whose program counter `p` is just past
/// the opcode; `m` is the bus before the instruction.
pub open spec fn misc_pc<A: Sound>(c: Cpu, m: Mmunit<A>, op: u8) -> u16 {
    let p = c.reg.program_counter;
    let sp = c.reg.stack_pointer;
    let n8 = m.read(p);
    let n16 = word(m.read(inc16(p, 1)), m.read(p));
    let top = word(m.read(inc16(sp, 1)), m.read(sp));
    let taken = condition(op, c.reg);
    if op == 0xC3 || op == 0xCD {
        n16
    } else if op == 0xC2 || op == 0xCA || op == 0xD2 || op == 0xDA || op == 0xC4 || op == 0xCC || op == 0xD4
        || op == 0xDC {
        if taken { n16 } else { inc16(p, 2) }
    } else if op == 0x18 {
        offset(inc16(p, 1), n8)
    } else if op == 0x20 || op == 0x28 || op == 0x30 || op == 0x38 {
        if taken { offset(inc16(p, 1), n8) } else { inc16(p, 1) }
    } else if op == 0xC9 || op == 0xD9 {
        top
    } else if op == 0xC0 || op == 0xC8 || op == 0xD0 || op == 0xD8 {
        if taken { top } else { p }
    } else if op >= 0xC0 && op % 8 == 7 {
        (op - 0xC7) as u16
    } else if op == 0xE9 {
        c.reg.hl()
    } else if op == 0x01 || op == 0x11 || op == 0x21 || op == 0x31 || op == 0x08 || op == 0xEA || op == 0xFA {
        inc16(p, 2)
    } else if (op < 0x40 && op % 8 == 6) || (op >= 0xC0 && op % 8 == 6) || op == 0xE0 || op == 0xF0 || op == 0xE8
        || op == 0xF8 {
        inc16(p, 1)
    } else {
        p
    }
}

/// The reads that decide the program counter avoid the sound registers.
pub open spec fn fetchable<A: Sound>(c: Cpu, m: Mmunit<A>) -> bool {
    let p = c.reg.program_counter;
    let sp = c.reg.stack_pointer;
    !is_sound(p) && !is_sound(inc16(p, 1)) && !is_sound(inc16(p, 2)) && !is_sound(sp) && !is_sound(inc16(sp, 1))
}

/// The program counter after the instruction at the program counter.
pub open spec fn next_pc<A: Sound>(c: Cpu, m: Mmunit<A>) -> u16 {
    let pc = c.reg.program_counter;
    let op = m.read(pc);
    if op == 0xCB {
        inc16(pc, 2)
    } else if 0x40 <= op <= 0xBF {
        inc16(pc, 1)
    } else {
        misc_pc(c.at(inc16(pc, 1)), m, op)
    }
}

/// The memory forms of the load and accumulator blocks: LD (HL), r writes
/// the bus, LD r, (HL) and the accumulator operations read it.
pub open spec fn block_memory<A: Sound>(n: Cpu, nm: Mmunit<A>, o: Cpu, om: Mmunit<A>, op: u8) -> bool {
    let (src, dst) = (op % 8, (op / 8) % 8);
    let hl = o.reg.hl();
    let m = om.read(hl);
    &&& 0x40 <= op <= 0x7F && op != 0x76 && dst == 6 ==> nm.set_post(&om, hl, reg8(o.reg, src)) && n == o
    &&& 0x40 <= op <= 0x7F && op != 0x76 && src == 6 && !is_sound(hl) ==> n.reg == with_reg8(o.reg, dst, m)
        && nm == om
    &&& 0x80 <= op <= 0xBF && src == 6 && !is_sound(hl) ==> n.alu_done(
        o,
        alu_outcome(dst, o.reg.a_reg, m, o.cf()).0,
        alu_outcome(dst, o.reg.a_reg, m, o.cf()).1,
        alu_outcome(dst, o.reg.a_reg, m, o.cf()).2,
        alu_outcome(dst, o.reg.a_reg, m, o.cf()).3,
        alu_outcome(dst, o.reg.a_reg, m, o.cf()).4,
    ) && nm == om
}

/// The result and the carry of the extended shift or rotation `k` (RLC,
/// RRC, RL, RR, SLA, SRA, SWAP, SRL) of `v`, carry in `cin`.
pub open spec fn shift_outcome(k: u8, v: u8, cin: bool) -> (u8, bool) {
    if k == 0 {
        (rotl_result(v, v >= 128), v >= 128)
    } else if k == 1 {
        (rotr_result(v, v % 2 == 1), v % 2 == 1)
    } else if k == 2 {
        (rotl_result(v, cin), v >= 128)
    } else if k == 3 {
        (rotr_result(v, cin), v % 2 == 1)
    } else if k == 4 {
        (rotl_result(v, false), v >= 128)
    } else if k == 5 {
        (rotr_result(v, v >= 128), v % 2 == 1)
    } else if k == 6 {
        (swap_result(v), false)
    } else {
        (rotr_result(v, false), v % 2 == 1)
    }
}

/// The effect of extended opcode `cb` on the byte at HL: the registers
/// but F stay, BIT leaves the bus as it was, the others write the byte
/// back.
pub open spec fn cb_memory<A: Sound>(n: Cpu, nm: Mmunit<A>, o: Cpu, om: Mmunit<A>, cb: u8) -> bool {
    let b = (cb / 8) % 8;
    let hl = o.reg.hl();
    let v = om.read(hl);
    cb % 8 == 6 ==> {
        &&& n.reg == (Register { f_reg: n.reg.f_reg, ..o.reg })
        &&& n.halted == o.halted && n.ei == o.ei
        &&& (0x40 <= cb < 0x80) ==> nm == om
        &&& (cb < 0x40 && !is_sound(hl)) ==> nm.set_post(&om, hl, shift_outcome(b, v, o.cf()).0)
        &&& (0x80 <= cb < 0xC0 && !is_sound(hl)) ==> nm.set_post(&om, hl, v & !(1u8 << b))
        &&& (cb >= 0xC0 && !is_sound(hl)) ==> nm.set_post(&om, hl, v | (1u8 << b))
    }
}

/// The effect of extended opcode `cb` on a register operand (not the byte
/// at HL): `o` is the CPU before, `n` after.
pub open spec fn cb_effect(n: Cpu, o: Cpu, cb: u8) -> bool {
    let i = cb % 8;
    let b = (cb / 8) % 8;
    let v = reg8(o.reg, i);
    i != 6 ==> {
        &&& n.wf()
        &&& n.halted == o.halted && n.ei == o.ei
        &&& if cb < 0x40 {
            let (r, c) = shift_outcome(b, v, o.cf());
            &&& n.reg.has_flags(r == 0, false, false, c)
            &&& n.reg == (Register { f_reg: n.reg.f_reg, ..with_reg8(o.reg, i, r) })
        } else if cb < 0x80 {
            n.alu_done(o, o.reg.a_reg, v & (1u8 << b) == 0, false, true, o.cf())
        } else if cb < 0xC0 {
            n.reg == with_reg8(o.reg, i, v & !(1u8 << b))
        } else {
            n.reg == with_reg8(o.reg, i, v | (1u8 << b))
        }
    }
}

/// The 16-bit arithmetic among the other opcodes, for a CPU `o` whose
/// program counter is just past the opcode: ADD HL, rr; ADD SP, e8;
/// LD HL, SP+e8; LD (a16), SP.
pub open spec fn misc_wide<A: Sound>(n: Cpu, nm: Mmunit<A>, o: Cpu, om: Mmunit<A>, op: u8) -> bool {
    let p = o.reg.program_counter;
    let sp = o.reg.stack_pointer;
    let hl = o.reg.hl();
    let n8 = om.read(p);
    let n16 = word(om.read(inc16(p, 1)), om.read(p));
    let k = (op / 16) % 4;
    let v = if k == 0 {
        o.reg.bc()
    } else if k == 1 {
        o.reg.de()
    } else if k == 2 {
        hl
    } else {
        sp
    };
    &&& (op < 0x40 && op % 16 == 9) ==> n.reg.hl() == add16_result(hl, v) && n.reg.has_flags(
        o.zf(),
        false,
        hl % 4096 + v % 4096 > 4095,
        hl + v > 65535,
    )
    &&& (op == 0xE8 && !is_sound(p)) ==> n.reg.stack_pointer == offset(sp, n8) && n.reg.has_flags(
        false,
        false,
        sp % 16 + n8 % 16 > 15,
        sp % 256 + n8 > 255,
    )
    &&& (op == 0xF8 && !is_sound(p)) ==> n.reg.hl() == offset(sp, n8) && n.reg.has_flags(
        false,
        false,
        sp % 16 + n8 % 16 > 15,
        sp % 256 + n8 > 255,
    )
    &&& (op == 0x08 && !is_sound(p) && !is_sound(inc16(p, 1))) ==> nm.word_written(&om, n16, sp)
}

/// The stack operations among the other opcodes, for a CPU `o` whose
/// program counter is just past the opcode: PUSH writes the pair below
/// the stack pointer, POP reads it back, CALL and RST push the return
/// address.
pub open spec fn misc_stack<A: Sound>(n: Cpu, nm: Mmunit<A>, o: Cpu, om: Mmunit<A>, op: u8) -> bool {
    let p = o.reg.program_counter;
    let sp = o.reg.stack_pointer;
    let below = inc16(sp, -2);
    let top = word(om.read(inc16(sp, 1)), om.read(sp));
    let poppable = !is_sound(sp) && !is_sound(inc16(sp, 1));
    &&& op == 0xC5 ==> nm.word_written(&om, below, o.reg.bc()) && n.reg.stack_pointer == below
    &&& op == 0xD5 ==> nm.word_written(&om, below, o.reg.de()) && n.reg.stack_pointer == below
    &&& op == 0xE5 ==> nm.word_written(&om, below, o.reg.hl()) && n.reg.stack_pointer == below
    &&& op == 0xF5 ==> nm.word_written(&om, below, o.reg.af()) && n.reg.stack_pointer == below
    &&& (op == 0xC1 && poppable) ==> n.reg.bc() == top && n.reg.stack_pointer == inc16(sp, 2)
    &&& (op == 0xD1 && poppable) ==> n.reg.de() == top && n.reg.stack_pointer == inc16(sp, 2)
    &&& (op == 0xE1 && poppable) ==> n.reg.hl() == top && n.reg.stack_pointer == inc16(sp, 2)
    &&& (op == 0xF1 && poppable) ==> n.reg.a_reg == top / 256 && n.reg.f_reg == top % 256 / 16 * 16
        && n.reg.stack_pointer == inc16(sp, 2)
    &&& (op == 0xCD && !is_sound(p) && !is_sound(inc16(p, 1))) ==> nm.word_written(&om, below, inc16(p, 2))
        && n.reg.stack_pointer == below
    &&& ((op == 0xC4 || op == 0xCC || op == 0xD4 || op == 0xDC) && condition(op, o.reg) && !is_sound(p)
        && !is_sound(inc16(p, 1))) ==> nm.word_written(&om, below, inc16(p, 2)) && n.reg.stack_pointer == below
    &&& (op >= 0xC0 && op % 8 == 7) ==> nm.word_written(&om, below, p) && n.reg.stack_pointer == below
    &&& (op == 0xC9 || op == 0xD9 || ((op == 0xC0 || op == 0xC8 || op == 0xD0 || op == 0xD8) && condition(
        op,
        o.reg,
    ))) ==> n.reg.stack_pointer == inc16(sp, 2) && nm == om
    &&& op == 0xD9 ==> n.ei
}

/// The loads and stores through a register pair, the high page or an
/// absolute address, for a CPU `o` whose program counter is just past the
/// opcode.
pub open spec fn misc_mem<A: Sound>(n: Cpu, nm: Mmunit<A>, o: Cpu, om: Mmunit<A>, op: u8) -> bool {
    let p = o.reg.program_counter;
    let a = o.reg.a_reg;
    let hl = o.reg.hl();
    let n8 = om.read(p);
    let n16 = word(om.read(inc16(p, 1)), om.read(p));
    let high = (0xFF00 + n8) as u16;
    let high_c = (0xFF00 + o.reg.c_reg) as u16;
    &&& op == 0x02 ==> nm.set_post(&om, o.reg.bc(), a)
    &&& op == 0x12 ==> nm.set_post(&om, o.reg.de(), a)
    &&& op == 0x22 ==> nm.set_post(&om, hl, a) && n.reg.hl() == inc16(hl, 1)
    &&& op == 0x32 ==> nm.set_post(&om, hl, a) && n.reg.hl() == inc16(hl, -1)
    &&& (op == 0x0A && !is_sound(o.reg.bc())) ==> n.reg.a_reg == om.read(o.reg.bc())
    &&& (op == 0x1A && !is_sound(o.reg.de())) ==> n.reg.a_reg == om.read(o.reg.de())
    &&& (op == 0x2A && !is_sound(hl)) ==> n.reg.a_reg == om.read(hl) && n.reg.hl() == inc16(hl, 1)
    &&& (op == 0x3A && !is_sound(hl)) ==> n.reg.a_reg == om.read(hl) && n.reg.hl() == inc16(hl, -1)
    &&& (op == 0xE0 && !is_sound(p)) ==> nm.set_post(&om, high, a)
    &&& (op == 0xF0 && !is_sound(p) && !is_sound(high)) ==> n.reg.a_reg == om.read(high)
    &&& op == 0xE2 ==> nm.set_post(&om, high_c, a)
    &&& (op == 0xF2 && !is_sound(high_c)) ==> n.reg.a_reg == om.read(high_c)
    &&& (op == 0xEA && !is_sound(p) && !is_sound(inc16(p, 1))) ==> nm.set_post(&om, n16, a)
    &&& (op == 0xFA && !is_sound(p) && !is_sound(inc16(p, 1)) && !is_sound(n16)) ==> n.reg.a_reg == om.read(n16)
    &&& op == 0xF9 ==> n.reg.stack_pointer == hl
}

/// The accumulator operations among the other opcodes, for a CPU `o`
/// whose program counter is just past the opcode: the ALU with an
/// immediate byte, the accumulator rotations (which always clear Z), DAA,
/// CPL, SCF and CCF.
pub open spec fn misc_acc<A: Sound>(n: Cpu, o: Cpu, om: Mmunit<A>, op: u8) -> bool {
    let p = o.reg.program_counter;
    let a = o.reg.a_reg;
    let n8 = om.read(p);
    let k = (op / 8) % 8;
    let alu = alu_outcome(k, a, n8, o.cf());
    let rot = shift_outcome(k, a, o.cf());
    let daa = daa_result(a, o.nf(), o.hf(), o.cf());
    &&& (op >= 0xC0 && op % 8 == 6 && !is_sound(p)) ==> n.alu_done(
        o.at(inc16(p, 1)),
        alu.0,
        alu.1,
        alu.2,
        alu.3,
        alu.4,
    )
    &&& (op == 0x07 || op == 0x0F || op == 0x17 || op == 0x1F) ==> n.alu_done(o, rot.0, false, false, false, rot.1)
    &&& op == 0x27 ==> n.alu_done(o, daa, daa == 0, o.nf(), false, daa_high(a, o.nf(), o.cf()))
    &&& op == 0x2F ==> n.alu_done(o, (255 - a) as u8, o.zf(), true, true, o.cf())
    &&& op == 0x37 ==> n.alu_done(o, a, o.zf(), false, false, true)
    &&& op == 0x3F ==> n.alu_done(o, a, o.zf(), false, false, !o.cf())
}

/// INC and DEC on a byte register and on a register pair, for a CPU `o`
/// whose program counter is just past the opcode.
pub open spec fn misc_arith(n: Cpu, o: Cpu, op: u8) -> bool {
    let dst = (op / 8) % 8;
    let v = reg8(o.reg, dst);
    let k = (op / 16) % 4;
    let pair = if k == 0 {
        o.reg.bc()
    } else if k == 1 {
        o.reg.de()
    } else if k == 2 {
        o.reg.hl()
    } else {
        o.reg.stack_pointer
    };
    let pair_after = if k == 0 {
        n.reg.bc()
    } else if k == 1 {
        n.reg.de()
    } else if k == 2 {
        n.reg.hl()
    } else {
        n.reg.stack_pointer
    };
    &&& (op < 0x40 && op % 8 == 4 && dst != 6) ==> n.reg == (Register {
        f_reg: n.reg.f_reg,
        ..with_reg8(o.reg, dst, inc_result(v))
    }) && n.reg.has_flags(inc_result(v) == 0, false, v % 16 == 15, o.cf())
    &&& (op < 0x40 && op % 8 == 5 && dst != 6) ==> n.reg == (Register {
        f_reg: n.reg.f_reg,
        ..with_reg8(o.reg, dst, dec_result(v))
    }) && n.reg.has_flags(dec_result(v) == 0, true, v % 16 == 0, o.cf())
    &&& (op < 0x40 && op % 16 == 3) ==> pair_after == inc16(pair, 1)
    &&& (op < 0x40 && op % 16 == 0x0B) ==> pair_after == inc16(pair, -1)
}

/// The immediate loads among the other opcodes, for a CPU `o` whose
/// program counter is just past the opcode: LD r, d8 into a register, and
/// LD rr, d16.
pub open spec fn misc_loads<A: Sound>(n: Cpu, nm: Mmunit<A>, o: Cpu, om: Mmunit<A>, op: u8) -> bool {
    let p = o.reg.program_counter;
    let n8 = om.read(p);
    let n16 = word(om.read(inc16(p, 1)), om.read(p));
    let dst = (op / 8) % 8;
    &&& (op < 0x40 && op % 8 == 6 && dst != 6 && !is_sound(p)) ==> n.reg == with_reg8(o.at(inc16(p, 1)).reg, dst, n8)
        && nm == om
    &&& (op == 0x01 && !is_sound(p) && !is_sound(inc16(p, 1))) ==> n.reg.bc() == n16
    &&& (op == 0x11 && !is_sound(p) && !is_sound(inc16(p, 1))) ==> n.reg.de() == n16
    &&& (op == 0x21 && !is_sound(p) && !is_sound(inc16(p, 1))) ==> n.reg.hl() == n16
    &&& (op == 0x31 && !is_sound(p) && !is_sound(inc16(p, 1))) ==> n.reg.stack_pointer == n16
}

/// What one step leaves: `r` is the clock cycles or the undefined opcode.
/// With the global enable set and a line pending, the interrupt is served
/// (20 cycles); a halted CPU with nothing pending idles for 4 cycles;
/// otherwise the CPU, woken if it was halted, executes the instruction at
/// the program counter, four clock cycles per machine cycle.
pub open spec fn step_post<A: Sound>(n: Cpu, nm: Mmunit<A>, o: Cpu, om: Mmunit<A>, r: Result<u32, CpuError>) -> bool {
    let pending = om.intf.data & om.inte;
    if o.ei && pending != 0 {
        r == Ok::<u32, CpuError>(20) && hi_post(n, nm, o, om, 5)
    } else if o.halted && pending == 0 {
        r == Ok::<u32, CpuError>(4) && n == o && nm == om
    } else {
        let w = Cpu { halted: false, ..o };
        &&& r is Err ==> ex_post(n, nm, w, om, r)
        &&& r matches Ok(c) ==> c % 4 == 0 && ex_post(n, nm, w, om, Ok(c / 4))
    }
}

/// What executing the instruction at the program counter leaves: `r` is
/// the result of `Cpu::ex` (machine cycles, or the undefined opcode), `o`
/// and `om` the CPU and bus before, `n` and `nm` after.
pub open spec fn ex_post<A: Sound>(n: Cpu, nm: Mmunit<A>, o: Cpu, om: Mmunit<A>, r: Result<u32, CpuError>) -> bool {
    let pc = o.reg.program_counter;
    let op = om.read(pc);
    let cb = om.read(inc16(pc, 1));
    let (src, dst) = (op % 8, (op / 8) % 8);
    let stepped = o.at(inc16(pc, 1));
    let alu = alu_outcome(dst, o.reg.a_reg, reg8(o.reg, src), o.cf());
    let misc = (op < 0x40 || op >= 0xC0) && op != 0xCB;
    &&& (!is_sound(pc) && !is_sound(inc16(pc, 1))) ==> {
        &&& r is Err <==> illegal(op)
        &&& r matches Err(e) ==> e == CpuError::UnsupportedOperation(op)
        &&& r matches Ok(c) ==> c == instr_cycles(op, cb, o.reg)
    }
    &&& (r is Ok && fetchable(o, om)) ==> n.reg.program_counter == next_pc(o, om)
    &&& (r is Ok && !is_sound(pc)) ==> {
        &&& (0x40 <= op <= 0xBF) ==> block_memory(n, nm, stepped, om, op)
        &&& (op == 0xCB && !is_sound(inc16(pc, 1))) ==> cb_effect(n, o.at(inc16(pc, 2)), cb)
        &&& (op == 0xCB && !is_sound(inc16(pc, 1))) ==> cb_memory(n, nm, o.at(inc16(pc, 2)), om, cb)
        &&& misc ==> misc_arith(n, stepped, op)
        &&& misc ==> misc_acc(n, stepped, om, op)
        &&& misc ==> misc_mem(n, nm, stepped, om, op)
        &&& misc ==> misc_wide(n, nm, stepped, om, op)
        &&& misc ==> misc_stack(n, nm, stepped, om, op)
        &&& misc ==> misc_loads(n, nm, stepped, om, op)
        &&& misc ==> misc_frame(n, nm, stepped, om, op)
        &&& op == 0x76 ==> n.halted && n.reg == stepped.reg && nm == om && n.ei == o.ei
        &&& (0x40 <= op <= 0xBF && op != 0x76) ==> n.halted == o.halted && n.ei == o.ei
        &&& op == 0xF3 ==> !n.ei
        &&& op == 0xFB ==> n.ei
        &&& (0x40 <= op <= 0x7F && op != 0x76 && src != 6 && dst != 6) ==> n.reg == with_reg8(
            stepped.reg,
            dst,
            reg8(o.reg, src),
        ) && nm == om
        &&& (0x80 <= op <= 0xBF && src != 6) ==> n.alu_done(stepped, alu.0, alu.1, alu.2, alu.3, alu.4) && nm
            == om
    }
}

/// The byte registers (index as in `reg8`; 6 stands for F) and pairs that
/// an opcode outside the two blocks may write; the pairs are BC, DE, HL
/// and SP.
pub open spec fn misc_writes_pair(op: u8, k: int) -> bool {
    ||| (op < 0x40 && (op / 16) % 4 == k && (op % 16 == 1 || op % 16 == 3 || op % 16 == 0x0B))
    ||| (k == 0 && op == 0xC1)
    ||| (k == 1 && op == 0xD1)
    ||| (k == 2 && (op == 0xE1 || op == 0x22 || op == 0x32 || op == 0x2A || op == 0x3A || (op < 0x40 && op % 16
        == 9) || op == 0xF8))
    ||| (k == 3 && (op == 0xF9 || op == 0xE8 || (op >= 0xC0 && (op % 16 == 1 || op % 16 == 5 || op % 8 == 7
        || op == 0xC9 || op == 0xD9 || op == 0xCD || op == 0xC0 || op == 0xC8 || op == 0xD0 || op == 0xD8
        || op == 0xC4 || op == 0xCC || op == 0xD4 || op == 0xDC))))
}

pub open spec fn misc_writes_reg8(op: u8, i: int) -> bool {
    if i == 6 {
        (op < 0x40 && (op % 8 == 4 || op % 8 == 5)) || op == 0x07 || op == 0x0F || op == 0x17 || op == 0x1F || op
            == 0x27 || op == 0x2F || op == 0x37 || op == 0x3F || (op < 0x40 && op % 16 == 9) || op == 0xF1 || (op
            >= 0xC0 && op % 8 == 6) || op == 0xE8 || op == 0xF8
    } else if i == 7 {
        (op < 0x40 && (op % 8 == 4 || op % 8 == 5 || op % 8 == 6) && (op / 8) % 8 == 7) || op == 0x0A || op
            == 0x1A || op == 0x2A || op == 0x3A || op == 0x07 || op == 0x0F || op == 0x17 || op == 0x1F || op
            == 0x27 || op == 0x2F || op == 0xF1 || (op >= 0xC0 && op % 8 == 6) || op == 0xF0 || op == 0xF2 || op
            == 0xFA
    } else {
        (op < 0x40 && (op % 8 == 4 || op % 8 == 5 || op % 8 == 6) && (op / 8) % 8 == i) || misc_writes_pair(
            op,
            i / 2,
        )
    }
}

pub open spec fn misc_writes_mem(op: u8) -> bool {
    op == 0x02 || op == 0x12 || op == 0x22 || op == 0x32 || op == 0x34 || op == 0x35 || op == 0x36 || op == 0x08
        || op == 0xE0 || op == 0xE2 || op == 0xEA || op == 0xC5 || op == 0xD5 || op == 0xE5 || op == 0xF5 || op
        == 0xCD || op == 0xC4 || op == 0xCC || op == 0xD4 || op == 0xDC || (op >= 0xC0 && op % 8 == 7)
}

/// Everything that an opcode outside the two blocks does not write stays:
/// the registers it does not name, the bus when it stores nothing, HALT,
/// and the interrupt enable unless it is DI, EI or RETI.
pub open spec fn misc_frame<A: Sound>(n: Cpu, nm: Mmunit<A>, o: Cpu, om: Mmunit<A>, op: u8) -> bool {
    &&& !misc_writes_reg8(op, 0) ==> n.reg.b_reg == o.reg.b_reg
    &&& !misc_writes_reg8(op, 1) ==> n.reg.c_reg == o.reg.c_reg
    &&& !misc_writes_reg8(op, 2) ==> n.reg.d_reg == o.reg.d_reg
    &&& !misc_writes_reg8(op, 3) ==> n.reg.e_reg == o.reg.e_reg
    &&& !misc_writes_reg8(op, 4) ==> n.reg.h_reg == o.reg.h_reg
    &&& !misc_writes_reg8(op, 5) ==> n.reg.l_reg == o.reg.l_reg
    &&& !misc_writes_reg8(op, 6) ==> n.reg.f_reg == o.reg.f_reg
    &&& !misc_writes_reg8(op, 7) ==> n.reg.a_reg == o.reg.a_reg
    &&& !misc_writes_pair(op, 3) ==> n.reg.stack_pointer == o.reg.stack_pointer
    &&& !misc_writes_mem(op) ==> nm == om
    &&& n.halted == o.halted
    &&& !(op == 0xF3 || op == 0xFB || op == 0xD9) ==> n.ei == o.ei
}

/// What interrupt dispatch leaves: nothing happens unless a line is both
/// requested and enabled and the CPU is halted or globally enabled; a
/// halted CPU wakes; with the global enable set, the lowest pending line is
/// served: the program counter is pushed and set to its vector.
pub open spec fn hi_post<A: Sound>(n: Cpu, nm: Mmunit<A>, o: Cpu, om: Mmunit<A>, r: u32) -> bool {
    let pending = om.intf.data & om.inte;
    let k = lowest_bit(pending);
    if (!o.halted && !o.ei) || pending == 0 {
        r == 0 && n == o && nm == om
    } else if !o.ei {
        r == 0 && n == (Cpu { halted: false, ..o }) && nm == om
    } else {
        &&& r == 5
        &&& k < 8
        &&& n.reg == (Register {
            program_counter: (0x40 + 8 * k) as u16,
            stack_pointer: inc16(o.reg.stack_pointer, -2),
            ..o.reg
        })
        &&& !n.halted
        &&& !n.ei
        &&& inc16(o.reg.stack_pointer, -2) != 0xFF0F && inc16(o.reg.stack_pointer, -1) != 0xFF0F
            ==> nm.intf.data == om.intf.data & !(1u8 << k)
        &&& inc16(o.reg.stack_pointer, -2) != 0xFFFF && inc16(o.reg.stack_pointer, -1) != 0xFFFF
            ==> nm.inte == om.inte
        &&& exists|mid: Mmunit<A>|
            mid.set_post(&om, 0xFF0F, om.intf.data & !(1u8 << k)) && #[trigger] nm.word_written(
                &mid,
                inc16(o.reg.stack_pointer, -2),
                o.reg.program_counter,
            )
    }
}

/// A step of a halted CPU with the global enable off and a requested,
/// enabled line serves no interrupt: the CPU wakes and executes the
/// instruction after HALT, so the program counter moves on as that
/// instruction says and the stack pointer moves only if it says so.
pub proof fn lemma_wake_executes_next<A: Sound>(n: Cpu, nm: Mmunit<A>, o: Cpu, om: Mmunit<A>, r: Result<u32, CpuError>)
    requires
        step_post(n, nm, o, om, r),
        o.halted,
        !o.ei,
        om.intf.data & om.inte != 0,
        r is Ok,
        fetchable(o, om),
    ensures
        n.reg.program_counter == next_pc(o, om),
        om.read(o.reg.program_counter) == 0x00 ==> !n.halted && n.reg == o.at(inc16(o.reg.program_counter, 1)).reg
            && nm == om,
{
}

/// Serving an interrupt leaves the interrupted program counter on the
/// stack: with the two stack bytes in working RAM or high RAM, the word
/// below the old stack pointer reads back as the old program counter.
pub proof fn lemma_dispatch_pushes_pc<A: Sound>(n: Cpu, nm: Mmunit<A>, o: Cpu, om: Mmunit<A>)
    requires
        om.wf(),
        hi_post(n, nm, o, om, 5),
        o.ei,
        om.intf.data & om.inte != 0,
        inc16(o.reg.stack_pointer, -2) < 0xFFFF,
        (is_wram(inc16(o.reg.stack_pointer, -2)) && is_wram((inc16(o.reg.stack_pointer, -2) + 1) as u16)) || (
        is_hram(inc16(o.reg.stack_pointer, -2)) && is_hram((inc16(o.reg.stack_pointer, -2) + 1) as u16)),
    ensures
        n.reg.stack_pointer == inc16(o.reg.stack_pointer, -2),
        word(nm.read((inc16(o.reg.stack_pointer, -2) + 1) as u16), nm.read(inc16(o.reg.stack_pointer, -2)))
            == o.reg.program_counter,
{
    let k = lowest_bit(om.intf.data & om.inte);
    let mid = choose|mid: Mmunit<A>|
        mid.set_post(&om, 0xFF0F, om.intf.data & !(1u8 << k)) && #[trigger] nm.word_written(
            &mid,
            inc16(o.reg.stack_pointer, -2),
            o.reg.program_counter,
        );
    reveal(Mmunit::set_post);
    lemma_word_round_trip(mid, nm, inc16(o.reg.stack_pointer, -2), o.reg.program_counter);
}

/// A halted CPU whose global interrupt enable is off wakes when an enabled
/// line is requested, jumps to no vector and leaves the bus as it was; the
/// step then goes on with the instruction after HALT.
pub proof fn lemma_halt_wakes_without_dispatch<A: Sound>(n: Cpu, nm: Mmunit<A>, o: Cpu, om: Mmunit<A>, r: u32)
    requires
        hi_post(n, nm, o, om, r),
        o.halted,
        !o.ei,
        om.intf.data & om.inte != 0,
    ensures
        r == 0,
        !n.halted,
        n.reg == o.reg,
        nm == om,
{
}

impl Cpu {
    /// The CPU with another program counter.
    pub open spec fn at(self, pc: u16) -> Cpu {
        Cpu { reg: Register { program_counter: pc, ..self.reg }, ..self }
    }

    pub fn power_up(term: Term) -> (r: Self)
        ensures
            r.wf(),
            r.reg == Register::power_up_spec(term),
            !r.halted,
            r.ei,
    {
        Self { reg: Register::power_up(term), halted: false, ei: true }
    }

    /// Reads the byte at the program counter and moves past it.
    pub fn imm<A: Sound>(&mut self, mmu: &Mmunit<A>) -> (r: u8)
        requires
            mmu.wf(),
        ensures
            !is_sound(old(self).reg.program_counter) ==> r == mmu.read(old(self).reg.program_counter),
            *final(self) == old(self).at(inc16(old(self).reg.program_counter, 1)),
    {
        let v = mmu.get(self.reg.program_counter);
        self.reg.program_counter = self.reg.program_counter.wrapping_add(1);
        v
    }

    /// Reads the little-endian word at the program counter and moves past
    /// it.
    pub fn imm_word<A: Sound>(&mut self, mmu: &Mmunit<A>) -> (r: u16)
        requires
            mmu.wf(),
        ensures
            ({
                let pc = old(self).reg.program_counter;
                !is_sound(pc) && !is_sound(inc16(pc, 1)) ==> r == word(mmu.read(inc16(pc, 1)), mmu.read(pc))
            }),
            *final(self) == old(self).at(inc16(old(self).reg.program_counter, 2)),
    {
        let v = mmu.get_word(self.reg.program_counter);
        self.reg.program_counter = self.reg.program_counter.wrapping_add(2);
        v
    }

    /// Pushes a word.
    pub fn stack_add<A: Sound>(&mut self, mmu: &mut Mmunit<A>, insert: u16)
        requires
            old(mmu).wf(),
        ensures
            kept(*final(mmu), *old(mmu)),
            *final(self) == (Cpu {
                reg: Register { stack_pointer: inc16(old(self).reg.stack_pointer, -2), ..old(self).reg },
                ..*old(self)
            }),
            inc16(old(self).reg.stack_pointer, -2) != 0xFF0F && inc16(old(self).reg.stack_pointer, -1) != 0xFF0F
                ==> final(mmu).intf.data == old(mmu).intf.data,
            final(mmu).word_written(old(mmu), inc16(old(self).reg.stack_pointer, -2), insert),
            inc16(old(self).reg.stack_pointer, -2) != 0xFFFF && inc16(old(self).reg.stack_pointer, -1) != 0xFFFF
                ==> final(mmu).inte == old(mmu).inte,
    {
        self.reg.stack_pointer = self.reg.stack_pointer.wrapping_sub(2);
        mmu.set_word(self.reg.stack_pointer, insert);
    }

    /// Pops a word.
    pub fn stack_pop<A: Sound>(&mut self, mmu: &Mmunit<A>) -> (r: u16)
        requires
            mmu.wf(),
        ensures
            ({
                let sp = old(self).reg.stack_pointer;
                !is_sound(sp) && !is_sound(inc16(sp, 1)) ==> r == word(mmu.read(inc16(sp, 1)), mmu.read(sp))
            }),
            *final(self) == (Cpu {
                reg: Register { stack_pointer: inc16(old(self).reg.stack_pointer, 2), ..old(self).reg },
                ..*old(self)
            }),
    {
        let r = mmu.get_word(self.reg.stack_pointer);
        self.reg.stack_pointer = self.reg.stack_pointer.wrapping_add(2);
        r
    }

    /// Reads the operand with index `i` (B, C, D, E, H, L, (HL), A).
    fn get_r8<A: Sound>(&self, mmu: &Mmunit<A>, i: u8) -> (r: u8)
        requires
            mmu.wf(),
            i < 8,
        ensures
            i != 6 ==> r == reg8(self.reg, i),
            i == 6 && !is_sound(self.reg.hl()) ==> r == mmu.read(self.reg.hl()),
    {
        match i {
            0 => self.reg.b_reg,
            1 => self.reg.c_reg,
            2 => self.reg.d_reg,
            3 => self.reg.e_reg,
            4 => self.reg.h_reg,
            5 => self.reg.l_reg,
            6 => mmu.get(self.reg.parse_hl()),
            _ => self.reg.a_reg,
        }
    }

    /// Writes the operand with index `i` (B, C, D, E, H, L, (HL), A).
    fn set_r8<A: Sound>(&mut self, mmu: &mut Mmunit<A>, i: u8, v: u8)
        requires
            old(self).wf(),
            old(mmu).wf(),
            i < 8,
        ensures
            final(self).wf(),
            i != 6 ==> final(self).reg == with_reg8(old(self).reg, i, v) && *final(mmu) == *old(mmu),
            i != 6 ==> final(self).halted == old(self).halted && final(self).ei == old(self).ei,
            i == 6 ==> *final(self) == *old(self) && final(mmu).set_post(old(mmu), old(self).reg.hl(), v),
            kept(*final(mmu), *old(mmu)),
    {
        match i {
            0 => self.reg.b_reg = v,
            1 => self.reg.c_reg = v,
            2 => self.reg.d_reg = v,
            3 => self.reg.e_reg = v,
            4 => self.reg.h_reg = v,
            5 => self.reg.l_reg = v,
            6 => mmu.set(self.reg.parse_hl(), v),
            _ => self.reg.a_reg = v,
        }
    }

    /// One of the eight accumulator operations: ADD, ADC, SUB, SBC, AND,
    /// XOR, OR, CP.
    fn alu_op(&mut self, k: u8, v: u8)
        requires
            old(self).wf(),
            k < 8,
        ensures
            ({
                let (r, z, n, h, c) = alu_outcome(k, old(self).reg.a_reg, v, old(self).cf());
                final(self).alu_done(*old(self), r, z, n, h, c)
            }),
    {
        match k {
            0 => self.alu_add(v),
            1 => self.alu_adc(v),
            2 => self.alu_sub(v),
            3 => self.alu_sbc(v),
            4 => self.alu_and(v),
            5 => self.alu_xor(v),
            6 => self.alu_or(v),
            _ => self.alu_cp(v),
        }
    }

    /// Whether the condition of a conditional branch holds.
    fn cond(&self, op: u8) -> (r: bool)
        ensures
            r == condition(op, self.reg),
    {
        match (op / 8) % 4 {
            0 => !self.reg.get_flag(ZeroFlag),
            1 => self.reg.get_flag(ZeroFlag),
            2 => !self.reg.get_flag(CarryFlag),
            _ => self.reg.get_flag(CarryFlag),
        }
    }

    fn extra(&self, op: u8) -> (r: u32)
        ensures
            r == extra_cycles(op, self.reg),
    {
        if !self.cond(op) {
            0
        } else if op == 0x20 || op == 0x28 || op == 0x30 || op == 0x38 {
            1
        } else if op == 0xC2 || op == 0xCA || op == 0xD2 || op == 0xDA {
            1
        } else if op == 0xC4 || op == 0xCC || op == 0xD4 || op == 0xDC {
            3
        } else if op == 0xC0 || op == 0xC8 || op == 0xD0 || op == 0xD8 {
            3
        } else {
            0
        }
    }

    /// Services the highest-priority pending interrupt. A pending line wakes
    /// a halted CPU whatever the global enable; it is served only when the
    /// global enable is set. Returns the machine cycles spent.
    pub fn hi<A: Sound>(&mut self, mmu: &mut Mmunit<A>) -> (r: u32)
        requires
            old(self).wf(),
            old(mmu).wf(),
        ensures
            final(self).wf(),
            kept(*final(mmu), *old(mmu)),
            hi_post(*final(self), *final(mmu), *old(self), *old(mmu), r),
    {
        if !self.halted && !self.ei {
            return 0;
        }
        let intf = mmu.intf.data;
        let inte = mmu.inte;
        let ii = intf & inte;
        if ii == 0x00 {
            return 0;
        }
        self.halted = false;
        if !self.ei {
            return 0;
        }
        self.ei = false;
        let n = lowest_set(ii);
        mmu.set(0xFF0F, intf & !(1u8 << n));
        let ghost mid = *mmu;
        let pc = self.reg.program_counter;
        self.stack_add(mmu, pc);
        assert(mid.set_post(old(mmu), 0xFF0F, old(mmu).intf.data & !(1u8 << n)));
        self.reg.program_counter = 0x0040 + (n as u16) * 8;
        5
    }
}


impl Cpu {
    /// The extended opcodes: rotations and shifts, BIT, RES and SET on the
    /// operand in the low three bits.
    fn ex_cb<A: Sound>(&mut self, mmu: &mut Mmunit<A>, cb: u8)
        requires
            old(self).wf(),
            old(mmu).wf(),
        ensures
            final(self).wf(),
            kept(*final(mmu), *old(mmu)),
            final(self).reg.program_counter == old(self).reg.program_counter,
            cb_effect(*final(self), *old(self), cb),
            cb_memory(*final(self), *final(mmu), *old(self), *old(mmu), cb),
            cb % 8 != 6 ==> *final(mmu) == *old(mmu),
    {
        let i = cb % 8;
        let b = (cb / 8) % 8;
        let v = self.get_r8(mmu, i);
        if cb < 0x40 {
            let r = match b {
                0 => self.alu_rlc(v),
                1 => self.alu_rrc(v),
                2 => self.alu_rl(v),
                3 => self.alu_rr(v),
                4 => self.alu_sla(v),
                5 => self.alu_sra(v),
                6 => self.alu_swap(v),
                _ => self.alu_srl(v),
            };
            self.set_r8(mmu, i, r);
        } else if cb < 0x80 {
            self.alu_bit(v, b);
        } else if cb < 0xC0 {
            let r = self.alu_res(v, b);
            self.set_r8(mmu, i, r);
        } else {
            let r = self.alu_set(v, b);
            self.set_r8(mmu, i, r);
        }
    }

    /// Sets a register pair by index: BC, DE, HL, SP.
    fn set_rr(&mut self, k: u8, v: u16)
        requires
            old(self).wf(),
        ensures
            final(self).wf(),
            final(self).halted == old(self).halted && final(self).ei == old(self).ei,
            final(self).reg.program_counter == old(self).reg.program_counter,
            k == 0 ==> final(self).reg.bc() == v,
            k == 1 ==> final(self).reg.de() == v,
            k == 2 ==> final(self).reg.hl() == v,
            k == 3 ==> final(self).reg.stack_pointer == v,
            k != 0 ==> final(self).reg.b_reg == old(self).reg.b_reg && final(self).reg.c_reg == old(self).reg.c_reg,
            k != 1 ==> final(self).reg.d_reg == old(self).reg.d_reg && final(self).reg.e_reg == old(self).reg.e_reg,
            k != 2 ==> final(self).reg.h_reg == old(self).reg.h_reg && final(self).reg.l_reg == old(self).reg.l_reg,
            k < 3 ==> final(self).reg.stack_pointer == old(self).reg.stack_pointer,
            final(self).reg.a_reg == old(self).reg.a_reg && final(self).reg.f_reg == old(self).reg.f_reg,
    {
        match k {
            0 => self.reg.set_bc(v),
            1 => self.reg.set_de(v),
            2 => self.reg.set_hl(v),
            _ => self.reg.stack_pointer = v,
        }
    }

    /// Reads a register pair by index: BC, DE, HL, SP.
    fn get_rr(&self, k: u8) -> (r: u16)
        ensures
            k == 0 ==> r == self.reg.bc(),
            k == 1 ==> r == self.reg.de(),
            k == 2 ==> r == self.reg.hl(),
            k >= 3 ==> r == self.reg.stack_pointer,
    {
        match k {
            0 => self.reg.parse_bc(),
            1 => self.reg.parse_de(),
            2 => self.reg.parse_hl(),
            _ => self.reg.stack_pointer,
        }
    }

    /// The primary opcodes outside the load and accumulator blocks.
    fn ex_misc<A: Sound>(&mut self, mmu: &mut Mmunit<A>, opcode: u8)
        requires
            old(self).wf(),
            old(mmu).wf(),
            opcode < 0x40 || opcode >= 0xC0,
        ensures
            final(self).wf(),
            kept(*final(mmu), *old(mmu)),
            fetchable(old(self).at(inc16(old(self).reg.program_counter, -1)), *old(mmu))
                ==> final(self).reg.program_counter == misc_pc(*old(self), *old(mmu), opcode),
            opcode == 0xF3 ==> !final(self).ei,
            opcode == 0xFB ==> final(self).ei,
            misc_loads(*final(self), *final(mmu), *old(self), *old(mmu), opcode),
            misc_arith(*final(self), *old(self), opcode),
            misc_acc(*final(self), *old(self), *old(mmu), opcode),
            misc_mem(*final(self), *final(mmu), *old(self), *old(mmu), opcode),
            misc_frame(*final(self), *final(mmu), *old(self), *old(mmu), opcode),
            misc_wide(*final(self), *final(mmu), *old(self), *old(mmu), opcode),
            misc_stack(*final(self), *final(mmu), *old(self), *old(mmu), opcode),
    {
        if opcode < 0x20 {
            self.ex_low0(mmu, opcode);
        } else if opcode < 0x40 {
            self.ex_low1(mmu, opcode);
        } else if opcode < 0xE0 {
            self.ex_high0(mmu, opcode);
        } else {
            self.ex_high1(mmu, opcode);
        }
    }

    /// The other opcodes from 0x00 to 0x1F.
    #[verifier::rlimit(60)]
    fn ex_low0<A: Sound>(&mut self, mmu: &mut Mmunit<A>, opcode: u8)
        requires
            old(self).wf(),
            old(mmu).wf(),
            opcode < 0x20,
        ensures
            final(self).wf(),
            kept(*final(mmu), *old(mmu)),
            fetchable(old(self).at(inc16(old(self).reg.program_counter, -1)), *old(mmu))
                ==> final(self).reg.program_counter == misc_pc(*old(self), *old(mmu), opcode),
            opcode == 0xF3 ==> !final(self).ei,
            opcode == 0xFB ==> final(self).ei,
            misc_loads(*final(self), *final(mmu), *old(self), *old(mmu), opcode),
            misc_arith(*final(self), *old(self), opcode),
            misc_acc(*final(self), *old(self), *old(mmu), opcode),
            misc_mem(*final(self), *final(mmu), *old(self), *old(mmu), opcode),
            misc_frame(*final(self), *final(mmu), *old(self), *old(mmu), opcode),
            misc_wide(*final(self), *final(mmu), *old(self), *old(mmu), opcode),
    {
        let k = (opcode / 16) % 4;
        let taken = self.cond(opcode);
        proof {
            lemma_high_page(self.reg.c_reg);
            lemma_high_page(mmu.read(self.reg.program_counter));
        }
        match opcode {
            // LD r16, d16
            0x01 | 0x11 => {
                let v = self.imm_word(mmu);
                self.set_rr(k, v);
            },
            // LD (BC), A / LD (DE), A
            0x02 => mmu.set(self.reg.parse_bc(), self.reg.a_reg),
            0x12 => mmu.set(self.reg.parse_de(), self.reg.a_reg),
            // LD A, (BC) / LD A, (DE)
            0x0A => self.reg.a_reg = mmu.get(self.reg.parse_bc()),
            0x1A => self.reg.a_reg = mmu.get(self.reg.parse_de()),
            // INC r16 / DEC r16
            0x03 | 0x13 => {
                let v = self.get_rr(k).wrapping_add(1);
                self.set_rr(k, v);
            },
            0x0B | 0x1B => {
                let v = self.get_rr(k).wrapping_sub(1);
                self.set_rr(k, v);
            },
            // INC r8 / DEC r8
            0x04 | 0x0C | 0x14 | 0x1C => {
                let i = (opcode / 8) % 8;
                let v = self.get_r8(mmu, i);
                let r = self.alu_inc(v);
                self.set_r8(mmu, i, r);
            },
            0x05 | 0x0D | 0x15 | 0x1D => {
                let i = (opcode / 8) % 8;
                let v = self.get_r8(mmu, i);
                let r = self.alu_dec(v);
                self.set_r8(mmu, i, r);
            },
            // LD r8, d8
            0x06 | 0x0E | 0x16 | 0x1E => {
                let v = self.imm(mmu);
                self.set_r8(mmu, (opcode / 8) % 8, v);
            },
            // RLCA, RRCA, RLA, RRA: the zero flag is always cleared
            0x07 | 0x0F | 0x17 | 0x1F => {
                let a = self.reg.a_reg;
                let r = match opcode {
                    0x07 => self.alu_rlc(a),
                    0x0F => self.alu_rrc(a),
                    0x17 => self.alu_rl(a),
                    _ => self.alu_rr(a),
                };
                self.reg.a_reg = r;
                self.reg.set_flag(ZeroFlag, false);
            },
            // LD (d16), SP
            0x08 => {
                let a = self.imm_word(mmu);
                mmu.set_word(a, self.reg.stack_pointer);
            },
            // ADD HL, r16
            0x09 | 0x19 => {
                let v = self.get_rr(k);
                self.alu_add_hl(v);
            },
            // STOP: the speed switch is committed by the board
            0x10 => {},
            // JR
            0x18 => {
                let n = self.imm(mmu);
                self.alu_jr(n);
            },
            0x00 => {},
            _ => {},
        }
    }
    /// The other opcodes from 0x20 to 0x3F.
    #[verifier::rlimit(60)]
    fn ex_low1<A: Sound>(&mut self, mmu: &mut Mmunit<A>, opcode: u8)
        requires
            old(self).wf(),
            old(mmu).wf(),
            0x20 <= opcode < 0x40,
        ensures
            final(self).wf(),
            kept(*final(mmu), *old(mmu)),
            fetchable(old(self).at(inc16(old(self).reg.program_counter, -1)), *old(mmu))
                ==> final(self).reg.program_counter == misc_pc(*old(self), *old(mmu), opcode),
            opcode == 0xF3 ==> !final(self).ei,
            opcode == 0xFB ==> final(self).ei,
            misc_loads(*final(self), *final(mmu), *old(self), *old(mmu), opcode),
            misc_arith(*final(self), *old(self), opcode),
            misc_acc(*final(self), *old(self), *old(mmu), opcode),
            misc_mem(*final(self), *final(mmu), *old(self), *old(mmu), opcode),
            misc_frame(*final(self), *final(mmu), *old(self), *old(mmu), opcode),
            misc_wide(*final(self), *final(mmu), *old(self), *old(mmu), opcode),
    {
        let k = (opcode / 16) % 4;
        let taken = self.cond(opcode);
        proof {
            lemma_high_page(self.reg.c_reg);
            lemma_high_page(mmu.read(self.reg.program_counter));
        }
        match opcode {
            // LD r16, d16
            0x21 | 0x31 => {
                let v = self.imm_word(mmu);
                self.set_rr(k, v);
            },
            // LD (HL+), A / LD (HL-), A
            0x22 => {
                let a = self.reg.parse_hl();
                mmu.set(a, self.reg.a_reg);
                self.reg.set_hl(a.wrapping_add(1));
            },
            0x32 => {
                let a = self.reg.parse_hl();
                mmu.set(a, self.reg.a_reg);
                self.reg.set_hl(a.wrapping_sub(1));
            },
            // LD A, (HL+) / LD A, (HL-)
            0x2A => {
                let a = self.reg.parse_hl();
                self.reg.a_reg = mmu.get(a);
                self.reg.set_hl(a.wrapping_add(1));
            },
            0x3A => {
                let a = self.reg.parse_hl();
                self.reg.a_reg = mmu.get(a);
                self.reg.set_hl(a.wrapping_sub(1));
            },
            // INC r16 / DEC r16
            0x23 | 0x33 => {
                let v = self.get_rr(k).wrapping_add(1);
                self.set_rr(k, v);
            },
            0x2B | 0x3B => {
                let v = self.get_rr(k).wrapping_sub(1);
                self.set_rr(k, v);
            },
            // INC r8 / DEC r8
            0x24 | 0x2C | 0x34 | 0x3C => {
                let i = (opcode / 8) % 8;
                let v = self.get_r8(mmu, i);
                let r = self.alu_inc(v);
                self.set_r8(mmu, i, r);
            },
            0x25 | 0x2D | 0x35 | 0x3D => {
                let i = (opcode / 8) % 8;
                let v = self.get_r8(mmu, i);
                let r = self.alu_dec(v);
                self.set_r8(mmu, i, r);
            },
            // LD r8, d8
            0x26 | 0x2E | 0x36 | 0x3E => {
                let v = self.imm(mmu);
                self.set_r8(mmu, (opcode / 8) % 8, v);
            },
            // ADD HL, r16
            0x29 | 0x39 => {
                let v = self.get_rr(k);
                self.alu_add_hl(v);
            },
            // JR cc
            0x20 | 0x28 | 0x30 | 0x38 => {
                let n = self.imm(mmu);
                if taken {
                    self.alu_jr(n);
                }
            },
            0x27 => self.alu_daa(),
            0x2F => self.alu_cpl(),
            0x37 => self.alu_scf(),
            0x3F => self.alu_ccf(),
            _ => {},
        }
    }

    /// The other opcodes from 0xC0 to 0xDF.
    #[verifier::rlimit(60)]
    fn ex_high0<A: Sound>(&mut self, mmu: &mut Mmunit<A>, opcode: u8)
        requires
            old(self).wf(),
            old(mmu).wf(),
            0xC0 <= opcode < 0xE0,
        ensures
            final(self).wf(),
            kept(*final(mmu), *old(mmu)),
            fetchable(old(self).at(inc16(old(self).reg.program_counter, -1)), *old(mmu))
                ==> final(self).reg.program_counter == misc_pc(*old(self), *old(mmu), opcode),
            opcode == 0xF3 ==> !final(self).ei,
            opcode == 0xFB ==> final(self).ei,
            misc_loads(*final(self), *final(mmu), *old(self), *old(mmu), opcode),
            misc_arith(*final(self), *old(self), opcode),
            misc_acc(*final(self), *old(self), *old(mmu), opcode),
            misc_mem(*final(self), *final(mmu), *old(self), *old(mmu), opcode),
            misc_frame(*final(self), *final(mmu), *old(self), *old(mmu), opcode),
            misc_wide(*final(self), *final(mmu), *old(self), *old(mmu), opcode),
            misc_stack(*final(self), *final(mmu), *old(self), *old(mmu), opcode),
    {
        let k = (opcode / 16) % 4;
        let taken = self.cond(opcode);
        proof {
            lemma_high_page(self.reg.c_reg);
            lemma_high_page(mmu.read(self.reg.program_counter));
        }
        match opcode {
            // RET cc
            0xC0 | 0xC8 | 0xD0 | 0xD8 => {
                if taken {
                    self.reg.program_counter = self.stack_pop(mmu);
                }
            },
            // POP
            0xC1 | 0xD1 => {
                let v = self.stack_pop(mmu);
                match opcode {
                    0xC1 => self.reg.set_bc(v),
                    0xD1 => self.reg.set_de(v),
                    0xE1 => self.reg.set_hl(v),
                    _ => self.reg.set_af(v),
                }
            },
            // JP cc
            0xC2 | 0xCA | 0xD2 | 0xDA => {
                let pc = self.imm_word(mmu);
                if taken {
                    self.reg.program_counter = pc;
                }
            },
            // JP
            0xC3 => self.reg.program_counter = self.imm_word(mmu),
            // CALL cc
            0xC4 | 0xCC | 0xD4 | 0xDC => {
                let nn = self.imm_word(mmu);
                if taken {
                    let pc = self.reg.program_counter;
                    self.stack_add(mmu, pc);
                    self.reg.program_counter = nn;
                }
            },
            // PUSH
            0xC5 | 0xD5 => {
                let v = match opcode {
                    0xC5 => self.reg.parse_bc(),
                    0xD5 => self.reg.parse_de(),
                    0xE5 => self.reg.parse_hl(),
                    _ => self.reg.parse_af(),
                };
                self.stack_add(mmu, v);
            },
            // ALU A, d8
            0xC6 | 0xCE | 0xD6 | 0xDE => {
                let v = self.imm(mmu);
                self.alu_op((opcode / 8) % 8, v);
            },
            // RST
            0xC7 | 0xCF | 0xD7 | 0xDF => {
                let pc = self.reg.program_counter;
                self.stack_add(mmu, pc);
                self.reg.program_counter = (opcode - 0xC7) as u16;
            },
            // RET / RETI
            0xC9 => self.reg.program_counter = self.stack_pop(mmu),
            0xD9 => {
                self.reg.program_counter = self.stack_pop(mmu);
                self.ei = true;
            },
            // CALL
            0xCD => {
                let nn = self.imm_word(mmu);
                let pc = self.reg.program_counter;
                self.stack_add(mmu, pc);
                self.reg.program_counter = nn;
            },
            _ => {},
        }
    }

    /// The other opcodes from 0xE0 to 0xFF.
    #[verifier::rlimit(60)]
    fn ex_high1<A: Sound>(&mut self, mmu: &mut Mmunit<A>, opcode: u8)
        requires
            old(self).wf(),
            old(mmu).wf(),
            opcode >= 0xE0,
        ensures
            final(self).wf(),
            kept(*final(mmu), *old(mmu)),
            fetchable(old(self).at(inc16(old(self).reg.program_counter, -1)), *old(mmu))
                ==> final(self).reg.program_counter == misc_pc(*old(self), *old(mmu), opcode),
            opcode == 0xF3 ==> !final(self).ei,
            opcode == 0xFB ==> final(self).ei,
            misc_loads(*final(self), *final(mmu), *old(self), *old(mmu), opcode),
            misc_arith(*final(self), *old(self), opcode),
            misc_acc(*final(self), *old(self), *old(mmu), opcode),
            misc_mem(*final(self), *final(mmu), *old(self), *old(mmu), opcode),
            misc_frame(*final(self), *final(mmu), *old(self), *old(mmu), opcode),
            misc_wide(*final(self), *final(mmu), *old(self), *old(mmu), opcode),
            misc_stack(*final(self), *final(mmu), *old(self), *old(mmu), opcode),
    {
        let k = (opcode / 16) % 4;
        let taken = self.cond(opcode);
        proof {
            lemma_high_page(self.reg.c_reg);
            lemma_high_page(mmu.read(self.reg.program_counter));
        }
        match opcode {
            // POP
            0xE1 | 0xF1 => {
                let v = self.stack_pop(mmu);
                match opcode {
                    0xC1 => self.reg.set_bc(v),
                    0xD1 => self.reg.set_de(v),
                    0xE1 => self.reg.set_hl(v),
                    _ => self.reg.set_af(v),
                }
            },
            // PUSH
            0xE5 | 0xF5 => {
                let v = match opcode {
                    0xC5 => self.reg.parse_bc(),
                    0xD5 => self.reg.parse_de(),
                    0xE5 => self.reg.parse_hl(),
                    _ => self.reg.parse_af(),
                };
                self.stack_add(mmu, v);
            },
            // ALU A, d8
            0xE6 | 0xEE | 0xF6 | 0xFE => {
                let v = self.imm(mmu);
                self.alu_op((opcode / 8) % 8, v);
            },
            // RST
            0xE7 | 0xEF | 0xF7 | 0xFF => {
                let pc = self.reg.program_counter;
                self.stack_add(mmu, pc);
                self.reg.program_counter = (opcode - 0xC7) as u16;
            },
            // LDH (a8), A / LDH A, (a8)
            0xE0 => {
                let a = 0xFF00 | (self.imm(mmu) as u16);
                mmu.set(a, self.reg.a_reg);
            },
            0xF0 => {
                let a = 0xFF00 | (self.imm(mmu) as u16);
                self.reg.a_reg = mmu.get(a);
            },
            // LD (C), A / LD A, (C)
            0xE2 => mmu.set(0xFF00 | (self.reg.c_reg as u16), self.reg.a_reg),
            0xF2 => self.reg.a_reg = mmu.get(0xFF00 | (self.reg.c_reg as u16)),
            // ADD SP, e8 / LD HL, SP+e8
            0xE8 => self.alu_add_sp(mmu),
            0xF8 => {
                let e = self.imm(mmu);
                let v = self.sp_offset(e);
                self.reg.set_hl(v);
            },
            // JP HL / LD SP, HL
            0xE9 => self.reg.program_counter = self.reg.parse_hl(),
            0xF9 => self.reg.stack_pointer = self.reg.parse_hl(),
            // LD (a16), A / LD A, (a16)
            0xEA => {
                let a = self.imm_word(mmu);
                mmu.set(a, self.reg.a_reg);
            },
            0xFA => {
                let a = self.imm_word(mmu);
                self.reg.a_reg = mmu.get(a);
            },
            // DI / EI
            0xF3 => self.ei = false,
            0xFB => self.ei = true,

            _ => {},
        }
    }

    /// Adds the signed immediate byte to the stack pointer.
    pub fn alu_add_sp<A: Sound>(&mut self, mmu: &Mmunit<A>)
        requires
            old(self).wf(),
            mmu.wf(),
        ensures
            ({
                let pc = old(self).reg.program_counter;
                let sp = old(self).reg.stack_pointer;
                let e = mmu.read(pc);
                !is_sound(pc) ==> final(self).reg.stack_pointer == offset(sp, e) && final(self).reg.has_flags(
                    false,
                    false,
                    sp % 16 + e % 16 > 15,
                    sp % 256 + e > 255,
                )
            }),
            final(self).wf(),
            final(self).reg.program_counter == inc16(old(self).reg.program_counter, 1),
            final(self).halted == old(self).halted && final(self).ei == old(self).ei,
            final(self).reg.a_reg == old(self).reg.a_reg,
            final(self).reg.bc() == old(self).reg.bc() && final(self).reg.de() == old(self).reg.de()
                && final(self).reg.hl() == old(self).reg.hl(),
    {
        let e = self.imm(mmu);
        let v = self.sp_offset(e);
        self.reg.stack_pointer = v;
    }

    /// The load block 0x40 to 0x7F (with HALT at 0x76) and the accumulator
    /// block 0x80 to 0xBF: the source operand is in the low three bits, the
    /// destination or the operation in the next three.
    fn ex_block<A: Sound>(&mut self, mmu: &mut Mmunit<A>, opcode: u8)
        requires
            old(self).wf(),
            old(mmu).wf(),
            0x40 <= opcode <= 0xBF,
        ensures
            final(self).wf(),
            kept(*final(mmu), *old(mmu)),
            final(self).reg.program_counter == old(self).reg.program_counter,
            opcode == 0x76 ==> final(self).reg == old(self).reg && *final(mmu) == *old(mmu) && final(self).ei
                == old(self).ei,
            opcode != 0x76 ==> final(self).halted == old(self).halted && final(self).ei == old(self).ei,
            ({
                let o = *old(self);
                let (src, dst) = (opcode % 8, (opcode / 8) % 8);
                &&& block_memory(*final(self), *final(mmu), o, *old(mmu), opcode)
                &&& opcode == 0x76 ==> final(self).halted
                &&& 0x40 <= opcode <= 0x7F && opcode != 0x76 && src != 6 && dst != 6 ==> final(self).reg
                    == with_reg8(o.reg, dst, reg8(o.reg, src)) && *final(mmu) == *old(mmu)
                &&& 0x80 <= opcode && src != 6 ==> final(self).alu_done(
                    o,
                    alu_outcome(dst, o.reg.a_reg, reg8(o.reg, src), o.cf()).0,
                    alu_outcome(dst, o.reg.a_reg, reg8(o.reg, src), o.cf()).1,
                    alu_outcome(dst, o.reg.a_reg, reg8(o.reg, src), o.cf()).2,
                    alu_outcome(dst, o.reg.a_reg, reg8(o.reg, src), o.cf()).3,
                    alu_outcome(dst, o.reg.a_reg, reg8(o.reg, src), o.cf()).4,
                ) && *final(mmu) == *old(mmu)
            }),
    {
        if opcode <= 0x7F {
            if opcode == 0x76 {
                self.halted = true;
            } else {
                let v = self.get_r8(mmu, opcode % 8);
                self.set_r8(mmu, (opcode / 8) % 8, v);
            }
        } else {
            let v = self.get_r8(mmu, opcode % 8);
            self.alu_op((opcode / 8) % 8, v);
        }
    }

    /// Executes one instruction at the program counter and returns its
    /// machine cycles; an undefined opcode stops with an error.
    pub fn ex<A: Sound>(&mut self, mmu: &mut Mmunit<A>) -> (r: Result<u32, CpuError>)
        requires
            old(self).wf(),
            old(mmu).wf(),
        ensures
            final(self).wf(),
            kept(*final(mmu), *old(mmu)),
            r matches Ok(c) ==> c <= 9,
            ex_post(*final(self), *final(mmu), *old(self), *old(mmu), r),
    {
        let ghost pc0 = self.reg.program_counter;
        assert(inc16(inc16(pc0, 1), -1) == pc0);
        assert(inc16(inc16(pc0, 1), 1) == inc16(pc0, 2));
        let opcode = self.imm(mmu);
        if opcode == 0xD3 || opcode == 0xDB || opcode == 0xDD || opcode == 0xE3 || opcode == 0xE4 || opcode == 0xEB
            || opcode == 0xEC || opcode == 0xED || opcode == 0xF4 || opcode == 0xFC || opcode == 0xFD {
            return Err(CpuError::UnsupportedOperation(opcode));
        }
        if opcode == 0xCB {
            let cb = self.imm(mmu);
            self.ex_cb(mmu, cb);
            return Ok(cb_cycles(cb));
        }
        let extra = self.extra(opcode);
        if 0x40 <= opcode && opcode <= 0xBF {
            self.ex_block(mmu, opcode);
        } else {
            self.ex_misc(mmu, opcode);
        }
        Ok(op_cycles(opcode) + extra)
    }

    /// One step: an interrupt dispatch, a halted cycle, or one
    /// instruction. Returns the clock cycles (four per machine cycle).
    pub fn next<A: Sound>(&mut self, mmu: &mut Mmunit<A>) -> (r: Result<u32, CpuError>)
        requires
            old(self).wf(),
            old(mmu).wf(),
        ensures
            final(self).wf(),
            kept(*final(mmu), *old(mmu)),
            r matches Ok(c) ==> c % 4 == 0 && c <= 36,
            step_post(*final(self), *final(mmu), *old(self), *old(mmu), r),
    {
        let ghost o = *self;
        let ghost om = *mmu;
        let c = self.hi(mmu);
        let ghost w = *self;
        let ghost wm = *mmu;
        let mac = if c != 0 {
            c
        } else if self.halted {
            op_cycles(0x00)
        } else {
            assert(w == Cpu { halted: false, ..o } && wm == om);
            match self.ex(mmu) {
                Ok(m) => m,
                Err(e) => {
                    return Err(e);
                },
            }
        };
        assert((mac * 4) / 4 == mac);
        Ok(mac * 4)
    }
}


/// The CPU together with the count of cycles since the last pacing point.
pub struct RTC {
    pub cpu: Cpu,
    pub step_cycles: u32,
    pub step_flip: bool,
}

impl RTC {
    pub open spec fn wf(&self) -> bool {
        self.cpu.wf() && self.step_cycles <= STEP_CYCLES + 36
    }

    pub fn power_up(term: Term) -> (r: Self)
        ensures
            r.wf(),
            r.cpu.reg == Register::power_up_spec(term),
            !r.cpu.halted && r.cpu.ei,
            r.step_cycles == 0,
            !r.step_flip,
    {
        Self { cpu: Cpu::power_up(term), step_cycles: 0, step_flip: false }
    }

    /// Runs one CPU step. Returns its clock cycles, and whether a pacing
    /// point was passed before it: `STEP_CYCLES` cycles have run since the
    /// last one, and the caller waits until `STEP_TIME` milliseconds of real
    /// time have passed since then.
    pub fn next<A: Sound>(&mut self, mmu: &mut Mmunit<A>) -> (r: Result<(u32, bool), CpuError>)
        requires
            old(self).wf(),
            old(mmu).wf(),
        ensures
            final(self).wf(),
            kept(*final(mmu), *old(mmu)),
            r matches Err(e) ==> step_post(final(self).cpu, *final(mmu), old(self).cpu, *old(mmu), Err(e)),
            r matches Ok((c, pace)) ==> {
                &&& c % 4 == 0 && c <= 36
                &&& step_post(final(self).cpu, *final(mmu), old(self).cpu, *old(mmu), Ok(c))
                &&& pace == (old(self).step_cycles > STEP_CYCLES)
                &&& final(self).step_cycles == (if pace {
                    old(self).step_cycles - STEP_CYCLES
                } else {
                    old(self).step_cycles as int
                }) + c
                &&& final(self).step_flip == (old(self).step_flip || pace)
            },
    {
        let pace = self.step_cycles > STEP_CYCLES;
        if pace {
            self.step_flip = true;
            self.step_cycles = self.step_cycles - STEP_CYCLES;
        }
        let cycles = match self.cpu.next(mmu) {
            Ok(c) => c,
            Err(e) => {
                return Err(e);
            },
        };
        self.step_cycles = self.step_cycles + cycles;
        Ok((cycles, pace))
    }

    /// Whether a pacing point was passed since the last call.
    pub fn flip(&mut self) -> (r: bool)
        ensures
            r == old(self).step_flip,
            *final(self) == (RTC { step_flip: false, ..*old(self) }),
    {
        let r = self.step_flip;
        if r {
            self.step_flip = false;
        }
        r
    }
}

} // verus!
