//! The processor's register file: eight byte registers, their word pairs,
//! the flag bits held in the upper nibble of F, the stack pointer and the
//! program counter.
use vstd::prelude::*;
use crate::bits::{word, lemma_word, lemma_split};

verus! {

/// The console model, which decides the power-up value of A.
#[derive(Clone, Copy, PartialEq, Eq, Structural, Debug)]
pub enum Term {
    GB,
    GBP,
    GBC,
    SGB,
}

/// The four flag bits of F.
#[derive(Clone, Copy, PartialEq, Eq, Structural, Debug)]
pub enum Flags {
    /// Set when the result of an operation is zero.
    ZeroFlag,
    /// Set when the last operation was a subtraction.
    SubtractionFlag,
    /// Set on a carry out of the low nibble.
    HalfCarryFlag,
    /// Set on a carry out of the top bit, or a borrow.
    CarryFlag,
}

impl Flags {
    pub open spec fn mask(self) -> u8 {
        match self {
            Flags::ZeroFlag => 0x80,
            Flags::SubtractionFlag => 0x40,
            Flags::HalfCarryFlag => 0x20,
            Flags::CarryFlag => 0x10,
        }
    }

    /// The bit of F that holds this flag.
    pub fn orgin(self) -> (r: u8)
        ensures
            r == self.mask(),
    {
        match self {
            Flags::ZeroFlag => 0x80,
            Flags::SubtractionFlag => 0x40,
            Flags::HalfCarryFlag => 0x20,
            Flags::CarryFlag => 0x10,
        }
    }

    /// Every bit of F but this flag's.
    pub fn inverse(self) -> (r: u8)
        ensures
            r == !self.mask(),
    {
        !self.orgin()
    }
}

/// Whether the bit `m` is set in `f`.
pub open spec fn bit_set(f: u8, m: u8) -> bool {
    f & m != 0
}

proof fn lemma_flag_bits(f: u8, m: u8, g: u8)
    requires
        m == 0x80u8 || m == 0x40u8 || m == 0x20u8 || m == 0x10u8,
        g == 0x80u8 || g == 0x40u8 || g == 0x20u8 || g == 0x10u8,
    ensures
        (f | m) & m != 0,
        (f & !m) & m == 0,
        g != m ==> (((f | m) & g != 0) == (f & g != 0)),
        g != m ==> (((f & !m) & g != 0) == (f & g != 0)),
        (f | m) & 0x0F == f & 0x0F,
        (f & !m) & 0x0F == f & 0x0F,
{
    assert(
        (f | m) & m != 0 && (f & !m) & m == 0 && (g != m ==> (((f | m) & g != 0) == (f & g != 0)))
            && (g != m ==> (((f & !m) & g != 0) == (f & g != 0))) && (f | m) & 0x0F == f & 0x0F
            && (f & !m) & 0x0F == f & 0x0F
    ) by (bit_vector)
        requires
            m == 0x80u8 || m == 0x40u8 || m == 0x20u8 || m == 0x10u8,
            g == 0x80u8 || g == 0x40u8 || g == 0x20u8 || g == 0x10u8,
    ;
}

/// All registers of the processor.
#[derive(Clone, Copy, PartialEq, Eq, Structural, Debug)]
pub struct Register {
    /// The accumulator.
    pub a_reg: u8,
    /// The flag register; its low nibble is always zero.
    pub f_reg: u8,
    pub b_reg: u8,
    pub c_reg: u8,
    pub d_reg: u8,
    pub e_reg: u8,
    pub h_reg: u8,
    pub l_reg: u8,
    pub stack_pointer: u16,
    pub program_counter: u16,
}

impl Register {
    /// The low nibble of F is zero.
    pub open spec fn wf(&self) -> bool {
        self.f_reg & 0x0F == 0
    }

    pub open spec fn flag(&self, f: Flags) -> bool {
        bit_set(self.f_reg, f.mask())
    }

    /// The four flags have the given values.
    pub open spec fn has_flags(&self, z: bool, n: bool, h: bool, c: bool) -> bool {
        &&& self.flag(Flags::ZeroFlag) == z
        &&& self.flag(Flags::SubtractionFlag) == n
        &&& self.flag(Flags::HalfCarryFlag) == h
        &&& self.flag(Flags::CarryFlag) == c
    }

    /// Every register but A and F is the same in both.
    pub open spec fn same_but_af(&self, o: Register) -> bool {
        &&& self.b_reg == o.b_reg
        &&& self.c_reg == o.c_reg
        &&& self.d_reg == o.d_reg
        &&& self.e_reg == o.e_reg
        &&& self.h_reg == o.h_reg
        &&& self.l_reg == o.l_reg
        &&& self.stack_pointer == o.stack_pointer
        &&& self.program_counter == o.program_counter
    }

    pub open spec fn af(&self) -> u16 {
        word(self.a_reg, self.f_reg)
    }

    pub open spec fn bc(&self) -> u16 {
        word(self.b_reg, self.c_reg)
    }

    pub open spec fn de(&self) -> u16 {
        word(self.d_reg, self.e_reg)
    }

    pub open spec fn hl(&self) -> u16 {
        word(self.h_reg, self.l_reg)
    }

    /// A as the high byte and F as the low byte.
    pub fn parse_af(&self) -> (r: u16)
        ensures
            r == self.af(),
    {
        proof {
            lemma_word(self.a_reg, self.f_reg);
        }
        (u16::from(self.a_reg) << 8) | u16::from(self.f_reg)
    }

    /// B as the high byte and C as the low byte.
    pub fn parse_bc(&self) -> (r: u16)
        ensures
            r == self.bc(),
    {
        proof {
            lemma_word(self.b_reg, self.c_reg);
        }
        (u16::from(self.b_reg) << 8) | u16::from(self.c_reg)
    }

    /// D as the high byte and E as the low byte.
    pub fn parse_de(&self) -> (r: u16)
        ensures
            r == self.de(),
    {
        proof {
            lemma_word(self.d_reg, self.e_reg);
        }
        (u16::from(self.d_reg) << 8) | u16::from(self.e_reg)
    }

    /// H as the high byte and L as the low byte.
    pub fn parse_hl(&self) -> (r: u16)
        ensures
            r == self.hl(),
    {
        proof {
            lemma_word(self.h_reg, self.l_reg);
        }
        (u16::from(self.h_reg) << 8) | u16::from(self.l_reg)
    }

    /// Sets A from the high byte and F from the high nibble of the low byte;
    /// the low nibble of F stays zero.
    pub fn set_af(&mut self, reg: u16)
        ensures
            final(self).a_reg == reg / 256,
            final(self).f_reg == reg % 256 / 16 * 16,
            final(self).wf(),
            *final(self) == (Register { a_reg: final(self).a_reg, f_reg: final(self).f_reg, ..*old(self) }),
    {
        proof {
            lemma_split(reg);
        }
        self.a_reg = (reg >> 8) as u8;
        self.f_reg = (reg & 0x00F0) as u8;
        let ghost f = self.f_reg;
        assert(f & 0x0F == 0) by (bit_vector)
            requires f == (reg & 0x00F0) as u8;
    }

    /// Sets B from the high byte and C from the low byte.
    pub fn set_bc(&mut self, reg: u16)
        ensures
            final(self).bc() == reg,
            *final(self) == (Register { b_reg: final(self).b_reg, c_reg: final(self).c_reg, ..*old(self) }),
    {
        proof {
            lemma_split(reg);
        }
        self.b_reg = (reg >> 8) as u8;
        self.c_reg = (reg & 0x00FF) as u8;
    }

    /// Sets D from the high byte and E from the low byte.
    pub fn set_de(&mut self, reg: u16)
        ensures
            final(self).de() == reg,
            *final(self) == (Register { d_reg: final(self).d_reg, e_reg: final(self).e_reg, ..*old(self) }),
    {
        proof {
            lemma_split(reg);
        }
        self.d_reg = (reg >> 8) as u8;
        self.e_reg = (reg & 0x00FF) as u8;
    }

    /// Sets H from the high byte and L from the low byte.
    pub fn set_hl(&mut self, reg: u16)
        ensures
            final(self).hl() == reg,
            *final(self) == (Register { h_reg: final(self).h_reg, l_reg: final(self).l_reg, ..*old(self) }),
    {
        proof {
            lemma_split(reg);
        }
        self.h_reg = (reg >> 8) as u8;
        self.l_reg = (reg & 0x00FF) as u8;
    }

    pub fn get_flag(&self, flag: Flags) -> (r: bool)
        ensures
            r == self.flag(flag),
    {
        (self.f_reg & flag.orgin()) != 0
    }

    /// Sets or clears one flag; the other flags and registers stay.
    pub fn set_flag(&mut self, flag: Flags, v: bool)
        ensures
            final(self).flag(flag) == v,
            forall|g: Flags| g != flag ==> final(self).flag(g) == old(self).flag(g),
            final(self).f_reg & 0x0F == old(self).f_reg & 0x0F,
            *final(self) == (Register { f_reg: final(self).f_reg, ..*old(self) }),
    {
        let ghost f = self.f_reg;
        let m = flag.orgin();
        if v {
            self.f_reg |= m;
        } else {
            self.f_reg &= flag.inverse();
        }
        proof {
            assert forall|g: Flags| g != flag implies final(self).flag(g) == old(self).flag(g) by {
                lemma_flag_bits(f, m, g.mask());
            }
            lemma_flag_bits(f, m, m);
        }
    }

    pub open spec fn power_up_spec(term: Term) -> Register {
        Register {
            a_reg: match term {
                Term::GB => 0x01u8,
                Term::GBP => 0xFFu8,
                Term::GBC => 0x11u8,
                Term::SGB => 0x01u8,
            },
            f_reg: 0xB0,
            b_reg: 0x00,
            c_reg: 0x13,
            d_reg: 0x00,
            e_reg: 0xD8,
            h_reg: 0x01,
            l_reg: 0x4D,
            stack_pointer: 0xFFFE,
            program_counter: 0x0100,
        }
    }

    /// The registers after the power-up sequence of the given model.
    pub fn power_up(term: Term) -> (r: Self)
        ensures
            r == Register::power_up_spec(term),
            r.wf(),
            r.a_reg == match term {
                Term::GB => 0x01u8,
                Term::GBP => 0xFFu8,
                Term::GBC => 0x11u8,
                Term::SGB => 0x01u8,
            },
            r.f_reg == 0xB0,
            r.bc() == 0x0013,
            r.de() == 0x00D8,
            r.hl() == 0x014D,
            r.program_counter == 0x0100,
            r.stack_pointer == 0xFFFE,
    {
        let a_reg = match term {
            Term::GB => 0x01,
            Term::GBP => 0xFF,
            Term::GBC => 0x11,
            Term::SGB => 0x01,
        };
        let r = Register {
            a_reg,
            f_reg: 0xB0,
            b_reg: 0x00,
            c_reg: 0x13,
            d_reg: 0x00,
            e_reg: 0xD8,
            h_reg: 0x01,
            l_reg: 0x4D,
            stack_pointer: 0xFFFE,
            program_counter: 0x0100,
        };
        assert(0xB0u8 & 0x0F == 0) by (bit_vector);
        r
    }
}


/// Writing a word to AF and reading it back gives the word with the low
/// nibble of F cleared.
pub proof fn lemma_af_round_trip(x: u16, r: Register)
    requires
        r.a_reg == x / 256,
        r.f_reg == x % 256 / 16 * 16,
    ensures
        r.af() == x & 0xFFF0,
{
    assert((x / 256) * 256 + x % 256 / 16 * 16 == x & 0xFFF0) by (bit_vector);
}

} // verus!
