//! The arithmetic of the processor's ALU, stated over integers: results and
//! the flags each operation computes.
use vstd::prelude::*;

verus! {

pub open spec fn bit(b: bool) -> int {
    if b { 1 } else { 0 }
}

pub open spec fn add_result(a: u8, v: u8, cin: bool) -> u8 {
    ((a + v + bit(cin)) % 256) as u8
}

pub open spec fn add_half(a: u8, v: u8, cin: bool) -> bool {
    a % 16 + v % 16 + bit(cin) > 15
}

pub open spec fn add_carry(a: u8, v: u8, cin: bool) -> bool {
    a + v + bit(cin) > 255
}

pub open spec fn sub_result(a: u8, v: u8, cin: bool) -> u8 {
    ((a - v - bit(cin) + 512) % 256) as u8
}

pub open spec fn sub_half(a: u8, v: u8, cin: bool) -> bool {
    a % 16 < v % 16 + bit(cin)
}

pub open spec fn sub_carry(a: u8, v: u8, cin: bool) -> bool {
    a < v + bit(cin)
}

pub open spec fn inc_result(v: u8) -> u8 {
    ((v + 1) % 256) as u8
}

pub open spec fn dec_result(v: u8) -> u8 {
    ((v + 255) % 256) as u8
}

pub open spec fn add16_result(a: u16, v: u16) -> u16 {
    ((a + v) % 65536) as u16
}

/// The signed value of a byte read as two's complement.
pub open spec fn signed(v: u8) -> int {
    if v < 128 { v as int } else { v - 256 }
}

/// A word moved by a signed byte, wrapping around.
pub open spec fn offset(w: u16, v: u8) -> u16 {
    ((w + signed(v) + 65536) % 65536) as u16
}

pub open spec fn swap_result(v: u8) -> u8 {
    (v / 16 + (v % 16) * 16) as u8
}

/// Whether DAA adds or subtracts 0x06 to the accumulator.
pub open spec fn daa_low(a: u8, n: bool, h: bool) -> bool {
    h || (!n && a % 16 > 9)
}

/// Whether DAA adds or subtracts 0x60, which is also the carry it leaves.
pub open spec fn daa_high(a: u8, n: bool, c: bool) -> bool {
    c || (!n && a > 0x99)
}

pub open spec fn daa_result(a: u8, n: bool, h: bool, c: bool) -> u8 {
    let adjust = 6 * bit(daa_low(a, n, h)) + 0x60 * bit(daa_high(a, n, c));
    if n {
        ((a - adjust + 256) % 256) as u8
    } else {
        ((a + adjust) % 256) as u8
    }
}

pub open spec fn rotl_result(v: u8, cin: bool) -> u8 {
    ((v * 2) % 256 + bit(cin)) as u8
}

pub open spec fn rotr_result(v: u8, cin: bool) -> u8 {
    (v / 2 + 128 * bit(cin)) as u8
}

/// Adding a byte and then subtracting it again leaves the accumulator as it
/// was, and the carries of the addition are those of the sum widened to a
/// word.
pub proof fn lemma_add_then_sub(a: u8, b: u8)
    ensures
        sub_result(add_result(a, b, false), b, false) == a,
        add_carry(a, b, false) == ((a as u16 + b as u16) as u16 & 0x100 != 0),
        add_half(a, b, false) == (((a as u16 & 0xF) + (b as u16 & 0xF)) as u16 & 0x10 != 0),
{
    let (x, y) = (a as u16, b as u16);
    assert(((x + y) as u16 & 0x100 != 0) == (x + y > 255) && ((((x & 0xF) + (y & 0xF)) as u16
        & 0x10 != 0) == (x % 16 + y % 16 > 15))) by (bit_vector)
        requires
            x < 256,
            y < 256,
    ;
}

} // verus!
