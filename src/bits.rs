//! Small shared pieces: facts about bit operations on bytes and words,
//! and byte buffers of a given length.
use vstd::prelude::*;

verus! {

/// The high byte and the low byte of a word put together.
pub open spec fn word(hi: u8, lo: u8) -> u16 {
    (hi as int * 256 + lo as int) as u16
}

pub proof fn lemma_word(hi: u8, lo: u8)
    ensures
        ((hi as u16) << 8u16) | (lo as u16) == word(hi, lo),
        hi as int * 256 + lo as int <= 0xFFFF,
{
    assert(((hi as u16) << 8u16) | (lo as u16) == (hi as u16) * 256 + (lo as u16)) by (bit_vector);
}

pub proof fn lemma_split(w: u16)
    ensures
        (w >> 8u16) as u8 == w / 256,
        (w & 0x00FF) as u8 == w % 256,
        (w & 0x00F0) as u8 == w % 256 / 16 * 16,
{
    assert((w >> 8u16) as u8 == w / 256) by (bit_vector);
    assert((w & 0x00FF) as u8 == w % 256) by (bit_vector);
    assert((w & 0x00F0) as u8 == w % 256 / 16 * 16) by (bit_vector);
}


pub proof fn lemma_masks(v: u8)
    ensures
        v & 0x7F <= 0x7F,
        v & 0x1F <= 0x1F,
        v & 0x0F <= 0x0F,
        v & 0x07 <= 0x07,
        v & 0x03 <= 0x03,
        v & 0x01 <= 0x01,
{
    assert(v & 0x7F <= 0x7F && v & 0x1F <= 0x1F && v & 0x0F <= 0x0F && v & 0x07 <= 0x07 && v & 0x03 <= 0x03
        && v & 0x01 <= 0x01) by (bit_vector);
}


pub proof fn lemma_high_page(x: u8)
    ensures
        0xFF00u16 | (x as u16) == 0xFF00 + x,
{
    assert(0xFF00u16 | (x as u16) == 0xFF00 + x) by (bit_vector);
}


/// A buffer of `n` copies of `v`.
pub fn filled(n: usize, v: u8) -> (r: Vec<u8>)
    ensures
        r@ == Seq::new(n as nat, |i: int| v),
{
    let mut out: Vec<u8> = Vec::new();
    let mut i: usize = 0;
    while i < n
        invariant
            i <= n,
            out@ == Seq::new(i as nat, |j: int| v),
        decreases n - i,
    {
        out.push(v);
        i = i + 1;
        assert(out@ =~= Seq::new(i as nat, |j: int| v));
    }
    out
}

} // verus!
