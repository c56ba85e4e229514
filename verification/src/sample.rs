//! Little-endian byte layout of one 16-bit signed sample.

use vstd::prelude::*;

verus! {

/// The two's-complement 16-bit representation of a sample, as an unsigned
/// value in `0 .. 0x10000`.
pub open spec fn u16_rep(x: i16) -> int {
    if x >= 0 {
        x as int
    } else {
        x as int + 0x10000
    }
}

/// Low byte of the little-endian encoding of `x`.
pub open spec fn lo_byte(x: i16) -> u8 {
    (u16_rep(x) % 256) as u8
}

/// High byte of the little-endian encoding of `x`.
pub open spec fn hi_byte(x: i16) -> u8 {
    (u16_rep(x) / 256) as u8
}

/// The signed 16-bit value denoted by a little-endian byte pair.
pub open spec fn decode_i16_le(lo: u8, hi: u8) -> int {
    let u = lo as int + 256 * (hi as int);
    if u < 0x8000 {
        u
    } else {
        u - 0x10000
    }
}

/// Decoding the two bytes of a sample gives the sample back.
pub proof fn lemma_sample_round_trip(x: i16)
    ensures
        decode_i16_le(lo_byte(x), hi_byte(x)) == x,
{
    let u = u16_rep(x);
    assert(0 <= u < 0x10000);
    vstd::arithmetic::div_mod::lemma_fundamental_div_mod(u, 256);
    assert(u / 256 < 256) by (nonlinear_arith)
        requires
            0 <= u < 0x10000,
    ;
}

/// The unsigned 16-bit representation of `x`, computed without overflow.
pub fn sample_rep(x: i16) -> (u: u16)
    ensures
        u as int == u16_rep(x),
{
    if x >= 0 {
        x as u16
    } else {
        ((x as i32) + 0x10000) as u16
    }
}

/// The little-endian byte pair `(low, high)` of one sample.
pub fn sample_bytes(x: i16) -> (r: (u8, u8))
    ensures
        r.0 == lo_byte(x),
        r.1 == hi_byte(x),
{
    let u: u16 = sample_rep(x);
    ((u % 256) as u8, (u / 256) as u8)
}

} // verus!
