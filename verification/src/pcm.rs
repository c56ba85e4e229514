//! Raw PCM encoding: 16-bit samples, two channels interleaved, little-endian.

use vstd::prelude::*;

use crate::sample::{decode_i16_le, hi_byte, lo_byte, lemma_sample_round_trip, sample_bytes};

verus! {

/// Byte `i` of the interleaved little-endian encoding: each frame `t`
/// contributes four bytes, `L-low, L-high, R-low, R-high`.
pub open spec fn frame_byte(left: Seq<i16>, right: Seq<i16>, i: int) -> u8 {
    let t = i / 4;
    if i % 4 == 0 {
        lo_byte(left[t])
    } else if i % 4 == 1 {
        hi_byte(left[t])
    } else if i % 4 == 2 {
        lo_byte(right[t])
    } else {
        hi_byte(right[t])
    }
}

/// The raw PCM byte stream of a stereo buffer: `4 × sample_count` bytes.
pub open spec fn pcm_bytes(left: Seq<i16>, right: Seq<i16>) -> Seq<u8> {
    Seq::new((4 * left.len()) as nat, |i: int| frame_byte(left, right, i))
}

proof fn lemma_frame_offsets(t: int)
    by (nonlinear_arith)
    requires
        t >= 0,
    ensures
        (4 * t) / 4 == t && (4 * t) % 4 == 0,
        (4 * t + 1) / 4 == t && (4 * t + 1) % 4 == 1,
        (4 * t + 2) / 4 == t && (4 * t + 2) % 4 == 2,
        (4 * t + 3) / 4 == t && (4 * t + 3) % 4 == 3,
{
}

/// Encode a stereo buffer of quantized samples as raw interleaved PCM.
pub fn encode_pcm(left: &Vec<i16>, right: &Vec<i16>) -> (r: Vec<u8>)
    requires
        left@.len() == right@.len(),
    ensures
        r@ == pcm_bytes(left@, right@),
{
    let n: usize = left.len();
    let mut buf: Vec<u8> = Vec::new();
    for t in 0..n
        invariant
            n == left@.len() == right@.len(),
            buf@.len() == 4 * t,
            forall|i: int| 0 <= i < buf@.len() ==> buf@[i] == frame_byte(left@, right@, i),
    {
        let (l_lo, l_hi) = sample_bytes(left[t]);
        let (r_lo, r_hi) = sample_bytes(right[t]);
        buf.push(l_lo);
        buf.push(l_hi);
        buf.push(r_lo);
        buf.push(r_hi);
        proof {
            lemma_frame_offsets(t as int);
        }
    }
    proof {
        assert(buf@ =~= pcm_bytes(left@, right@));
    }
    buf
}

/// Byte layout of the raw PCM stream: the stream has exactly four bytes per
/// frame, and the byte pairs at `4t` and `4t + 2` decode (little-endian,
/// signed 16-bit) to the left and right sample of frame `t`.
pub proof fn lemma_pcm_byte_layout(left: Seq<i16>, right: Seq<i16>, t: int)
    requires
        left.len() == right.len(),
        0 <= t < left.len(),
    ensures
        pcm_bytes(left, right).len() == 4 * left.len(),
        decode_i16_le(pcm_bytes(left, right)[4 * t], pcm_bytes(left, right)[4 * t + 1])
            == left[t],
        decode_i16_le(pcm_bytes(left, right)[4 * t + 2], pcm_bytes(left, right)[4 * t + 3])
            == right[t],
{
    lemma_frame_offsets(t);
    lemma_sample_round_trip(left[t]);
    lemma_sample_round_trip(right[t]);
}

/// An all-zero buffer encodes to an all-zero byte stream of full length:
/// a silent rendering still produces a file of the correct size.
pub proof fn lemma_silence_encodes_to_zero(left: Seq<i16>, right: Seq<i16>)
    requires
        left.len() == right.len(),
        forall|t: int| 0 <= t < left.len() ==> left[t] == 0,
        forall|t: int| 0 <= t < right.len() ==> right[t] == 0,
    ensures
        pcm_bytes(left, right).len() == 4 * left.len(),
        forall|i: int| 0 <= i < pcm_bytes(left, right).len()
            ==> pcm_bytes(left, right)[i] == 0,
{
    assert forall|i: int| 0 <= i < pcm_bytes(left, right).len()
        implies pcm_bytes(left, right)[i] == 0 by {
        let t = i / 4;
        assert(0 <= t < left.len()) by (nonlinear_arith)
            requires
                0 <= i < 4 * left.len(),
                t == i / 4,
        ;
    }
}

} // verus!
