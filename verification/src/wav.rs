//! WAV container encoding: the canonical RIFF/fmt/data chunk layout for
//! 16-bit integer PCM, two channels at 44,100 Hz, followed by the same
//! interleaved sample bytes as the raw PCM stream.

use vstd::prelude::*;

use crate::pcm::pcm_bytes;

verus! {

/// Little-endian bytes of a 16-bit unsigned field.
pub open spec fn le16(v: int) -> Seq<u8> {
    seq![(v % 256) as u8, ((v / 256) % 256) as u8]
}

/// Little-endian bytes of a 32-bit unsigned field.
pub open spec fn le32(v: int) -> Seq<u8> {
    seq![
        (v % 256) as u8,
        ((v / 256) % 256) as u8,
        ((v / 0x10000) % 256) as u8,
        ((v / 0x1000000) % 256) as u8,
    ]
}

/// The unsigned value denoted by a little-endian 16-bit field.
pub open spec fn decode_u16_le(b0: u8, b1: u8) -> int {
    b0 as int + 256 * (b1 as int)
}

/// The unsigned value denoted by a little-endian 32-bit field.
pub open spec fn decode_u32_le(b0: u8, b1: u8, b2: u8, b3: u8) -> int {
    b0 as int + 256 * (b1 as int) + 0x10000 * (b2 as int) + 0x1000000 * (b3 as int)
}

/// The 44-byte WAV header for `sample_count` stereo frames of 16-bit integer
/// PCM at 44,100 Hz: `RIFF` tag and chunk size, `WAVE` and `fmt ` tags, the
/// PCMWAVEFORMAT fields (format tag 1, 2 channels, rate 44,100, byte rate
/// 176,400, block align 4, 16 bits per sample), then the `data` tag and the
/// data chunk length `4 × sample_count`.
pub open spec fn wav_header(sample_count: int) -> Seq<u8> {
    let data_len = 4 * sample_count;
    seq![0x52u8, 0x49u8, 0x46u8, 0x46u8] + le32(36 + data_len)
        + seq![0x57u8, 0x41u8, 0x56u8, 0x45u8]
        + seq![0x66u8, 0x6du8, 0x74u8, 0x20u8] + le32(16) + le16(1) + le16(2)
        + le32(44100) + le32(176400) + le16(4) + le16(16)
        + seq![0x64u8, 0x61u8, 0x74u8, 0x61u8] + le32(data_len)
}

/// The complete WAV file image for a stereo buffer of quantized samples.
pub open spec fn wav_bytes(left: Seq<i16>, right: Seq<i16>) -> Seq<u8> {
    wav_header(left.len() as int) + pcm_bytes(left, right)
}

/// Append the little-endian bytes of a 16-bit field.
fn push_le16(buf: &mut Vec<u8>, v: u16)
    ensures
        final(buf)@ == old(buf)@ + le16(v as int),
{
    buf.push((v % 256) as u8);
    buf.push((v / 256) as u8);
    proof {
        assert(buf@ =~= old(buf)@ + le16(v as int));
    }
}

/// Append the little-endian bytes of a 32-bit field.
fn push_le32(buf: &mut Vec<u8>, v: u32)
    ensures
        final(buf)@ == old(buf)@ + le32(v as int),
{
    buf.push((v % 256) as u8);
    buf.push(((v / 256) % 256) as u8);
    buf.push(((v / 0x10000) % 256) as u8);
    buf.push((v / 0x1000000) as u8);
    proof {
        assert(v / 0x1000000 < 256) by (nonlinear_arith)
            requires
                v <= u32::MAX,
        ;
        assert(buf@ =~= old(buf)@ + le32(v as int));
    }
}

/// Encode a stereo buffer of quantized samples as a complete WAV file image.
pub fn encode_wav(left: &Vec<i16>, right: &Vec<i16>) -> (r: Vec<u8>)
    requires
        left@.len() == right@.len(),
        4 * left@.len() + 36 <= u32::MAX,
    ensures
        r@ == wav_bytes(left@, right@),
{
    let data_len: u32 = (4 * left.len()) as u32;
    let mut buf: Vec<u8> = Vec::new();
    buf.push(0x52);
    buf.push(0x49);
    buf.push(0x46);
    buf.push(0x46);
    push_le32(&mut buf, 36 + data_len);
    buf.push(0x57);
    buf.push(0x41);
    buf.push(0x56);
    buf.push(0x45);
    buf.push(0x66);
    buf.push(0x6d);
    buf.push(0x74);
    buf.push(0x20);
    push_le32(&mut buf, 16);
    push_le16(&mut buf, 1);
    push_le16(&mut buf, 2);
    push_le32(&mut buf, 44100);
    push_le32(&mut buf, 176400);
    push_le16(&mut buf, 4);
    push_le16(&mut buf, 16);
    buf.push(0x64);
    buf.push(0x61);
    buf.push(0x74);
    buf.push(0x61);
    push_le32(&mut buf, data_len);
    proof {
        assert(buf@ =~= wav_header(left@.len() as int));
    }
    let mut data = crate::pcm::encode_pcm(left, right);
    buf.append(&mut data);
    buf
}

/// A little-endian 16-bit field decodes to the value it was built from.
pub proof fn lemma_le16_round_trip(v: int)
    requires
        0 <= v < 0x10000,
    ensures
        decode_u16_le(le16(v)[0], le16(v)[1]) == v,
{
    vstd::arithmetic::div_mod::lemma_fundamental_div_mod(v, 256);
    assert(v / 256 < 256) by (nonlinear_arith)
        requires
            0 <= v < 0x10000,
    ;
}

/// A little-endian 32-bit field decodes to the value it was built from.
pub proof fn lemma_le32_round_trip(v: int)
    requires
        0 <= v <= u32::MAX,
    ensures
        decode_u32_le(le32(v)[0], le32(v)[1], le32(v)[2], le32(v)[3]) == v,
{
    assert((v % 256) + 256 * ((v / 256) % 256) + 0x10000 * ((v / 0x10000) % 256)
        + 0x1000000 * ((v / 0x1000000) % 256) == v) by (nonlinear_arith)
        requires
            0 <= v <= u32::MAX,
    ;
}

/// Container correctness: the header declares 2 channels, 44,100 Hz and
/// 16 bits per sample; the data chunk length field equals `4 × sample_count`;
/// and the bytes after the 44-byte header are exactly the raw PCM stream, so
/// decoding the container reproduces the raw encoder's samples.
pub proof fn lemma_wav_container_correct(left: Seq<i16>, right: Seq<i16>)
    requires
        left.len() == right.len(),
        4 * left.len() + 36 <= u32::MAX,
    ensures
        wav_bytes(left, right).len() == 44 + 4 * left.len(),
        decode_u16_le(wav_bytes(left, right)[22], wav_bytes(left, right)[23]) == 2,
        decode_u32_le(
            wav_bytes(left, right)[24],
            wav_bytes(left, right)[25],
            wav_bytes(left, right)[26],
            wav_bytes(left, right)[27],
        ) == 44100,
        decode_u16_le(wav_bytes(left, right)[34], wav_bytes(left, right)[35]) == 16,
        decode_u32_le(
            wav_bytes(left, right)[40],
            wav_bytes(left, right)[41],
            wav_bytes(left, right)[42],
            wav_bytes(left, right)[43],
        ) == 4 * left.len(),
        wav_bytes(left, right).subrange(44, wav_bytes(left, right).len() as int)
            =~= pcm_bytes(left, right),
{
    let n = left.len() as int;
    lemma_le16_round_trip(2);
    lemma_le32_round_trip(44100);
    lemma_le16_round_trip(16);
    lemma_le32_round_trip(4 * n);
}

/// A silent buffer still yields a well-formed container: the full 44-byte
/// header followed by a data chunk of the correct length holding only zeros.
pub proof fn lemma_silent_wav(left: Seq<i16>, right: Seq<i16>)
    requires
        left.len() == right.len(),
        4 * left.len() + 36 <= u32::MAX,
        forall|t: int| 0 <= t < left.len() ==> left[t] == 0,
        forall|t: int| 0 <= t < right.len() ==> right[t] == 0,
    ensures
        wav_bytes(left, right).len() == 44 + 4 * left.len(),
        forall|i: int| 44 <= i < wav_bytes(left, right).len()
            ==> #[trigger] wav_bytes(left, right)[i] == 0,
{
    lemma_wav_container_correct(left, right);
    crate::pcm::lemma_silence_encodes_to_zero(left, right);
    assert forall|i: int| 44 <= i < wav_bytes(left, right).len()
        implies #[trigger] wav_bytes(left, right)[i] == 0 by {
        assert(wav_bytes(left, right)[i]
            == wav_bytes(left, right).subrange(44, wav_bytes(left, right).len() as int)[i - 44]);
    }
}

} // verus!
