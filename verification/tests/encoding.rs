use notebatch::batch::{default_config, encode};
use notebatch::pcm::encode_pcm;
use notebatch::selector::Format;
use notebatch::wav::encode_wav;

fn demo_buffers() -> (Vec<i16>, Vec<i16>) {
    let left: Vec<i16> = vec![1000, -1000, 0, 32767, -32768];
    let right: Vec<i16> = vec![-1, 1, 12345, -12345, 42];
    (left, right)
}

#[test]
fn pcm_length_is_four_bytes_per_frame() {
    let (left, right) = demo_buffers();
    let bytes = encode_pcm(&left, &right);
    assert_eq!(bytes.len(), 4 * left.len());
}

#[test]
fn pcm_bytes_are_interleaved_little_endian() {
    let (left, right) = demo_buffers();
    let bytes = encode_pcm(&left, &right);
    for t in 0..left.len() {
        let l = left[t].to_le_bytes();
        let r = right[t].to_le_bytes();
        assert_eq!(bytes[4 * t], l[0]);
        assert_eq!(bytes[4 * t + 1], l[1]);
        assert_eq!(bytes[4 * t + 2], r[0]);
        assert_eq!(bytes[4 * t + 3], r[1]);
    }
}

#[test]
fn pcm_bytes_decode_back_to_samples() {
    let (left, right) = demo_buffers();
    let bytes = encode_pcm(&left, &right);
    for t in 0..left.len() {
        let l = i16::from_le_bytes([bytes[4 * t], bytes[4 * t + 1]]);
        let r = i16::from_le_bytes([bytes[4 * t + 2], bytes[4 * t + 3]]);
        assert_eq!(l, left[t]);
        assert_eq!(r, right[t]);
    }
}

#[test]
fn silent_buffer_encodes_to_zero_filled_file_of_full_length() {
    let left: Vec<i16> = vec![0; 100];
    let right: Vec<i16> = vec![0; 100];
    let pcm = encode_pcm(&left, &right);
    assert_eq!(pcm.len(), 400);
    assert!(pcm.iter().all(|&b| b == 0));
    let wav = encode_wav(&left, &right);
    assert_eq!(wav.len(), 444);
    assert!(wav[44..].iter().all(|&b| b == 0));
}

#[test]
fn wav_header_declares_the_fixed_format() {
    let (left, right) = demo_buffers();
    let bytes = encode_wav(&left, &right);
    let data_len = (4 * left.len()) as u32;
    assert_eq!(&bytes[0..4], b"RIFF");
    assert_eq!(u32::from_le_bytes([bytes[4], bytes[5], bytes[6], bytes[7]]), 36 + data_len);
    assert_eq!(&bytes[8..12], b"WAVE");
    assert_eq!(&bytes[12..16], b"fmt ");
    assert_eq!(u32::from_le_bytes([bytes[16], bytes[17], bytes[18], bytes[19]]), 16);
    assert_eq!(u16::from_le_bytes([bytes[20], bytes[21]]), 1);
    assert_eq!(u16::from_le_bytes([bytes[22], bytes[23]]), 2);
    assert_eq!(u32::from_le_bytes([bytes[24], bytes[25], bytes[26], bytes[27]]), 44100);
    assert_eq!(u32::from_le_bytes([bytes[28], bytes[29], bytes[30], bytes[31]]), 176400);
    assert_eq!(u16::from_le_bytes([bytes[32], bytes[33]]), 4);
    assert_eq!(u16::from_le_bytes([bytes[34], bytes[35]]), 16);
    assert_eq!(&bytes[36..40], b"data");
    assert_eq!(
        u32::from_le_bytes([bytes[40], bytes[41], bytes[42], bytes[43]]),
        data_len
    );
}

#[test]
fn wav_data_chunk_equals_raw_pcm_stream() {
    let (left, right) = demo_buffers();
    let wav = encode_wav(&left, &right);
    let pcm = encode_pcm(&left, &right);
    assert_eq!(wav.len(), 44 + pcm.len());
    assert_eq!(&wav[44..], &pcm[..]);
}

#[test]
fn hound_decodes_the_wav_image() {
    let (left, right) = demo_buffers();
    let bytes = encode_wav(&left, &right);
    let reader = hound::WavReader::new(std::io::Cursor::new(bytes)).unwrap();
    let spec = reader.spec();
    assert_eq!(spec.channels, 2);
    assert_eq!(spec.sample_rate, 44100);
    assert_eq!(spec.bits_per_sample, 16);
    assert!(matches!(spec.sample_format, hound::SampleFormat::Int));
    let samples: Vec<i16> = reader.into_samples::<i16>().map(|s| s.unwrap()).collect();
    assert_eq!(samples.len(), 2 * left.len());
    for t in 0..left.len() {
        assert_eq!(samples[2 * t], left[t]);
        assert_eq!(samples[2 * t + 1], right[t]);
    }
}

#[test]
fn encode_dispatches_on_the_format() {
    let (left, right) = demo_buffers();
    assert_eq!(encode(Format::Pcm, &left, &right), encode_pcm(&left, &right));
    assert_eq!(encode(Format::Wav, &left, &right), encode_wav(&left, &right));
}

#[test]
fn encoding_twice_is_byte_identical() {
    let (left, right) = demo_buffers();
    let first = encode(Format::Wav, &left, &right);
    let second = encode(Format::Wav, &left, &right);
    assert_eq!(first, second);
    let first_pcm = encode(Format::Pcm, &left, &right);
    let second_pcm = encode(Format::Pcm, &left, &right);
    assert_eq!(first_pcm, second_pcm);
}

#[test]
fn default_config_matches_the_reference_batch() {
    let c = default_config();
    assert_eq!(c.sample_rate, 44100);
    assert_eq!(c.duration_seconds, 20);
    assert_eq!(c.velocity, 127);
    assert_eq!(c.channel, 0);
    assert_eq!(c.sample_count(), 882_000);
}
