//! Batch note renderer core: peak-normalized stereo waveforms are quantized
//! to 16-bit samples, encoded as raw interleaved PCM or as a WAV container,
//! and written one file per MIDI note. This crate holds the verified pipeline
//! from quantized samples to encoded bytes, together with the format
//! selection, file-naming and batch-planning logic; rendering (floating-point
//! synthesis) and file output live outside it.

pub mod batch;
pub mod filename;
pub mod pcm;
pub mod sample;
pub mod selector;
pub mod wav;
