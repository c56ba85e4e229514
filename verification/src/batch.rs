//! The batch plan: the fixed rendering parameters, the per-format encoder
//! dispatch, and the planned names of the 128 output files, one per MIDI note.

use vstd::prelude::*;

use crate::filename::{filename_spec, note_filename};
use crate::pcm::{encode_pcm, pcm_bytes};
use crate::selector::Format;
use crate::wav::{encode_wav, wav_bytes};

verus! {

/// Number of MIDI notes one batch renders: notes 0 through 127.
pub const NOTE_COUNT: usize = 128;

/// The fixed parameters of one batch, passed explicitly so that the pipeline
/// is inspectable rather than hidden in module-level defaults.
pub struct RenderConfig {
    /// Output sample rate, in frames per second.
    pub sample_rate: u32,
    /// Length of each rendered note, in seconds.
    pub duration_seconds: u32,
    /// MIDI velocity of every note-on event.
    pub velocity: u8,
    /// MIDI channel of every note-on event.
    pub channel: u8,
}

impl RenderConfig {
    /// Well-formedness: at least one frame is rendered, the data chunk of a
    /// full buffer fits the 32-bit length fields of a WAV header, and the
    /// note-on parameters are in MIDI range.
    pub open spec fn wf(self) -> bool {
        &&& 1 <= self.sample_rate
        &&& 1 <= self.duration_seconds
        &&& 4 * (self.duration_seconds as int * self.sample_rate as int) + 36 <= u32::MAX
        &&& self.velocity <= 127
        &&& self.channel <= 15
    }

    /// Frames in one rendered buffer: duration times sample rate.
    pub fn sample_count(&self) -> (n: usize)
        requires
            self.wf(),
        ensures
            n == self.duration_seconds as int * self.sample_rate as int,
            1 <= n,
            4 * n + 36 <= u32::MAX,
    {
        proof {
            assert(self.duration_seconds as int * self.sample_rate as int >= 1)
                by (nonlinear_arith)
                requires
                    self.sample_rate >= 1,
                    self.duration_seconds >= 1,
            ;
        }
        (self.duration_seconds as u64 * self.sample_rate as u64) as usize
    }
}

/// The parameters of the reference batch: 44,100 Hz, 20-second renders,
/// velocity 127 and channel 0 for every note-on event.
pub fn default_config() -> (c: RenderConfig)
    ensures
        c.sample_rate == 44100,
        c.duration_seconds == 20,
        c.velocity == 127,
        c.channel == 0,
        c.wf(),
{
    RenderConfig { sample_rate: 44100, duration_seconds: 20, velocity: 127, channel: 0 }
}

/// The encoded file image of one quantized stereo buffer under each format.
pub open spec fn encoded_bytes(fmt: Format, left: Seq<i16>, right: Seq<i16>) -> Seq<u8> {
    match fmt {
        Format::Pcm => pcm_bytes(left, right),
        Format::Wav => wav_bytes(left, right),
    }
}

/// Encode one quantized stereo buffer under the chosen format.
pub fn encode(fmt: Format, left: &Vec<i16>, right: &Vec<i16>) -> (r: Vec<u8>)
    requires
        left@.len() == right@.len(),
        4 * left@.len() + 36 <= u32::MAX,
    ensures
        r@ == encoded_bytes(fmt, left@, right@),
{
    match fmt {
        Format::Pcm => encode_pcm(left, right),
        Format::Wav => encode_wav(left, right),
    }
}

/// A non-empty buffer encodes to a non-empty file under either format.
pub proof fn lemma_encoded_nonempty(fmt: Format, left: Seq<i16>, right: Seq<i16>)
    requires
        left.len() == right.len(),
        left.len() >= 1,
    ensures
        encoded_bytes(fmt, left, right).len() >= 4,
{
}

/// The planned output names of one batch, in note order: element `i` is
/// `DEFAULT_<i>.<ext>` for notes 0 through 127.
pub fn batch_filenames(fmt: Format) -> (names: Vec<String>)
    ensures
        names@.len() == NOTE_COUNT,
        forall|i: int| 0 <= i < names@.len() ==> (#[trigger] names@[i])@ == filename_spec(i, fmt),
{
    let mut names: Vec<String> = Vec::new();
    for i in 0..NOTE_COUNT
        invariant
            names@.len() == i,
            forall|j: int| 0 <= j < names@.len()
                ==> (#[trigger] names@[j])@ == filename_spec(j, fmt),
    {
        names.push(note_filename(i as u8, fmt));
    }
    names
}

/// Batch completeness: a plan that names file `i` `DEFAULT_<i>.<ext>` names
/// its 128 files pairwise distinctly, so writing them produces exactly 128
/// files on disk, one per note.
pub proof fn lemma_batch_names_distinct(names: Seq<Seq<char>>, fmt: Format)
    requires
        forall|i: int| 0 <= i < names.len() ==> #[trigger] names[i] == filename_spec(i, fmt),
    ensures
        forall|i: int, j: int|
            0 <= i < names.len() && 0 <= j < names.len() && i != j
                ==> #[trigger] names[i] != #[trigger] names[j],
{
    assert forall|i: int, j: int|
        0 <= i < names.len() && 0 <= j < names.len() && i != j
        implies #[trigger] names[i] != #[trigger] names[j] by {
        crate::filename::lemma_filenames_distinct(i, j, fmt);
    }
}

/// Idempotence of the encoding stage: the encoded image is a function of the
/// quantized buffers and the format alone, so two runs over the same rendered
/// data produce byte-identical files. Determinism of the waveform source
/// itself is the external collaborator's to provide.
pub proof fn lemma_encode_deterministic(
    fmt: Format,
    left: Seq<i16>,
    right: Seq<i16>,
    first: Seq<u8>,
    second: Seq<u8>,
)
    requires
        first == encoded_bytes(fmt, left, right),
        second == encoded_bytes(fmt, left, right),
    ensures
        first == second,
{
}

} // verus!
