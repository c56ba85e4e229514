//! Output format selection: the two recognized encoder variants and the
//! parsing of the command-line selector value.

use vstd::prelude::*;

verus! {

/// The closed choice of output encodings: a standard tagged WAV container,
/// or a headerless stream of raw interleaved PCM bytes.
#[derive(Clone, Copy, Debug, PartialEq, Eq, Structural)]
pub enum Format {
    Wav,
    Pcm,
}

/// The error raised by an unrecognized output-format selector; it is fatal
/// and is detected before any rendering begins.
#[derive(Clone, Copy, Debug, PartialEq, Eq, Structural)]
pub struct UnknownFormat;

/// The file extension of each format, case as written on disk.
pub open spec fn extension_spec(fmt: Format) -> Seq<char> {
    match fmt {
        Format::Wav => "WAV"@,
        Format::Pcm => "pcm"@,
    }
}

/// The file extension used for output files of the given format.
pub fn extension(fmt: Format) -> (r: &'static str)
    ensures
        r@ == extension_spec(fmt),
{
    match fmt {
        Format::Wav => "WAV",
        Format::Pcm => "pcm",
    }
}

/// Parse the output-format selector: exactly `wav` and `pcm` are recognized,
/// and every other value is a configuration error.
pub fn parse_format(selector: &String) -> (r: Result<Format, UnknownFormat>)
    ensures
        r == Ok::<Format, UnknownFormat>(Format::Wav) <==> selector@ == "wav"@,
        r == Ok::<Format, UnknownFormat>(Format::Pcm) <==> selector@ == "pcm"@,
        r == Err::<Format, UnknownFormat>(UnknownFormat)
            <==> (selector@ != "wav"@ && selector@ != "pcm"@),
{
    proof {
        reveal_strlit("wav");
        reveal_strlit("pcm");
        assert("wav"@[0] != "pcm"@[0]);
    }
    let wav = String::from_str("wav");
    let pcm = String::from_str("pcm");
    if selector.eq(&wav) {
        Ok(Format::Wav)
    } else if selector.eq(&pcm) {
        Ok(Format::Pcm)
    } else {
        Err(UnknownFormat)
    }
}

} // verus!
