use std::collections::HashSet;

use notebatch::batch::batch_filenames;
use notebatch::filename::{dec_str, note_filename};
use notebatch::sample::sample_bytes;
use notebatch::selector::{extension, parse_format, Format, UnknownFormat};

#[test]
fn parse_format_recognizes_wav() {
    assert_eq!(parse_format(&String::from("wav")), Ok(Format::Wav));
}

#[test]
fn parse_format_recognizes_pcm() {
    assert_eq!(parse_format(&String::from("pcm")), Ok(Format::Pcm));
}

#[test]
fn parse_format_rejects_everything_else() {
    assert_eq!(parse_format(&String::from("flac")), Err(UnknownFormat));
    assert_eq!(parse_format(&String::from("")), Err(UnknownFormat));
    assert_eq!(parse_format(&String::from("WAV")), Err(UnknownFormat));
    assert_eq!(parse_format(&String::from("wav ")), Err(UnknownFormat));
}

#[test]
fn extensions_match_the_naming_convention() {
    assert_eq!(extension(Format::Wav), "WAV");
    assert_eq!(extension(Format::Pcm), "pcm");
}

#[test]
fn decimal_representation_is_unpadded() {
    assert_eq!(dec_str(0), "0");
    assert_eq!(dec_str(7), "7");
    assert_eq!(dec_str(10), "10");
    assert_eq!(dec_str(99), "99");
    assert_eq!(dec_str(100), "100");
    assert_eq!(dec_str(127), "127");
    assert_eq!(dec_str(255), "255");
}

#[test]
fn note_filenames_follow_the_convention() {
    assert_eq!(note_filename(0, Format::Wav), "DEFAULT_0.WAV");
    assert_eq!(note_filename(60, Format::Wav), "DEFAULT_60.WAV");
    assert_eq!(note_filename(127, Format::Pcm), "DEFAULT_127.pcm");
}

#[test]
fn batch_plan_names_all_128_notes() {
    let names = batch_filenames(Format::Pcm);
    assert_eq!(names.len(), 128);
    for (i, name) in names.iter().enumerate() {
        assert_eq!(*name, format!("DEFAULT_{}.pcm", i));
    }
}

#[test]
fn batch_plan_names_are_distinct() {
    let names = batch_filenames(Format::Wav);
    let unique: HashSet<&String> = names.iter().collect();
    assert_eq!(unique.len(), 128);
}

#[test]
fn sample_bytes_are_the_little_endian_pair() {
    assert_eq!(sample_bytes(0), (0, 0));
    assert_eq!(sample_bytes(1), (1, 0));
    assert_eq!(sample_bytes(-1), (0xff, 0xff));
    assert_eq!(sample_bytes(0x1234), (0x34, 0x12));
    assert_eq!(sample_bytes(-32768), (0x00, 0x80));
    assert_eq!(sample_bytes(32767), (0xff, 0x7f));
}
