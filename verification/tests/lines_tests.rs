//! The line-oriented text operations and the audio helpers.

use lumen_core::lines::{edit_line, insert_line, delete_line, read_lines_range, grep_lines,
    LineOpError};
use lumen_core::audio::{clean_text_for_speech, wrap_in_wav};

const SAMPLE: &[u8] = b"alpha\nBravo line\ncharlie\n";

#[test]
fn test_edit_line() {
    let out = edit_line(SAMPLE, 2, b"BRAVO!").unwrap();
    assert_eq!(out, b"alpha\nBRAVO!\ncharlie");
    assert_eq!(edit_line(SAMPLE, 0, b"x"), Err(LineOpError::LineNumberZero));
    assert_eq!(edit_line(SAMPLE, 9, b"x"), Err(LineOpError::LineOutOfRange(3)));
}

#[test]
fn test_insert_line() {
    let out = insert_line(SAMPLE, 2, b"inserted").unwrap();
    assert_eq!(out, b"alpha\ninserted\nBravo line\ncharlie");
    // Past the end clamps to appending.
    let out = insert_line(SAMPLE, 99, b"tail").unwrap();
    assert_eq!(out, b"alpha\nBravo line\ncharlie\ntail");
    assert_eq!(insert_line(SAMPLE, 0, b"x"), Err(LineOpError::LineNumberZero));
}

#[test]
fn test_delete_line() {
    let out = delete_line(SAMPLE, 1).unwrap();
    assert_eq!(out, b"Bravo line\ncharlie");
    assert_eq!(delete_line(SAMPLE, 4), Err(LineOpError::LineOutOfRange(3)));
}

#[test]
fn test_read_lines_range() {
    let (lines, total) = read_lines_range(SAMPLE, 2, 3).unwrap();
    assert_eq!(total, 3);
    assert_eq!(lines, vec![b"Bravo line".to_vec(), b"charlie".to_vec()]);
    // An end past the last line clamps.
    let (lines, _) = read_lines_range(SAMPLE, 3, 99).unwrap();
    assert_eq!(lines, vec![b"charlie".to_vec()]);
    assert!(read_lines_range(SAMPLE, 2, 1).is_err());
}

#[test]
fn test_grep_lines_ignores_case() {
    let matches = grep_lines(SAMPLE, b"bravo");
    assert_eq!(matches.len(), 1);
    assert_eq!(matches[0].0, 2);
    assert_eq!(matches[0].1, b"Bravo line".to_vec());
    assert!(grep_lines(SAMPLE, b"zulu").is_empty());
}

#[test]
fn test_crlf_lines_lose_carriage_returns() {
    let out = edit_line(b"a\r\nb\r\n", 1, b"A").unwrap();
    assert_eq!(out, b"A\nb");
}

#[test]
fn test_clean_text_for_speech() {
    let cleaned = clean_text_for_speech("see [My Note](lumen://open?path=/x/y.md) *now* `ok` #tag");
    assert_eq!(cleaned, b"see My Note now ok tag".to_vec());
    // A bracket that is not a link passes through.
    let cleaned = clean_text_for_speech("a [b] c");
    assert_eq!(cleaned, b"a [b] c".to_vec());
}

#[test]
fn test_wrap_in_wav() {
    let wav = wrap_in_wav(vec![1, 2], 24000);
    assert_eq!(wav.len(), 46);
    assert_eq!(&wav[0..4], b"RIFF");
    assert_eq!(&wav[4..8], &38u32.to_le_bytes());
    assert_eq!(&wav[8..12], b"WAVE");
    assert_eq!(&wav[12..16], b"fmt ");
    assert_eq!(&wav[16..20], &16u32.to_le_bytes());
    assert_eq!(&wav[20..22], &1u16.to_le_bytes());
    assert_eq!(&wav[22..24], &1u16.to_le_bytes());
    assert_eq!(&wav[24..28], &24000u32.to_le_bytes());
    assert_eq!(&wav[28..32], &48000u32.to_le_bytes());
    assert_eq!(&wav[32..34], &2u16.to_le_bytes());
    assert_eq!(&wav[34..36], &16u16.to_le_bytes());
    assert_eq!(&wav[36..40], b"data");
    assert_eq!(&wav[40..44], &2u32.to_le_bytes());
    assert_eq!(&wav[44..], &[1, 2]);
}
