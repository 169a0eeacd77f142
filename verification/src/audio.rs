//! Briefing audio, value side: cleaning reply text for speech and wrapping
//! raw PCM samples into a playable WAV file.

use vstd::prelude::*;
use vstd::slice::slice_subrange;
use vstd::utf8::encode_utf8;
use crate::encoding::{find_byte, find_byte_exec, find_byte_props, clone_bytes};

verus! {

/// Markdown characters that are stripped before speech.
pub open spec fn is_speech_special(b: u8) -> bool {
    b == 42 || b == 95 || b == 35 || b == 96
}

/// Text with the markdown emphasis characters `*`, `_`, `#` and `` ` ``
/// removed.
pub open spec fn strip_specials(s: Seq<u8>) -> Seq<u8>
    decreases s.len(),
{
    if s.len() == 0 {
        seq![]
    } else if is_speech_special(s[0]) {
        strip_specials(s.drop_first())
    } else {
        seq![s[0]] + strip_specials(s.drop_first())
    }
}

/// Text with every markdown link `[label](url)` replaced by its label: a
/// nonempty label without `]`, then a parenthesized nonempty url without
/// `)`.
pub open spec fn clean_links(s: Seq<u8>) -> Seq<u8>
    decreases s.len(),
    via clean_links_decreases
{
    if s.len() == 0 {
        seq![]
    } else if s[0] == 91 && {
        let close = find_byte(s, 93);
        &&& close >= 2
        &&& close + 1 < s.len()
        &&& s[close + 1] == 40
        &&& {
            let p = find_byte(s.skip(close + 2), 41);
            1 <= p < s.len() - close - 2
        }
    } {
        let close = find_byte(s, 93);
        let p = find_byte(s.skip(close + 2), 41);
        s.subrange(1, close) + clean_links(s.skip(close + 2 + p + 1))
    } else {
        seq![s[0]] + clean_links(s.drop_first())
    }
}

#[via_fn]
proof fn clean_links_decreases(s: Seq<u8>) {
    if s.len() > 0 {
        find_byte_props(s, 93);
        let close = find_byte(s, 93);
        if close + 2 <= s.len() {
            find_byte_props(s.skip(close + 2), 41);
        }
    }
}

/// Removes markdown links and emphasis characters from reply text, so the
/// speech synthesis reads only the words.
pub fn clean_text_for_speech(text: &str) -> (r: Vec<u8>)
    ensures
        r@ == strip_specials(clean_links(encode_utf8(text@))),
{
    let linkless = clean_links_exec(text.as_bytes());
    strip_specials_exec(linkless.as_slice())
}

/// Strips markdown links, mirroring `clean_links`.
fn clean_links_exec(s: &[u8]) -> (r: Vec<u8>)
    ensures
        r@ == clean_links(s@),
    decreases s@.len(),
{
    if s.len() == 0 {
        let out: Vec<u8> = Vec::new();
        proof {
            assert(out@ =~= clean_links(s@));
        }
        return out;
    }
    proof {
        find_byte_props(s@, 93);
    }
    if s[0] == 91 {
        let close = find_byte_exec(s, 93);
        if close >= 2 && s.len() - close > 1 && s[close + 1] == 40 {
            let tail = slice_subrange(s, close + 2, s.len());
            let p = find_byte_exec(tail, 41);
            proof {
                find_byte_props(tail@, 41);
            }
            if 1 <= p && p < tail.len() {
                let mut out = clone_bytes(slice_subrange(s, 1, close));
                let mut rest = clean_links_exec(slice_subrange(s, close + 2 + p + 1, s.len()));
                out.append(&mut rest);
                proof {
                    assert(out@ =~= clean_links(s@));
                }
                return out;
            }
        }
    }
    let mut out: Vec<u8> = Vec::new();
    out.push(s[0]);
    let mut rest = clean_links_exec(slice_subrange(s, 1, s.len()));
    out.append(&mut rest);
    proof {
        assert(s@.skip(1) =~= s@.drop_first());
        assert(out@ =~= clean_links(s@));
    }
    out
}

/// Strips the emphasis characters, mirroring `strip_specials`.
fn strip_specials_exec(s: &[u8]) -> (r: Vec<u8>)
    ensures
        r@ == strip_specials(s@),
{
    let mut out: Vec<u8> = Vec::new();
    let mut i: usize = 0;
    proof {
        assert(s@.skip(0) =~= s@);
    }
    while i < s.len()
        invariant
            i <= s@.len(),
            strip_specials(s@) == out@ + strip_specials(s@.skip(i as int)),
        decreases s@.len() - i,
    {
        let b = s[i];
        proof {
            assert(s@.skip(i as int).drop_first() =~= s@.skip(i + 1));
        }
        if !(b == 42 || b == 95 || b == 35 || b == 96) {
            out.push(b);
        }
        i = i + 1;
    }
    proof {
        assert(s@.skip(i as int) =~= Seq::<u8>::empty());
        assert(out@ =~= strip_specials(s@));
    }
    out
}

/// The little-endian bytes of a 16-bit value.
pub open spec fn le16(n: u16) -> Seq<u8> {
    seq![(n % 256) as u8, (n / 256) as u8]
}

/// The little-endian bytes of a 32-bit value.
pub open spec fn le32(n: u32) -> Seq<u8> {
    seq![
        (n % 256) as u8,
        ((n / 256) % 256) as u8,
        ((n / 65536) % 256) as u8,
        ((n / 16777216) % 256) as u8,
    ]
}

/// The complete WAV file for raw PCM samples: RIFF header, a PCM format
/// chunk for 16-bit mono audio at the given rate, then the data chunk.
pub open spec fn spec_wav(pcm: Seq<u8>, sample_rate: u32) -> Seq<u8> {
    seq![82u8, 73, 70, 70] + le32((36 + pcm.len()) as u32) + seq![87u8, 65, 86, 69] + seq![
        102u8,
        109,
        116,
        32,
    ] + le32(16) + le16(1) + le16(1) + le32(sample_rate) + le32((sample_rate * 2) as u32) + le16(2)
        + le16(16) + seq![100u8, 97, 116, 97] + le32(pcm.len() as u32) + pcm
}

/// Appends the little-endian bytes of a 16-bit value.
fn push_le16(out: &mut Vec<u8>, n: u16)
    ensures
        final(out)@ == old(out)@ + le16(n),
{
    let ghost before = out@;
    out.push((n % 256) as u8);
    out.push((n / 256) as u8);
    proof {
        assert(out@ =~= before + le16(n));
    }
}

/// Appends the little-endian bytes of a 32-bit value.
fn push_le32(out: &mut Vec<u8>, n: u32)
    ensures
        final(out)@ == old(out)@ + le32(n),
{
    let ghost before = out@;
    out.push((n % 256) as u8);
    out.push(((n / 256) % 256) as u8);
    out.push(((n / 65536) % 256) as u8);
    out.push(((n / 16777216) % 256) as u8);
    proof {
        assert(out@ =~= before + le32(n));
    }
}

/// Wraps raw PCM samples (16-bit, mono) into a WAV file the browser can
/// play: the 44-byte header followed by the data.
pub fn wrap_in_wav(pcm_data: Vec<u8>, sample_rate: u32) -> (r: Vec<u8>)
    requires
        pcm_data@.len() + 36 <= u32::MAX,
        sample_rate * 2 <= u32::MAX,
    ensures
        r@ == spec_wav(pcm_data@, sample_rate),
{
    let data_size = pcm_data.len() as u32;
    let file_size = 36 + data_size;
    let mut out: Vec<u8> = Vec::new();
    out.push(82);
    out.push(73);
    out.push(70);
    out.push(70);
    push_le32(&mut out, file_size);
    out.push(87);
    out.push(65);
    out.push(86);
    out.push(69);
    out.push(102);
    out.push(109);
    out.push(116);
    out.push(32);
    push_le32(&mut out, 16);
    push_le16(&mut out, 1);
    push_le16(&mut out, 1);
    push_le32(&mut out, sample_rate);
    push_le32(&mut out, sample_rate * 2);
    push_le16(&mut out, 2);
    push_le16(&mut out, 16);
    out.push(100);
    out.push(97);
    out.push(116);
    out.push(97);
    push_le32(&mut out, data_size);
    let mut data = pcm_data;
    let ghost pcm_view = data@;
    out.append(&mut data);
    proof {
        assert(out@ =~= spec_wav(pcm_view, sample_rate));
    }
    out
}

} // verus!
