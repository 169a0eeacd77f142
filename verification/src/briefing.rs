//! The dashboard briefing: the data hash that detects staleness, and the
//! assembly of the evolution context and prompts handed to the model.

use vstd::prelude::*;
use vstd::utf8::encode_utf8;
use crate::encoding::{ascii_chars, hex_lower, hex_string, ascii_to_string, dec_digits,
    dec_digits_value, format_u64, str_eq};

verus! {

/// One stored briefing summary row.
pub struct BriefingSummary {
    pub id: i32,
    pub content: String,
    pub data_hash: String,
    pub audio_data: Option<Vec<u8>>,
    pub created_at: String,
    pub is_final_of_day: bool,
}

/// A briefing as the dashboard shows it; the audio is base64 when present.
pub struct DashboardBriefing {
    pub content: String,
    pub created_at: String,
    pub is_stale: bool,
    pub audio_data: Option<String>,
}

/// The SHA-256 digest of a byte sequence; a function of the bytes alone.
pub uninterp spec fn sha256_of(bytes: Seq<u8>) -> Seq<u8>;

/// Relies on `sha2::Sha256` (`Digest::digest`): computes the 32-byte
/// SHA-256 digest of the input.
#[verifier::external_body]
fn sha256_exec(bytes: &[u8]) -> (r: Vec<u8>)
    ensures
        r@ == sha256_of(bytes@),
        r@.len() == 32,
{
    let digest = <sha2::Sha256 as sha2::Digest>::digest(bytes);
    digest.as_slice().to_vec()
}

/// The briefing hash: lower-case hex of the SHA-256 of the hash input.
pub fn briefing_hash(input: &str) -> (r: String)
    ensures
        r@ == ascii_chars(hex_lower(sha256_of(encode_utf8(input@)))),
{
    let digest = sha256_exec(input.as_bytes());
    hex_string(digest.as_slice())
}

/// The hash input assembled from the data sources: the daily note's
/// modification stamp and size when the vault is readable, and the Google
/// sync marker when a token is stored — with or without an integration
/// row.
pub open spec fn spec_hash_input(
    obsidian: Option<(Seq<char>, u64)>,
    google: Option<(Option<Seq<char>>, Seq<char>)>,
) -> Seq<char> {
    (match obsidian {
        Some((modified, len)) => "obsidian:"@ + modified + ":"@ + ascii_chars(
            dec_digits(len as nat),
        ),
        None => Seq::<char>::empty(),
    }) + (match google {
        Some((Some(last_sync), date)) => "google:"@ + last_sync + ":"@ + date,
        Some((None, date)) => "google:connected:"@ + date,
        None => Seq::<char>::empty(),
    })
}

/// Builds the hash input.
pub fn build_hash_input(
    obsidian: Option<(&str, u64)>,
    google: Option<(Option<&str>, &str)>,
) -> (r: String)
    ensures
        r@ == spec_hash_input(
            match obsidian {
                Some((m, l)) => Some((m@, l)),
                None => None,
            },
            match google {
                Some((Some(ls), d)) => Some((Some(ls@), d@)),
                Some((None, d)) => Some((None, d@)),
                None => None,
            },
        ),
{
    let mut out = String::new();
    match obsidian {
        Some((modified, len)) => {
            out.append("obsidian:");
            out.append(modified);
            out.append(":");
            let digits = format_u64(len);
            proof {
                dec_digits_value(len as nat);
                assert(forall|i: int| 0 <= i < digits@.len() ==> digits@[i] < 128);
            }
            let digits_s = ascii_to_string(digits);
            out.append(digits_s.as_str());
        },
        None => {},
    }
    match google {
        Some((Some(last_sync), date)) => {
            out.append("google:");
            out.append(last_sync);
            out.append(":");
            out.append(date);
        },
        Some((None, date)) => {
            out.append("google:connected:");
            out.append(date);
        },
        None => {},
    }
    proof {
        assert(out@ =~= spec_hash_input(
            match obsidian {
                Some((m, l)) => Some((m@, l)),
                None => None,
            },
            match google {
                Some((Some(ls), d)) => Some((Some(ls@), d@)),
                Some((None, d)) => Some((None, d@)),
                None => None,
            },
        ));
    }
    out
}

/// A stored briefing is stale exactly when its recorded hash differs from
/// the current one.
pub fn briefing_is_stale(stored_hash: &str, current_hash: &str) -> (r: bool)
    ensures
        r == (stored_hash@ != current_hash@),
{
    !str_eq(stored_hash, current_hash)
}

/// The numbered continuation lines of today's summaries, each preceded by
/// a blank line, numbered from `n`.
pub open spec fn spec_numbered_lines(contents: Seq<Seq<char>>, n: nat) -> Seq<char>
    decreases contents.len(),
{
    if contents.len() == 0 {
        Seq::<char>::empty()
    } else {
        "\n\n"@ + ascii_chars(dec_digits(n)) + ". "@ + contents[0] + spec_numbered_lines(
            contents.drop_first(),
            n + 1,
        )
    }
}

/// The evolution context handed to the model: yesterday's final outcome,
/// then today's numbered narrative so far.
pub open spec fn spec_briefing_context(
    yesterday: Option<Seq<char>>,
    todays: Seq<Seq<char>>,
) -> Seq<char> {
    let head = match yesterday {
        Some(y) => "Yesterday's final outcome: "@ + y,
        None => Seq::<char>::empty(),
    };
    if todays.len() == 0 {
        head
    } else {
        (if head.len() > 0 {
            head + "\n\n"@
        } else {
            head
        }) + "Today's narrative evolution so far:"@ + spec_numbered_lines(todays, 1)
    }
}

/// Builds the evolution context.
#[verifier::loop_isolation(false)]
pub fn build_briefing_context(yesterday: Option<&str>, todays: &Vec<String>) -> (r: String)
    ensures
        r@ == spec_briefing_context(
            match yesterday {
                Some(y) => Some(y@),
                None => None,
            },
            todays@.map_values(|c: String| c@),
        ),
{
    let ghost cs = todays@.map_values(|c: String| c@);
    let mut out = String::new();
    match yesterday {
        Some(y) => {
            out.append("Yesterday's final outcome: ");
            out.append(y);
        },
        None => {},
    }
    if todays.len() == 0 {
        proof {
            assert(out@ =~= spec_briefing_context(
                match yesterday {
                    Some(y) => Some(y@),
                    None => None,
                },
                cs,
            ));
        }
        return out;
    }
    if !out.as_str().is_empty() {
        out.append("\n\n");
    }
    out.append("Today's narrative evolution so far:");
    let ghost prefix = out@;
    let mut i: usize = 0;
    proof {
        assert(cs.skip(0) =~= cs);
    }
    while i < todays.len()
        invariant
            i <= todays@.len(),
            prefix + spec_numbered_lines(cs, 1) == out@ + spec_numbered_lines(
                cs.skip(i as int),
                (i + 1) as nat,
            ),
        decreases todays@.len() - i,
    {
        proof {
            assert(cs.skip(i as int)[0] == cs[i as int]);
            assert(cs.skip(i as int).drop_first() =~= cs.skip(i + 1));
        }
        out.append("\n\n");
        let number = format_u64((i + 1) as u64);
        proof {
            dec_digits_value((i + 1) as nat);
            assert(forall|j: int| 0 <= j < number@.len() ==> number@[j] < 128);
        }
        let number_s = ascii_to_string(number);
        out.append(number_s.as_str());
        out.append(". ");
        out.append(todays[i].as_str());
        i = i + 1;
    }
    proof {
        assert(cs.skip(i as int) =~= Seq::<Seq<char>>::empty());
        assert(out@ =~= prefix + spec_numbered_lines(cs, 1));
        assert(out@ =~= spec_briefing_context(
            match yesterday {
                Some(y) => Some(y@),
                None => None,
            },
            cs,
        ));
    }
    out
}

/// The briefing prompt: the raw data context, the history context, and the
/// closing instruction.
pub fn build_briefing_prompt(raw_data: &str, context: &str) -> (r: String)
    ensures
        r@ == "RAW DATA CONTEXT:\n"@ + raw_data@ + "\n\nHISTORY CONTEXT:\n"@ + context@
            + "\n\nGenerate the briefing. Remember: be proactive, never ask questions or list missing data."@,
{
    let mut out = "RAW DATA CONTEXT:\n".to_owned();
    out.append(raw_data);
    out.append("\n\nHISTORY CONTEXT:\n");
    out.append(context);
    out.append(
        "\n\nGenerate the briefing. Remember: be proactive, never ask questions or list missing data.",
    );
    proof {
        assert(out@ =~= "RAW DATA CONTEXT:\n"@ + raw_data@ + "\n\nHISTORY CONTEXT:\n"@ + context@
            + "\n\nGenerate the briefing. Remember: be proactive, never ask questions or list missing data."@);
    }
    out
}

} // verus!
