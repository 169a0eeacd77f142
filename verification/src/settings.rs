//! The settings command surface: the request and response shapes, and the
//! masking that keeps a configured API key from ever being shown whole.

use vstd::prelude::*;
use vstd::utf8::{encode_utf8, valid_utf8};
use crate::encoding::bytes_into_string;

verus! {

/// A profile as the settings screen shows it.
pub struct UserProfileResponse {
    pub display_name: String,
    pub location: Option<String>,
    pub theme: String,
}

/// A hotkey configuration as the settings screen shows it.
pub struct HotkeyConfigResponse {
    pub modifier_keys: Vec<String>,
    pub key: String,
    pub enabled: bool,
}

/// Whether a provider's API key is configured, with a masked preview and
/// never the key itself.
pub struct ApiKeyStatusResponse {
    pub provider: String,
    pub is_configured: bool,
    pub masked_key: Option<String>,
}

/// A request to update the profile.
pub struct UpdateProfileRequest {
    pub display_name: String,
    pub location: Option<String>,
    pub theme: String,
}

/// A request to update the hotkey.
pub struct UpdateHotkeyRequest {
    pub modifier_keys: Vec<String>,
    pub key: String,
    pub enabled: bool,
}

/// A request to replace a provider's API key.
pub struct UpdateApiKeyRequest {
    pub provider: String,
    pub api_key: String,
}

/// The masked form of a key longer than four bytes: eight stars, an
/// ellipsis, and the last four bytes.
pub open spec fn spec_masked_bytes(key: Seq<u8>) -> Seq<u8> {
    seq![42u8, 42, 42, 42, 42, 42, 42, 42, 46, 46, 46] + key.skip(key.len() - 4)
}

/// Masks a configured key for display: a key longer than four bytes shows
/// eight stars, an ellipsis and its last four bytes (or plain stars when
/// those bytes split a character); a shorter key shows one star per byte.
#[verifier::loop_isolation(false)]
pub fn mask_key(key: &str) -> (r: String)
    ensures
        encode_utf8(key@).len() > 4 ==> (if valid_utf8(spec_masked_bytes(encode_utf8(key@))) {
            encode_utf8(r@) == spec_masked_bytes(encode_utf8(key@))
        } else {
            r@ == "********"@
        }),
        encode_utf8(key@).len() <= 4 ==> r@.len() == encode_utf8(key@).len() && (forall|i: int|
            0 <= i < r@.len() ==> r@[i] == '*'),
{
    let bytes = key.as_bytes();
    if bytes.len() > 4 {
        let mut out: Vec<u8> = Vec::new();
        let mut i: usize = 0;
        while i < 8
            invariant
                i <= 8,
                out@.len() == i,
                forall|j: int| 0 <= j < i ==> out@[j] == 42u8,
            decreases 8 - i,
        {
            out.push(42);
            i = i + 1;
        }
        out.push(46);
        out.push(46);
        out.push(46);
        proof {
            assert(out@ =~= spec_masked_bytes(bytes@).take(11));
        }
        let mut k: usize = bytes.len() - 4;
        while k < bytes.len()
            invariant
                bytes@.len() - 4 <= k <= bytes@.len(),
                out@ == spec_masked_bytes(bytes@).take(11 + (k - (bytes@.len() - 4))),
            decreases bytes@.len() - k,
        {
            out.push(bytes[k]);
            proof {
                assert(spec_masked_bytes(bytes@)[11 + (k - (bytes@.len() - 4))]
                    == bytes@.skip(bytes@.len() - 4)[k - (bytes@.len() - 4)]);
                assert(out@ =~= spec_masked_bytes(bytes@).take(
                    11 + (k + 1 - (bytes@.len() - 4)),
                ));
            }
            k = k + 1;
        }
        proof {
            assert(out@ =~= spec_masked_bytes(bytes@));
        }
        let ghost masked = out@;
        match bytes_into_string(out) {
            Ok(s) => {
                proof {
                    vstd::utf8::encode_utf8_valid_utf8(s@);
                }
                s
            },
            Err(_) => "********".to_owned(),
        }
    } else {
        let mut out = String::new();
        let mut i: usize = 0;
        while i < bytes.len()
            invariant
                i <= bytes@.len(),
                out@.len() == i,
                forall|j: int| 0 <= j < i ==> out@[j] == '*',
            decreases bytes@.len() - i,
        {
            out.append("*");
            proof {
                reveal_strlit("*");
            }
            i = i + 1;
        }
        out
    }
}

} // verus!
