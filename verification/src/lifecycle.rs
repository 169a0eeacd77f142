//! The token lifecycle: loading and judging a stored credential, persisting
//! a refresh, and the retry-once-after-forced-refresh policy that every
//! authenticated call follows.

use vstd::prelude::*;
use crate::cipher::{SecretCipher, CipherError, DecryptionError, decrypts_to, base64_std,
    MAX_PLAINTEXT_LENGTH};
use crate::tokens::{TokenSet, record_matches, record_matches_deterministic, encode_token_record,
    parse_token_record, merge_refreshed, spec_refresh_len};
use vstd::utf8::encode_utf8;

verus! {

/// Why a stored credential cannot be turned into a usable token.
#[derive(Clone, Copy, PartialEq, Eq, Structural, Debug)]
pub enum TokenAccessError {
    /// No credential is stored for the provider.
    CredentialMissing,
    /// The provider's client configuration cannot be located.
    ConfigMissing,
    /// The stored blob would not decrypt.
    DecryptionFailed(DecryptionError),
    /// The decrypted text is not a token record.
    MalformedRecord,
    /// The token is stale and the record carries no refresh token.
    RefreshTokenMissing,
}

/// What to do to obtain a usable token for a provider.
pub enum TokenPlan {
    /// The stored token is still fresh: use it as it is.
    UseCurrent(TokenSet),
    /// The stored token is stale: run the refresh grant with the carried
    /// refresh token, then persist the merge.
    Refresh(TokenSet, String),
}

/// A stored blob represents a token set when it decrypts to a record that
/// reads back as that token set.
pub open spec fn stored_represents(key: Seq<u8>, blob: Seq<char>, t: TokenSet) -> bool {
    exists|rec: Seq<u8>| #[trigger] decrypts_to(key, blob, rec) && record_matches(rec, t)
}

/// Judges a stored credential at time `now`.
///
/// Fails with `CredentialMissing` exactly when nothing is stored. Otherwise
/// it decrypts and reads the record; for every token set the blob
/// represents, the outcome is fixed: a fresh token is returned for use, a
/// stale one with a refresh token asks for a refresh, and a stale one
/// without fails with `RefreshTokenMissing`.
pub fn plan_token_use(stored: Option<&String>, cipher: &SecretCipher, now: u64) -> (r: Result<
    TokenPlan,
    TokenAccessError,
>)
    requires
        cipher.wf(),
        now <= u64::MAX - crate::tokens::EXPIRY_SKEW_SECONDS,
    ensures
        stored is None <==> r == Err::<TokenPlan, TokenAccessError>(
            TokenAccessError::CredentialMissing),
        r matches Ok(plan) ==> stored matches Some(blob) && match plan {
            TokenPlan::UseCurrent(t) => stored_represents(cipher.spec_key(), blob@, t)
                && !t.spec_is_expired(now),
            TokenPlan::Refresh(t, rt) => stored_represents(cipher.spec_key(), blob@, t)
                && t.spec_is_expired(now) && (t.refresh_token matches Some(x) && x@ == rt@),
        },
        stored matches Some(blob) ==> forall|t: TokenSet|
            stored_represents(cipher.spec_key(), blob@, t) ==> if t.spec_is_expired(now) {
                if t.refresh_token is Some {
                    r matches Ok(p) && p is Refresh
                } else {
                    r == Err::<TokenPlan, TokenAccessError>(TokenAccessError::RefreshTokenMissing)
                }
            } else {
                r matches Ok(p) && p is UseCurrent
            },
        (r matches Err(f) && f is DecryptionFailed) <==> (stored matches Some(blob) && forall|
            pt: Seq<u8>,
        | !decrypts_to(cipher.spec_key(), blob@, pt)),
        (r matches Err(f) && f == TokenAccessError::DecryptionFailed(
            DecryptionError::InvalidEncoding,
        )) <==> (stored matches Some(blob) && !(exists|b: Seq<u8>| blob@ == #[trigger] base64_std(
            b,
        ))),
        (r matches Err(f) && f == TokenAccessError::DecryptionFailed(DecryptionError::TooShort))
            <==> (stored matches Some(blob) && (exists|b: Seq<u8>| blob@ == #[trigger] base64_std(
            b,
        ) && b.len() < crate::cipher::NONCE_LENGTH + 1)),
        r == Err::<TokenPlan, TokenAccessError>(TokenAccessError::MalformedRecord) <==> (stored
            matches Some(blob) && (exists|rec: Seq<u8>| #[trigger] decrypts_to(
            cipher.spec_key(),
            blob@,
            rec,
        )) && (forall|t: TokenSet| !stored_represents(cipher.spec_key(), blob@, t))),
{
    let blob = match stored {
        Some(b) => b,
        None => {
            return Err(TokenAccessError::CredentialMissing);
        },
    };
    let record = match cipher.decrypt_bytes(blob.as_str()) {
        Ok(b) => b,
        Err(e) => {
            proof {
                assert forall|t: TokenSet|
                    !stored_represents(cipher.spec_key(), blob@, t) by {
                    if stored_represents(cipher.spec_key(), blob@, t) {
                        let rec = choose|rec: Seq<u8>| #[trigger] decrypts_to(
                            cipher.spec_key(), blob@, rec) && record_matches(rec, t);
                    }
                }
            }
            return Err(TokenAccessError::DecryptionFailed(e));
        },
    };
    let ghost record_bytes = record@;
    let current = match parse_token_record(record.as_slice()) {
        Some(t) => t,
        None => {
            proof {
                assert forall|t: TokenSet|
                    !stored_represents(cipher.spec_key(), blob@, t) by {
                    if stored_represents(cipher.spec_key(), blob@, t) {
                        let rec = choose|rec: Seq<u8>| #[trigger] decrypts_to(
                            cipher.spec_key(), blob@, rec) && record_matches(rec, t);
                        assert(rec == record_bytes);
                    }
                }
            }
            return Err(TokenAccessError::MalformedRecord);
        },
    };
    proof {
        assert(stored_represents(cipher.spec_key(), blob@, current));
        assert forall|t: TokenSet|
            stored_represents(cipher.spec_key(), blob@, t)
            implies t.expires_at == current.expires_at && (t.refresh_token is Some
                <==> current.refresh_token is Some) by {
            let rec = choose|rec: Seq<u8>| #[trigger] decrypts_to(cipher.spec_key(), blob@, rec)
                && record_matches(rec, t);
            assert(rec == record_bytes);
            record_matches_deterministic(record_bytes, t, current);
        }
    }
    if !current.is_expired(now) {
        Ok(TokenPlan::UseCurrent(current))
    } else {
        match &current.refresh_token {
            Some(rt) => {
                let rt_copy = rt.clone();
                Ok(TokenPlan::Refresh(current, rt_copy))
            },
            None => Err(TokenAccessError::RefreshTokenMissing),
        }
    }
}

/// Merges a refresh response into the current token set and encrypts the
/// merged record for persistence.
///
/// The result keeps the previous refresh token when the response omitted
/// one, and the returned blob stores exactly the merged token set.
pub fn apply_refresh(current: &TokenSet, refreshed: TokenSet, cipher: &SecretCipher) -> (r: Result<
    (TokenSet, String),
    CipherError,
>)
    requires
        cipher.wf(),
    ensures
        r matches Ok(pair) ==> {
            let merged = pair.0;
            &&& merged.access_token == refreshed.access_token
            &&& merged.expires_at == refreshed.expires_at
            &&& (refreshed.refresh_token matches Some(new_rt)
                ==> merged.refresh_token == Some(new_rt))
            &&& (refreshed.refresh_token is None ==> match current.refresh_token {
                Some(prior) => merged.refresh_token matches Some(kept) && kept@ == prior@,
                None => merged.refresh_token is None,
            })
            &&& stored_represents(cipher.spec_key(), pair.1@, merged)
        },
        200 + 3 * (encode_utf8(refreshed.access_token@).len() + spec_refresh_len(refreshed)
            + spec_refresh_len(*current)) <= MAX_PLAINTEXT_LENGTH && MAX_PLAINTEXT_LENGTH + 28
            <= usize::MAX ==> r is Ok,
{
    let merged = merge_refreshed(current, refreshed);
    let record = encode_token_record(&merged);
    let blob = match cipher.encrypt_bytes(record.as_slice()) {
        Ok(b) => b,
        Err(e) => {
            return Err(e);
        },
    };
    Ok((merged, blob))
}

/// Encrypts a token set for first-time persistence (after the initial
/// authorization-code exchange).
pub fn seal_token_set(t: &TokenSet, cipher: &SecretCipher) -> (r: Result<String, CipherError>)
    requires
        cipher.wf(),
    ensures
        r matches Ok(blob) ==> stored_represents(cipher.spec_key(), blob@, *t),
        200 + 3 * (encode_utf8(t.access_token@).len() + spec_refresh_len(*t))
            <= MAX_PLAINTEXT_LENGTH && MAX_PLAINTEXT_LENGTH + 28 <= usize::MAX ==> r is Ok,
{
    let record = encode_token_record(t);
    cipher.encrypt_bytes(record.as_slice())
}

// ------------------------------------------------------------------
// The retry-once policy
// ------------------------------------------------------------------

/// What the caller of an authenticated request should do after seeing one
/// HTTP status.
#[derive(Clone, Copy, PartialEq, Eq, Structural, Debug)]
pub enum RetryDirective {
    /// The request succeeded; hand the response onward.
    Succeed,
    /// Force one token refresh and send the request once more.
    RefreshAndRetry,
    /// Surface the failure; no further attempt is made.
    GiveUp,
}

/// An HTTP status in the success range.
pub open spec fn spec_is_success(status: u16) -> bool {
    200 <= status < 300
}

/// The decision for one status: success passes through; a `401` forces one
/// refresh if none was forced yet and otherwise gives up; any other status
/// gives up at once.
pub open spec fn retry_step(refreshed: bool, status: u16) -> (bool, RetryDirective) {
    if spec_is_success(status) {
        (refreshed, RetryDirective::Succeed)
    } else if status == 401 && !refreshed {
        (true, RetryDirective::RefreshAndRetry)
    } else {
        (refreshed, RetryDirective::GiveUp)
    }
}

/// One authenticated call in progress, remembering whether its single
/// allowed forced refresh was already spent.
pub struct RetrySession {
    refreshed: bool,
}

impl RetrySession {
    /// Whether the forced refresh was already spent.
    pub closed spec fn spec_refreshed(&self) -> bool {
        self.refreshed
    }

    /// A fresh session: no refresh spent yet.
    pub fn new() -> (r: RetrySession)
        ensures
            !r.spec_refreshed(),
    {
        RetrySession { refreshed: false }
    }

    /// Feeds the status of one attempt and returns the directive of
    /// `retry_step`.
    pub fn on_status(&mut self, status: u16) -> (r: RetryDirective)
        ensures
            (final(self).spec_refreshed(), r) == retry_step(old(self).spec_refreshed(), status),
    {
        if 200 <= status && status < 300 {
            RetryDirective::Succeed
        } else if status == 401 && !self.refreshed {
            self.refreshed = true;
            RetryDirective::RefreshAndRetry
        } else {
            RetryDirective::GiveUp
        }
    }
}

/// The retry policy is bounded: a session never asks for a second refresh.
/// Once a refresh was spent, every later `401` gives up, so one call makes
/// at most two attempts.
pub proof fn lemma_retry_at_most_once(refreshed: bool, status: u16)
    ensures
        retry_step(true, status).1 != RetryDirective::RefreshAndRetry,
        retry_step(refreshed, status).1 == RetryDirective::RefreshAndRetry
            ==> retry_step(refreshed, status).0,
        retry_step(refreshed, status).0 == (refreshed
            || retry_step(refreshed, status).1 == RetryDirective::RefreshAndRetry),
{
}

/// The canonical run: a `401` answered by a refresh, then a success —
/// exactly one forced refresh, then the call goes through; and had the
/// second attempt come back `401` again, the session would give up rather
/// than refresh twice.
pub proof fn lemma_retry_once_then_success(first: u16, second: u16)
    requires
        first == 401,
        spec_is_success(second),
    ensures
        retry_step(false, first).1 == RetryDirective::RefreshAndRetry,
        retry_step(retry_step(false, first).0, second).1 == RetryDirective::Succeed,
        retry_step(retry_step(false, first).0, 401).1 == RetryDirective::GiveUp,
{
}

} // verus!
