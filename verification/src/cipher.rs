//! Symmetric authenticated encryption of small secrets (tokens, API keys).
//!
//! A secret at rest is stored as `base64(nonce ++ ciphertext-with-tag)`,
//! produced with AES-256-GCM under a single locally persisted key. Every
//! encryption draws a fresh random nonce; the nonce travels with the blob.

use aes_gcm::aead::{Aead, KeyInit};
use base64::Engine;
use rand::RngCore;
use vstd::prelude::*;
use crate::encoding::bytes_into_string;
use vstd::utf8::{encode_utf8, valid_utf8, encode_utf8_valid_utf8, encode_utf8_decode_utf8};

verus! {

/// Length of the symmetric key in bytes (256 bits).
pub const KEY_LENGTH: usize = 32;

/// Length of the nonce in bytes (96 bits, the GCM standard).
pub const NONCE_LENGTH: usize = 12;

/// Length of the authentication tag appended to the ciphertext.
pub const TAG_LENGTH: usize = 16;

/// The largest plaintext AES-GCM seals (2^36 bytes); above it the cipher
/// refuses the message.
pub const MAX_PLAINTEXT_LENGTH: u64 = 0x1000000000;

/// The ciphertext-with-tag that AES-256-GCM produces for a key, nonce and
/// plaintext. The result depends on those three arguments alone.
pub uninterp spec fn aead_seal(key: Seq<u8>, nonce: Seq<u8>, plaintext: Seq<u8>) -> Seq<u8>;

/// The base64 (standard alphabet, padded) encoding of a byte sequence.
pub uninterp spec fn base64_std(bytes: Seq<u8>) -> Seq<char>;

/// Ways a stored secret can fail to decrypt.
#[derive(Clone, Copy, PartialEq, Eq, Structural, Debug)]
pub enum DecryptionError {
    /// The blob is not base64 at all.
    InvalidEncoding,
    /// The decoded blob is shorter than a nonce plus one ciphertext byte.
    TooShort,
    /// The authentication tag did not verify (tampered data or wrong key).
    AuthenticationFailed,
    /// The authenticated plaintext is not valid UTF-8.
    NotUtf8,
}

/// Ways encryption itself can fail.
#[derive(Clone, Copy, PartialEq, Eq, Structural, Debug)]
pub enum CipherError {
    /// The supplied key does not have `KEY_LENGTH` bytes.
    BadKeyLength,
    /// The underlying cipher refused the operation.
    SealFailed,
}

/// Relies on `aes_gcm::Aes256Gcm` (`aead::Aead::encrypt`): for a 32-byte key
/// and a 12-byte nonce it returns the ciphertext with the 16-byte tag
/// appended, a function of key, nonce and plaintext alone. The cipher
/// refuses only messages above `MAX_PLAINTEXT_LENGTH` bytes.
#[verifier::external_body]
fn aead_seal_exec(key: &[u8], nonce: &[u8], plaintext: &[u8]) -> (r: Result<Vec<u8>, CipherError>)
    requires
        key@.len() == KEY_LENGTH,
        nonce@.len() == NONCE_LENGTH,
    ensures
        r matches Ok(ct) ==> ct@ == aead_seal(key@, nonce@, plaintext@)
            && ct@.len() == plaintext@.len() + TAG_LENGTH,
        plaintext@.len() <= MAX_PLAINTEXT_LENGTH ==> r is Ok,
{
    let cipher = match aes_gcm::Aes256Gcm::new_from_slice(key) {
        Ok(c) => c,
        Err(_) => return Err(CipherError::BadKeyLength),
    };
    cipher
        .encrypt(aes_gcm::Nonce::from_slice(nonce), plaintext)
        .map_err(|_| CipherError::SealFailed)
}

/// Relies on `aes_gcm::Aes256Gcm` (`aead::Aead::decrypt`): it splits off the
/// 16-byte postfix tag and succeeds exactly on the plaintext whose sealing
/// under this key and nonce gives the ciphertext.
#[verifier::external_body]
fn aead_open_exec(key: &[u8], nonce: &[u8], ciphertext: &[u8]) -> (r: Result<Vec<u8>, ()>)
    requires
        key@.len() == KEY_LENGTH,
        nonce@.len() == NONCE_LENGTH,
    ensures
        r matches Ok(pt) ==> ciphertext@ == aead_seal(key@, nonce@, pt@)
            && ciphertext@.len() == pt@.len() + TAG_LENGTH,
        forall|pt: Seq<u8>| ciphertext@ == aead_seal(key@, nonce@, pt)
            ==> r is Ok && r->Ok_0@ == pt,
{
    let cipher = match aes_gcm::Aes256Gcm::new_from_slice(key) {
        Ok(c) => c,
        Err(_) => return Err(()),
    };
    cipher
        .decrypt(aes_gcm::Nonce::from_slice(nonce), ciphertext)
        .map_err(|_| ())
}

/// Relies on `base64::engine::general_purpose::STANDARD.encode`: produces the
/// padded standard-alphabet encoding of the input bytes.
#[verifier::external_body]
fn base64_encode(bytes: &[u8]) -> (r: String)
    ensures
        r@ == base64_std(bytes@),
{
    base64::engine::general_purpose::STANDARD.encode(bytes)
}

/// Relies on `base64::engine::general_purpose::STANDARD.decode`: it succeeds
/// exactly on strings the encoder produces, and inverts the encoder.
#[verifier::external_body]
fn base64_decode(s: &str) -> (r: Result<Vec<u8>, ()>)
    ensures
        r matches Ok(b) ==> s@ == base64_std(b@),
        forall|b: Seq<u8>| s@ == base64_std(b) ==> r is Ok && r->Ok_0@ == b,
{
    base64::engine::general_purpose::STANDARD.decode(s).map_err(|_| ())
}

/// Relies on `rand::rngs::OsRng` (`rand::RngCore::fill_bytes`): fills a
/// buffer with cryptographically secure random bytes; only the length is
/// specified, nothing of the values.
#[verifier::external_body]
pub(crate) fn random_bytes(n: usize) -> (r: Vec<u8>)
    ensures
        r@.len() == n,
{
    let mut buf = vec![0u8; n];
    rand::rngs::OsRng.fill_bytes(&mut buf);
    buf
}

/// The stored form of a secret: base64 of the nonce followed by the sealed
/// plaintext.
pub open spec fn sealed_blob(key: Seq<u8>, nonce: Seq<u8>, plaintext: Seq<u8>) -> Seq<char> {
    base64_std(nonce + aead_seal(key, nonce, plaintext))
}

/// A blob decrypts under `key` to the byte plaintext `plaintext` when some
/// 12-byte nonce sealed that plaintext into it (with the usual tag length).
pub open spec fn decrypts_to(key: Seq<u8>, blob: Seq<char>, plaintext: Seq<u8>) -> bool {
    exists|nonce: Seq<u8>|
        nonce.len() == NONCE_LENGTH
            && #[trigger] aead_seal(key, nonce, plaintext).len() == plaintext.len() + TAG_LENGTH
            && blob == sealed_blob(key, nonce, plaintext)
}

/// A cipher bound to one symmetric key.
pub struct SecretCipher {
    key: Vec<u8>,
}

impl SecretCipher {
    /// The key has exactly `KEY_LENGTH` bytes.
    pub closed spec fn wf(&self) -> bool {
        self.key@.len() == KEY_LENGTH
    }

    /// The key material this cipher was built with.
    pub closed spec fn spec_key(&self) -> Seq<u8> {
        self.key@
    }

    /// Builds a cipher from raw key material; rejects any length but
    /// `KEY_LENGTH`.
    pub fn new(key: Vec<u8>) -> (r: Result<SecretCipher, CipherError>)
        ensures
            r is Ok <==> key@.len() == KEY_LENGTH,
            r matches Ok(c) ==> c.wf() && c.spec_key() == key@,
    {
        if key.len() == KEY_LENGTH {
            Ok(SecretCipher { key })
        } else {
            Err(CipherError::BadKeyLength)
        }
    }

    /// Encrypts a byte plaintext into a stored blob. On success the blob
    /// decrypts back to exactly this plaintext under the same key.
    pub fn encrypt_bytes(&self, plaintext: &[u8]) -> (r: Result<String, CipherError>)
        requires
            self.wf(),
        ensures
            r matches Ok(blob) ==> decrypts_to(self.spec_key(), blob@, plaintext@),
            plaintext@.len() <= MAX_PLAINTEXT_LENGTH && plaintext@.len() + 28 <= usize::MAX
                ==> r is Ok,
    {
        if plaintext.len() > usize::MAX - 28 {
            return Err(CipherError::SealFailed);
        }
        let nonce = random_bytes(NONCE_LENGTH);
        let sealed = aead_seal_exec(self.key.as_slice(), nonce.as_slice(), plaintext)?;
        let mut combined: Vec<u8> = Vec::new();
        let mut i: usize = 0;
        while i < nonce.len()
            invariant
                i <= nonce@.len(),
                combined@ == nonce@.subrange(0, i as int),
            decreases nonce@.len() - i,
        {
            combined.push(nonce[i]);
            proof {
                assert(combined@ =~= nonce@.subrange(0, i + 1));
            }
            i = i + 1;
        }
        assert(combined@ =~= nonce@);
        let ghost nonce_part = combined@;
        let mut j: usize = 0;
        while j < sealed.len()
            invariant
                j <= sealed@.len(),
                nonce_part == nonce@,
                combined@ == nonce_part + sealed@.subrange(0, j as int),
            decreases sealed@.len() - j,
        {
            combined.push(sealed[j]);
            proof {
                assert(combined@ =~= nonce_part + sealed@.subrange(0, j + 1));
            }
            j = j + 1;
        }
        assert(combined@ =~= nonce@ + sealed@);
        let blob = base64_encode(combined.as_slice());
        proof {
            assert(blob@ == sealed_blob(self.spec_key(), nonce@, plaintext@));
        }
        Ok(blob)
    }

    /// Encrypts a string plaintext into a stored blob; the blob decrypts
    /// back to exactly this string.
    pub fn encrypt(&self, plaintext: &str) -> (r: Result<String, CipherError>)
        requires
            self.wf(),
        ensures
            r matches Ok(blob) ==> decrypts_to(self.spec_key(), blob@, encode_utf8(plaintext@)),
            encode_utf8(plaintext@).len() <= MAX_PLAINTEXT_LENGTH && encode_utf8(
                plaintext@,
            ).len() + 28 <= usize::MAX ==> r is Ok,
    {
        self.encrypt_bytes(plaintext.as_bytes())
    }

    /// Decrypts a stored blob into its byte plaintext.
    ///
    /// Succeeds on every blob some plaintext seals to — the encrypt/decrypt
    /// round trip — and classifies each failure: not base64, decoded form
    /// shorter than a nonce plus one byte, or failed authentication.
    pub fn decrypt_bytes(&self, blob: &str) -> (r: Result<Vec<u8>, DecryptionError>)
        requires
            self.wf(),
        ensures
            forall|pt: Seq<u8>| decrypts_to(self.spec_key(), blob@, pt)
                ==> r is Ok && r->Ok_0@ == pt,
            r matches Ok(b) ==> decrypts_to(self.spec_key(), blob@, b@),
            (r matches Err(e) && e == DecryptionError::InvalidEncoding)
                <==> !(exists|b: Seq<u8>| blob@ == #[trigger] base64_std(b)),
            (r matches Err(e) && e == DecryptionError::TooShort)
                <==> (exists|b: Seq<u8>| blob@ == #[trigger] base64_std(b)
                    && b.len() < NONCE_LENGTH + 1),
    {
        let combined = match base64_decode(blob) {
            Ok(b) => b,
            Err(_) => {
                return Err(DecryptionError::InvalidEncoding);
            },
        };
        // Any byte sequence encoding to this blob equals `combined`.
        assert(forall|b: Seq<u8>| blob@ == #[trigger] base64_std(b) ==> b == combined@);
        if combined.len() < NONCE_LENGTH + 1 {
            proof {
                self.short_blob_has_no_plaintext(blob@, combined@);
            }
            return Err(DecryptionError::TooShort);
        }
        let nonce = slice_range(combined.as_slice(), 0, NONCE_LENGTH);
        let ciphertext = slice_range(combined.as_slice(), NONCE_LENGTH, combined.len());
        proof {
            assert(combined@ =~= nonce@ + ciphertext@);
        }
        let opened = match aead_open_exec(self.key.as_slice(), nonce.as_slice(), ciphertext.as_slice()) {
            Ok(p) => p,
            Err(_) => {
                proof {
                    self.unopenable_blob_has_no_plaintext(blob@, combined@, nonce@, ciphertext@);
                }
                return Err(DecryptionError::AuthenticationFailed);
            },
        };
        proof {
            self.opened_blob_pins_plaintext(blob@, combined@, nonce@, ciphertext@, opened@);
        }
        Ok(opened)
    }

    /// Decrypts a stored blob into its string plaintext: as
    /// [`Self::decrypt_bytes`], with one more failure when the plaintext is
    /// not UTF-8.
    pub fn decrypt(&self, blob: &str) -> (r: Result<String, DecryptionError>)
        requires
            self.wf(),
        ensures
            forall|pt: Seq<char>| decrypts_to(self.spec_key(), blob@, encode_utf8(pt))
                ==> r is Ok && r->Ok_0@ == pt,
            r matches Ok(s) ==> decrypts_to(self.spec_key(), blob@, encode_utf8(s@)),
            (r matches Err(e) && e == DecryptionError::InvalidEncoding)
                <==> !(exists|b: Seq<u8>| blob@ == #[trigger] base64_std(b)),
            (r matches Err(e) && e == DecryptionError::TooShort)
                <==> (exists|b: Seq<u8>| blob@ == #[trigger] base64_std(b)
                    && b.len() < NONCE_LENGTH + 1),
    {
        let opened = match self.decrypt_bytes(blob) {
            Ok(b) => b,
            Err(e) => {
                return Err(e);
            },
        };
        let ghost opened_bytes = opened@;
        match bytes_into_string(opened) {
            Ok(s) => {
                proof {
                    assert(encode_utf8(s@) == opened_bytes);
                    assert forall|pt: Seq<char>|
                        decrypts_to(self.spec_key(), blob@, encode_utf8(pt))
                        implies s@ == pt by {
                        encode_utf8_decode_utf8(s@);
                        encode_utf8_decode_utf8(pt);
                    }
                }
                Ok(s)
            },
            Err(_) => {
                proof {
                    assert(!valid_utf8(opened_bytes));
                    assert forall|pt: Seq<char>|
                        !decrypts_to(self.spec_key(), blob@, encode_utf8(pt)) by {
                        if decrypts_to(self.spec_key(), blob@, encode_utf8(pt)) {
                            encode_utf8_valid_utf8(pt);
                        }
                    }
                }
                Err(DecryptionError::NotUtf8)
            },
        }
    }

    /// A decoded blob shorter than nonce plus one byte leaves no room for a
    /// sealed plaintext (the tag alone has 16 bytes).
    proof fn short_blob_has_no_plaintext(&self, blob: Seq<char>, combined: Seq<u8>)
        requires
            blob == base64_std(combined),
            combined.len() < NONCE_LENGTH + 1,
            forall|b: Seq<u8>| blob == #[trigger] base64_std(b) ==> b == combined,
        ensures
            forall|pt: Seq<u8>| !decrypts_to(self.spec_key(), blob, pt),
    {
        assert forall|pt: Seq<u8>| !decrypts_to(self.spec_key(), blob, pt) by {
            if decrypts_to(self.spec_key(), blob, pt) {
                let nonce = choose|nonce: Seq<u8>|
                    nonce.len() == NONCE_LENGTH
                        && #[trigger] aead_seal(self.spec_key(), nonce, pt).len()
                            == pt.len() + TAG_LENGTH
                        && blob == sealed_blob(self.spec_key(), nonce, pt);
                let body = nonce + aead_seal(self.spec_key(), nonce, pt);
                assert(body == combined);
                assert(body.len() >= NONCE_LENGTH + TAG_LENGTH);
            }
        }
    }

    /// If the authenticated open failed, nothing seals to this blob: the
    /// decoded bytes are unique for the blob, and no plaintext seals to its
    /// ciphertext part.
    proof fn unopenable_blob_has_no_plaintext(
        &self,
        blob: Seq<char>,
        combined: Seq<u8>,
        nonce: Seq<u8>,
        ciphertext: Seq<u8>,
    )
        requires
            blob == base64_std(combined),
            combined == nonce + ciphertext,
            nonce.len() == NONCE_LENGTH,
            forall|b: Seq<u8>| blob == #[trigger] base64_std(b) ==> b == combined,
            forall|p: Seq<u8>| ciphertext != #[trigger] aead_seal(self.spec_key(), nonce, p),
        ensures
            forall|pt: Seq<u8>| !decrypts_to(self.spec_key(), blob, pt),
    {
        assert forall|pt: Seq<u8>| !decrypts_to(self.spec_key(), blob, pt) by {
            if decrypts_to(self.spec_key(), blob, pt) {
                let n2 = choose|n2: Seq<u8>|
                    n2.len() == NONCE_LENGTH
                        && #[trigger] aead_seal(self.spec_key(), n2, pt).len()
                            == pt.len() + TAG_LENGTH
                        && blob == sealed_blob(self.spec_key(), n2, pt);
                let sealed = aead_seal(self.spec_key(), n2, pt);
                assert(n2 + sealed == combined);
                concat_split_unique(n2, sealed, nonce, ciphertext);
            }
        }
    }

    /// A successful open pins the plaintext: any plaintext the blob
    /// decrypts to is the one the open returned.
    proof fn opened_blob_pins_plaintext(
        &self,
        blob: Seq<char>,
        combined: Seq<u8>,
        nonce: Seq<u8>,
        ciphertext: Seq<u8>,
        opened: Seq<u8>,
    )
        requires
            blob == base64_std(combined),
            combined == nonce + ciphertext,
            nonce.len() == NONCE_LENGTH,
            ciphertext == aead_seal(self.spec_key(), nonce, opened),
            ciphertext.len() == opened.len() + TAG_LENGTH,
            forall|b: Seq<u8>| blob == #[trigger] base64_std(b) ==> b == combined,
            forall|p: Seq<u8>| ciphertext == #[trigger] aead_seal(self.spec_key(), nonce, p)
                ==> p == opened,
        ensures
            decrypts_to(self.spec_key(), blob, opened),
            forall|pt: Seq<u8>| decrypts_to(self.spec_key(), blob, pt) ==> pt == opened,
    {
        assert(blob == sealed_blob(self.spec_key(), nonce, opened));
        assert forall|pt: Seq<u8>|
            decrypts_to(self.spec_key(), blob, pt) implies pt == opened by {
            let n2 = choose|n2: Seq<u8>|
                n2.len() == NONCE_LENGTH
                    && #[trigger] aead_seal(self.spec_key(), n2, pt).len()
                        == pt.len() + TAG_LENGTH
                    && blob == sealed_blob(self.spec_key(), n2, pt);
            let sealed = aead_seal(self.spec_key(), n2, pt);
            assert(n2 + sealed == combined);
            concat_split_unique(n2, sealed, nonce, ciphertext);
        }
    }
}

/// Splitting a concatenation at a fixed length is unique: equal
/// concatenations with equally long left parts have equal parts.
proof fn concat_split_unique(a1: Seq<u8>, b1: Seq<u8>, a2: Seq<u8>, b2: Seq<u8>)
    requires
        a1.len() == a2.len(),
        a1 + b1 == a2 + b2,
    ensures
        a1 == a2,
        b1 == b2,
{
    let n = a1.len() as int;
    let whole = a1 + b1;
    assert(whole.len() == (a2 + b2).len());
    assert(b1.len() == b2.len());
    assert(a1 =~= whole.subrange(0, n));
    assert(a2 =~= whole.subrange(0, n));
    assert(b1 =~= whole.subrange(n, whole.len() as int));
    assert(b2 =~= whole.subrange(n, whole.len() as int));
}

/// Copies `bytes[start..end]` into a fresh vector.
fn slice_range(bytes: &[u8], start: usize, end: usize) -> (r: Vec<u8>)
    requires
        start <= end <= bytes@.len(),
    ensures
        r@ == bytes@.subrange(start as int, end as int),
{
    let mut out: Vec<u8> = Vec::new();
    let mut i: usize = start;
    while i < end
        invariant
            start <= i <= end <= bytes@.len(),
            out@ == bytes@.subrange(start as int, i as int),
        decreases end - i,
    {
        let b = bytes[i];
        out.push(b);
        proof {
            assert(out@ =~= bytes@.subrange(start as int, i + 1));
        }
        i = i + 1;
    }
    out
}

} // verus!
