//! The OAuth authorization-code session: the authorize URL, the CSRF state
//! token, and the local callback check that guards against forged codes.

use vstd::prelude::*;
use vstd::pervasive::unreached;
use vstd::utf8::{encode_utf8, valid_utf8, encode_utf8_valid_utf8, valid_utf8_concat};
use crate::encoding::{
    pct_encoded, pct_encode_bytes, pct_encoded_ascii, ascii_bytes_valid_utf8, ascii_chars,
    hex_lower, hex_lower_len, hex_lower_is_ascii, hex_string, bytes_into_string,
};
use crate::query::{query_value, parse_query, lookup_pair};
use crate::encoding::bytes_eq;
use crate::cipher::random_bytes;

verus! {

/// The provider's authorization endpoint together with the start of its
/// query.
pub open spec fn authorize_prefix() -> Seq<u8> {
    encode_utf8("https://accounts.google.com/o/oauth2/v2/auth?response_type=code&client_id="@)
}

/// The scopes requested for every authorization, separated by spaces.
pub open spec fn scope_list() -> Seq<u8> {
    encode_utf8(
        "https://www.googleapis.com/auth/calendar https://www.googleapis.com/auth/gmail.send https://www.googleapis.com/auth/gmail.readonly https://www.googleapis.com/auth/tasks https://www.googleapis.com/auth/userinfo.email"@,
    )
}

/// The full authorize URL for a client, redirect endpoint and CSRF state:
/// the endpoint, the percent-encoded client id, redirect URI, scope list
/// and state, and the `access_type=offline` / `prompt=consent` parameters
/// that make the provider issue a refresh token.
pub open spec fn spec_authorize_url(client_id: Seq<u8>, redirect: Seq<u8>, state: Seq<u8>) -> Seq<
    u8,
> {
    authorize_prefix() + pct_encoded(client_id) + encode_utf8("&redirect_uri="@) + pct_encoded(
        redirect,
    ) + encode_utf8("&scope="@) + pct_encoded(scope_list()) + encode_utf8("&state="@)
        + pct_encoded(state) + encode_utf8("&access_type=offline&prompt=consent"@)
}

/// A single provider's OAuth client: its id, secret and the fixed local
/// redirect endpoint.
pub struct GoogleAuth {
    client_id: String,
    client_secret: String,
    redirect_url: String,
}

impl GoogleAuth {
    /// The configured client id.
    pub closed spec fn spec_client_id(&self) -> Seq<char> {
        self.client_id@
    }

    /// The configured client secret.
    pub closed spec fn spec_client_secret(&self) -> Seq<char> {
        self.client_secret@
    }

    /// The redirect endpoint the callback listener serves.
    pub closed spec fn spec_redirect_url(&self) -> Seq<char> {
        self.redirect_url@
    }

    /// Builds the client for one provider; the redirect endpoint is the
    /// fixed local callback port.
    pub fn new(client_id: String, client_secret: String) -> (r: GoogleAuth)
        ensures
            r.spec_client_id() == client_id@,
            r.spec_client_secret() == client_secret@,
            r.spec_redirect_url() == "http://localhost:18247"@,
    {
        GoogleAuth {
            client_id,
            client_secret,
            redirect_url: "http://localhost:18247".to_owned(),
        }
    }

    /// The configured client id, for the token-endpoint exchange.
    pub fn client_id(&self) -> (r: &str)
        ensures
            r@ == self.spec_client_id(),
    {
        self.client_id.as_str()
    }

    /// The configured client secret, for the token-endpoint exchange.
    pub fn client_secret(&self) -> (r: &str)
        ensures
            r@ == self.spec_client_secret(),
    {
        self.client_secret.as_str()
    }

    /// The redirect endpoint, for the token-endpoint exchange.
    pub fn redirect_url(&self) -> (r: &str)
        ensures
            r@ == self.spec_redirect_url(),
    {
        self.redirect_url.as_str()
    }

    /// Starts an authorization attempt: returns the authorize URL to open
    /// in the browser and the fresh CSRF state embedded in it.
    pub fn start_auth_flow(&self) -> (r: (String, String))
        ensures
            encode_utf8(r.0@) == spec_authorize_url(
                encode_utf8(self.spec_client_id()),
                encode_utf8(self.spec_redirect_url()),
                encode_utf8(r.1@),
            ),
            r.1@.len() == 32,
    {
        let state = make_csrf_token();
        let url = self.build_authorize_url(state.as_str());
        (url, state)
    }

    /// Builds the authorize URL for a given CSRF state.
    pub fn build_authorize_url(&self, state: &str) -> (r: String)
        ensures
            encode_utf8(r@) == spec_authorize_url(
                encode_utf8(self.spec_client_id()),
                encode_utf8(self.spec_redirect_url()),
                encode_utf8(state@),
            ),
    {
        let mut url: Vec<u8> = Vec::new();
        append_str_bytes(
            &mut url,
            "https://accounts.google.com/o/oauth2/v2/auth?response_type=code&client_id=",
        );
        let mut part = pct_encode_bytes(self.client_id.as_str().as_bytes());
        url.append(&mut part);
        append_str_bytes(&mut url, "&redirect_uri=");
        let mut part = pct_encode_bytes(self.redirect_url.as_str().as_bytes());
        url.append(&mut part);
        append_str_bytes(&mut url, "&scope=");
        let scopes =
            "https://www.googleapis.com/auth/calendar https://www.googleapis.com/auth/gmail.send https://www.googleapis.com/auth/gmail.readonly https://www.googleapis.com/auth/tasks https://www.googleapis.com/auth/userinfo.email";
        let mut part = pct_encode_bytes(scopes.as_bytes());
        url.append(&mut part);
        append_str_bytes(&mut url, "&state=");
        let mut part = pct_encode_bytes(state.as_bytes());
        url.append(&mut part);
        append_str_bytes(&mut url, "&access_type=offline&prompt=consent");
        proof {
            assert(url@ =~= spec_authorize_url(
                encode_utf8(self.spec_client_id()),
                encode_utf8(self.spec_redirect_url()),
                encode_utf8(state@),
            ));
            lemma_authorize_url_utf8(
                encode_utf8(self.spec_client_id()),
                encode_utf8(self.spec_redirect_url()),
                encode_utf8(state@),
            );
        }
        match bytes_into_string(url) {
            Ok(s) => s,
            Err(_) => unreached(),
        }
    }
}

/// Appends the bytes of a string literal onto a buffer.
fn append_str_bytes(buf: &mut Vec<u8>, piece: &str)
    ensures
        final(buf)@ == old(buf)@ + encode_utf8(piece@),
{
    let bytes = piece.as_bytes();
    let ghost before = buf@;
    let mut i: usize = 0;
    while i < bytes.len()
        invariant
            i <= bytes@.len(),
            buf@ == before + bytes@.subrange(0, i as int),
        decreases bytes@.len() - i,
    {
        buf.push(bytes[i]);
        proof {
            assert(buf@ =~= before + bytes@.subrange(0, i + 1));
        }
        i = i + 1;
    }
    proof {
        assert(buf@ =~= before + bytes@);
    }
}

/// The assembled authorize URL is valid UTF-8: its literal pieces are
/// character encodings, and its percent-encoded pieces are ASCII.
proof fn lemma_authorize_url_utf8(client_id: Seq<u8>, redirect: Seq<u8>, state: Seq<u8>)
    ensures
        valid_utf8(spec_authorize_url(client_id, redirect, state)),
{
    pct_encoded_ascii(client_id);
    ascii_bytes_valid_utf8(pct_encoded(client_id));
    pct_encoded_ascii(redirect);
    ascii_bytes_valid_utf8(pct_encoded(redirect));
    pct_encoded_ascii(scope_list());
    ascii_bytes_valid_utf8(pct_encoded(scope_list()));
    pct_encoded_ascii(state);
    ascii_bytes_valid_utf8(pct_encoded(state));
    let l1 = authorize_prefix();
    let l2 = encode_utf8("&redirect_uri="@);
    let l3 = encode_utf8("&scope="@);
    let l4 = encode_utf8("&state="@);
    let l5 = encode_utf8("&access_type=offline&prompt=consent"@);
    encode_utf8_valid_utf8("https://accounts.google.com/o/oauth2/v2/auth?response_type=code&client_id="@);
    encode_utf8_valid_utf8("&redirect_uri="@);
    encode_utf8_valid_utf8("&scope="@);
    encode_utf8_valid_utf8("&state="@);
    encode_utf8_valid_utf8("&access_type=offline&prompt=consent"@);
    let s1 = l1 + pct_encoded(client_id);
    valid_utf8_concat(l1, pct_encoded(client_id));
    let s2 = s1 + l2;
    valid_utf8_concat(s1, l2);
    let s3 = s2 + pct_encoded(redirect);
    valid_utf8_concat(s2, pct_encoded(redirect));
    let s4 = s3 + l3;
    valid_utf8_concat(s3, l3);
    let s5 = s4 + pct_encoded(scope_list());
    valid_utf8_concat(s4, pct_encoded(scope_list()));
    let s6 = s5 + l4;
    valid_utf8_concat(s5, l4);
    let s7 = s6 + pct_encoded(state);
    valid_utf8_concat(s6, pct_encoded(state));
    valid_utf8_concat(s7, l5);
    assert(spec_authorize_url(client_id, redirect, state) == s7 + l5);
}

/// Draws a fresh CSRF state token: 16 random bytes, hex-encoded to 32
/// characters. Only its length and character set are specified; the value
/// is random.
pub fn make_csrf_token() -> (r: String)
    ensures
        r@.len() == 32,
        forall|i: int| 0 <= i < r@.len()
            ==> (48 <= #[trigger] r@[i] as u32 <= 57 || 97 <= r@[i] as u32 <= 102),
{
    let bytes = random_bytes(16);
    proof {
        hex_lower_len(bytes@);
        hex_lower_is_ascii(bytes@);
    }
    hex_string(bytes.as_slice())
}

// ------------------------------------------------------------------
// The callback check
// ------------------------------------------------------------------

/// The query key carrying the authorization code.
pub open spec fn code_key() -> Seq<u8> {
    seq![99u8, 111, 100, 101]
}

/// The query key carrying the CSRF state.
pub open spec fn state_key() -> Seq<u8> {
    seq![115u8, 116, 97, 116, 101]
}

/// Why a callback request is rejected.
#[derive(Clone, Copy, PartialEq, Eq, Structural, Debug)]
pub enum OAuthCallbackError {
    /// The `state` parameter is absent or differs from the expected one —
    /// the CSRF defense; the code is not released.
    StateMismatch,
    /// The state matched but no `code` parameter was present.
    CodeMissing,
    /// The state matched but the code is not valid UTF-8.
    CodeInvalid,
}

/// Checks one callback request's query against the expected CSRF state.
///
/// Returns the authorization code only when the request carries the
/// expected `state`; a request whose state is absent or different is
/// rejected with `StateMismatch` and never releases a code.
pub fn handle_callback_query(query: &[u8], expected_state: &str) -> (r: Result<
    String,
    OAuthCallbackError,
>)
    ensures
        r matches Ok(code) ==> query_value(query@, code_key()) == Some(encode_utf8(code@))
            && query_value(query@, state_key()) == Some(encode_utf8(expected_state@)),
        r == Err::<String, OAuthCallbackError>(OAuthCallbackError::StateMismatch)
            <==> query_value(query@, state_key()) != Some(encode_utf8(expected_state@)),
        r == Err::<String, OAuthCallbackError>(OAuthCallbackError::CodeMissing)
            <==> query_value(query@, state_key()) == Some(encode_utf8(expected_state@))
                && query_value(query@, code_key()) is None,
        r is Ok <==> query_value(query@, state_key()) == Some(encode_utf8(expected_state@)) && (
        query_value(query@, code_key()) matches Some(b) && valid_utf8(b)),
{
    let pairs = parse_query(query);
    let skey = state_key_exec();
    let state_ok = match lookup_pair(&pairs, skey.as_slice()) {
        Some(v) => bytes_eq(v.as_slice(), expected_state.as_bytes()),
        None => false,
    };
    if !state_ok {
        return Err(OAuthCallbackError::StateMismatch);
    }
    let ckey = code_key_exec();
    let code_bytes = match lookup_pair(&pairs, ckey.as_slice()) {
        Some(v) => v,
        None => {
            return Err(OAuthCallbackError::CodeMissing);
        },
    };
    let ghost code_view = code_bytes@;
    match bytes_into_string(code_bytes) {
        Ok(code) => {
            proof {
                encode_utf8_valid_utf8(code@);
            }
            Ok(code)
        },
        Err(_) => Err(OAuthCallbackError::CodeInvalid),
    }
}

/// The page shown to the browser when the callback was accepted.
pub fn callback_success_page() -> (r: &'static str)
    ensures
        r@ == "Authentication successful! You can close this window now."@,
{
    "Authentication successful! You can close this window now."
}

/// The page shown to the browser when the callback was rejected.
pub fn callback_failure_page() -> (r: &'static str)
    ensures
        r@ == "Authentication failed. State mismatch or no code received."@,
{
    "Authentication failed. State mismatch or no code received."
}

/// The exec form of `code_key`.
fn code_key_exec() -> (r: Vec<u8>)
    ensures
        r@ == code_key(),
{
    let mut v: Vec<u8> = Vec::new();
    v.push(99);
    v.push(111);
    v.push(100);
    v.push(101);
    proof {
        assert(v@ =~= code_key());
    }
    v
}

/// The exec form of `state_key`.
fn state_key_exec() -> (r: Vec<u8>)
    ensures
        r@ == state_key(),
{
    let mut v: Vec<u8> = Vec::new();
    v.push(115);
    v.push(116);
    v.push(97);
    v.push(116);
    v.push(101);
    proof {
        assert(v@ =~= state_key());
    }
    v
}

} // verus!
