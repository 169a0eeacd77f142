//! The OAuth session: authorize URL, CSRF state, and the callback check.

use lumen_core::oauth::{
    GoogleAuth, handle_callback_query, OAuthCallbackError, make_csrf_token,
    callback_success_page, callback_failure_page,
};

#[test]
fn test_csrf_rejection() {
    // A callback with the wrong state must fail and must not yield the code.
    let r = handle_callback_query(b"code=abc123&state=WRONG", "expectedABC");
    assert_eq!(r, Err(OAuthCallbackError::StateMismatch));
}

#[test]
fn test_callback_accepts_matching_state() {
    let r = handle_callback_query(b"code=authcode42&state=expectedABC", "expectedABC");
    assert_eq!(r.unwrap(), "authcode42");
}

#[test]
fn test_callback_missing_state_rejected() {
    let r = handle_callback_query(b"code=abc123", "expectedABC");
    assert_eq!(r, Err(OAuthCallbackError::StateMismatch));
}

#[test]
fn test_callback_missing_code_rejected() {
    let r = handle_callback_query(b"state=expectedABC", "expectedABC");
    assert_eq!(r, Err(OAuthCallbackError::CodeMissing));
}

#[test]
fn test_callback_decodes_percent_escapes() {
    let r = handle_callback_query(b"code=a%2Fb%3D&state=expectedABC", "expectedABC");
    assert_eq!(r.unwrap(), "a/b=");
}

#[test]
fn test_authorize_url_contents() {
    let auth = GoogleAuth::new("my-client".to_string(), "shh".to_string());
    let url = auth.build_authorize_url("st4te");
    assert!(url.starts_with(
        "https://accounts.google.com/o/oauth2/v2/auth?response_type=code&client_id=my-client"
    ));
    assert!(url.contains("&redirect_uri=http%3A%2F%2Flocalhost%3A18247"));
    assert!(url.contains("&state=st4te"));
    assert!(url.ends_with("&access_type=offline&prompt=consent"));
    assert!(url.contains("&scope="));
    assert!(url.contains("calendar"));
}

#[test]
fn test_start_auth_flow_embeds_state() {
    let auth = GoogleAuth::new("id".to_string(), "secret".to_string());
    let (url, state) = auth.start_auth_flow();
    assert_eq!(state.len(), 32);
    assert!(state.chars().all(|c| c.is_ascii_hexdigit()));
    assert!(url.contains(&format!("&state={}", state)));
    assert_eq!(auth.client_id(), "id");
    assert_eq!(auth.client_secret(), "secret");
    assert_eq!(auth.redirect_url(), "http://localhost:18247");
}

#[test]
fn test_csrf_tokens_are_fresh() {
    let a = make_csrf_token();
    let b = make_csrf_token();
    assert_eq!(a.len(), 32);
    assert_ne!(a, b);
}

#[test]
fn test_callback_pages() {
    assert_eq!(
        callback_success_page(),
        "Authentication successful! You can close this window now."
    );
    assert_eq!(
        callback_failure_page(),
        "Authentication failed. State mismatch or no code received."
    );
}
