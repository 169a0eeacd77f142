//! Token staleness, refresh merging, the stored record codec, and the
//! lifecycle planning.

use lumen_core::cipher::SecretCipher;
use lumen_core::lifecycle::{
    plan_token_use, apply_refresh, seal_token_set, TokenAccessError, TokenPlan, RetrySession,
    RetryDirective,
};
use lumen_core::tokens::{
    TokenSet, token_set_from_response, merge_refreshed, encode_token_record, parse_token_record,
};

fn test_cipher() -> SecretCipher {
    SecretCipher::new(vec![3u8; 32]).unwrap()
}

#[test]
fn test_token_staleness() {
    let now: u64 = 1_700_000_000;
    let just_expired = TokenSet {
        access_token: "t".to_string(),
        refresh_token: None,
        expires_at: Some(now - 1),
    };
    assert!(just_expired.is_expired(now));

    let valid = TokenSet {
        access_token: "t".to_string(),
        refresh_token: None,
        expires_at: Some(now + 3600),
    };
    assert!(!valid.is_expired(now));

    let no_expiry = TokenSet {
        access_token: "t".to_string(),
        refresh_token: None,
        expires_at: None,
    };
    assert!(no_expiry.is_expired(now));

    // The five-minute skew: expiring within the skew counts as expired.
    let within_skew = TokenSet {
        access_token: "t".to_string(),
        refresh_token: None,
        expires_at: Some(now + 200),
    };
    assert!(within_skew.is_expired(now));
}

#[test]
fn test_refresh_token_preserved() {
    let previous = TokenSet {
        access_token: "old-access".to_string(),
        refresh_token: Some("keep-me".to_string()),
        expires_at: Some(100),
    };
    let refreshed = TokenSet {
        access_token: "new-access".to_string(),
        refresh_token: None,
        expires_at: Some(200),
    };
    let merged = merge_refreshed(&previous, refreshed);
    assert_eq!(merged.access_token, "new-access");
    assert_eq!(merged.refresh_token.as_deref(), Some("keep-me"));
    assert_eq!(merged.expires_at, Some(200));

    let reissued = TokenSet {
        access_token: "new-access".to_string(),
        refresh_token: Some("fresh".to_string()),
        expires_at: None,
    };
    let merged2 = merge_refreshed(&previous, reissued);
    assert_eq!(merged2.refresh_token.as_deref(), Some("fresh"));
}

#[test]
fn test_token_record_roundtrip() {
    let t = TokenSet {
        access_token: "a&b=c %20 ünïcode".to_string(),
        refresh_token: Some("refresh/token+&=".to_string()),
        expires_at: Some(1_700_000_123),
    };
    let record = encode_token_record(&t);
    let back = parse_token_record(&record).unwrap();
    assert_eq!(back.access_token, t.access_token);
    assert_eq!(back.refresh_token, t.refresh_token);
    assert_eq!(back.expires_at, t.expires_at);
}

#[test]
fn test_token_record_roundtrip_minimal() {
    let t = TokenSet {
        access_token: "".to_string(),
        refresh_token: None,
        expires_at: None,
    };
    let record = encode_token_record(&t);
    let back = parse_token_record(&record).unwrap();
    assert_eq!(back.access_token, "");
    assert_eq!(back.refresh_token, None);
    assert_eq!(back.expires_at, None);
}

#[test]
fn test_parse_rejects_garbage() {
    assert!(parse_token_record(b"no-access-key=1").is_none());
}

#[test]
fn test_token_set_from_response() {
    let now: u64 = 1_000_000;
    let t = token_set_from_response("acc".to_string(), Some("ref".to_string()), Some(3600), now);
    assert_eq!(t.access_token, "acc");
    assert_eq!(t.refresh_token.as_deref(), Some("ref"));
    assert_eq!(t.expires_at, Some(now + 3600));

    let no_life = token_set_from_response("acc".to_string(), None, None, now);
    assert_eq!(no_life.expires_at, None);
}

#[test]
fn test_plan_token_use() {
    let cipher = test_cipher();
    let now: u64 = 1_700_000_000;

    assert!(matches!(
        plan_token_use(None, &cipher, now),
        Err(TokenAccessError::CredentialMissing)
    ));

    let fresh = TokenSet {
        access_token: "fresh-token".to_string(),
        refresh_token: Some("r".to_string()),
        expires_at: Some(now + 3600),
    };
    let blob = seal_token_set(&fresh, &cipher).unwrap();
    match plan_token_use(Some(&blob), &cipher, now).unwrap() {
        TokenPlan::UseCurrent(t) => assert_eq!(t.access_token, "fresh-token"),
        TokenPlan::Refresh(_, _) => panic!("fresh token must not refresh"),
    }

    let stale = TokenSet {
        access_token: "stale-token".to_string(),
        refresh_token: Some("the-refresh".to_string()),
        expires_at: Some(now - 10),
    };
    let blob = seal_token_set(&stale, &cipher).unwrap();
    match plan_token_use(Some(&blob), &cipher, now).unwrap() {
        TokenPlan::Refresh(t, rt) => {
            assert_eq!(t.access_token, "stale-token");
            assert_eq!(rt, "the-refresh");
        }
        TokenPlan::UseCurrent(_) => panic!("stale token must refresh"),
    }

    let dead_end = TokenSet {
        access_token: "stale".to_string(),
        refresh_token: None,
        expires_at: None,
    };
    let blob = seal_token_set(&dead_end, &cipher).unwrap();
    assert!(matches!(
        plan_token_use(Some(&blob), &cipher, now),
        Err(TokenAccessError::RefreshTokenMissing)
    ));
}

#[test]
fn test_plan_token_use_error_causes() {
    let cipher = test_cipher();
    let now: u64 = 1_700_000_000;

    // A blob that is not even base64 fails decryption with the exact cause.
    let garbage = "!!!not-base64!!!".to_string();
    assert!(matches!(
        plan_token_use(Some(&garbage), &cipher, now),
        Err(TokenAccessError::DecryptionFailed(
            lumen_core::cipher::DecryptionError::InvalidEncoding
        ))
    ));

    // A blob that decrypts to something other than a token record is
    // malformed, not a decryption failure.
    let not_a_record = cipher.encrypt("just some text").unwrap();
    assert!(matches!(
        plan_token_use(Some(&not_a_record), &cipher, now),
        Err(TokenAccessError::MalformedRecord)
    ));
}

#[test]
fn test_apply_refresh_persists_merge() {
    let cipher = test_cipher();
    let now: u64 = 1_700_000_000;
    let current = TokenSet {
        access_token: "old".to_string(),
        refresh_token: Some("keep-me".to_string()),
        expires_at: Some(now - 10),
    };
    let refreshed = TokenSet {
        access_token: "new".to_string(),
        refresh_token: None,
        expires_at: Some(now + 3600),
    };
    let (merged, blob) = apply_refresh(&current, refreshed, &cipher).unwrap();
    assert_eq!(merged.refresh_token.as_deref(), Some("keep-me"));
    // The persisted blob stores exactly the merged set.
    match plan_token_use(Some(&blob), &cipher, now).unwrap() {
        TokenPlan::UseCurrent(t) => {
            assert_eq!(t.access_token, "new");
            assert_eq!(t.refresh_token.as_deref(), Some("keep-me"));
            assert_eq!(t.expires_at, Some(now + 3600));
        }
        TokenPlan::Refresh(_, _) => panic!("merged token is fresh"),
    }
}

#[test]
fn test_retry_on_401() {
    // 401 then 200: exactly one forced refresh, then success.
    let mut session = RetrySession::new();
    assert_eq!(session.on_status(401), RetryDirective::RefreshAndRetry);
    assert_eq!(session.on_status(200), RetryDirective::Succeed);

    // 401 then 401: the second one gives up, never a second refresh.
    let mut session = RetrySession::new();
    assert_eq!(session.on_status(401), RetryDirective::RefreshAndRetry);
    assert_eq!(session.on_status(401), RetryDirective::GiveUp);

    // A success needs no refresh at all.
    let mut session = RetrySession::new();
    assert_eq!(session.on_status(200), RetryDirective::Succeed);

    // Any other failure gives up at once.
    let mut session = RetrySession::new();
    assert_eq!(session.on_status(500), RetryDirective::GiveUp);
}
