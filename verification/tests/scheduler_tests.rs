//! The background scheduler's dedup ledger and triage verdict.

use lumen_core::scheduler::{
    NotificationLedger, ItemDirective, parse_triage_verdict, default_proactive_message,
    build_triage_prompt, build_proactive_prompt,
};

#[test]
fn test_dedup() {
    let mut ledger = NotificationLedger::new();
    // First pass: the item is new and goes to triage.
    assert_eq!(ledger.plan_item("msg-1", "gmail"), ItemDirective::Triage);
    ledger.record("msg-1".to_string(), "gmail".to_string(), "Hello".to_string());
    // Second pass over the same id: no second triage, no second notification.
    assert_eq!(ledger.plan_item("msg-1", "gmail"), ItemDirective::AlreadyHandled);
    assert!(ledger.has_notified("msg-1", "gmail"));
    // A different provider with the same id is a different item.
    assert_eq!(ledger.plan_item("msg-1", "calendar"), ItemDirective::Triage);
}

#[test]
fn test_dedup_survives_later_recordings() {
    let mut ledger = NotificationLedger::new();
    ledger.record("a".to_string(), "gmail".to_string(), "SKIPPED".to_string());
    ledger.record("b".to_string(), "gmail".to_string(), "T".to_string());
    ledger.record("c".to_string(), "gmail".to_string(), "T".to_string());
    assert_eq!(ledger.plan_item("a", "gmail"), ItemDirective::AlreadyHandled);
}

#[test]
fn test_triage_verdict() {
    assert!(parse_triage_verdict("YES"));
    assert!(parse_triage_verdict("yes, definitely"));
    assert!(parse_triage_verdict("I would say Yes."));
    assert!(!parse_triage_verdict("NO"));
    assert!(!parse_triage_verdict("nope"));
    assert!(!parse_triage_verdict(""));
}

#[test]
fn test_proactive_fallback_message() {
    assert!(default_proactive_message().starts_with("I noticed a new email"));
}

#[test]
fn test_prompts_embed_email_fields() {
    let p = build_triage_prompt("alice@example.com", "Lunch?", "are you free");
    assert!(p.contains("From: alice@example.com"));
    assert!(p.contains("Subject: Lunch?"));
    assert!(p.contains("Snippet: are you free"));
    assert!(p.ends_with("ONLY say 'YES' or 'NO'."));

    let q = build_proactive_prompt("bob@example.com", "Hi", "hello there");
    assert!(q.contains("From: bob@example.com"));
    assert!(q.contains("Snippet: hello there"));
}
