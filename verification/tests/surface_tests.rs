//! The remaining value-level surfaces: encodings, request building,
//! response extraction, context assembly, and the command shapes.

use lumen_core::briefing::{briefing_hash, build_hash_input, briefing_is_stale,
    build_briefing_context};
use lumen_core::chat::{build_chat_context, message_to_response};
use lumen_core::client::{get_default_system_instruction, interpret_model_response,
    ModelCandidate, GeminiError, ModelRequestError};
use lumen_core::convo::Part;
use lumen_core::encoding::{hex_string, pct_encode_bytes, pct_decode_bytes, format_u64,
    parse_u64};
use lumen_core::gcal::{build_event_body, extract_calendar_events};
use lumen_core::gtasks::{extract_first_tasklist_id, extract_tasks, tasks_list_url};
use lumen_core::mail::{build_email_raw, encode_email_payload, gmail_list_url, gmail_detail_url,
    extract_gmail_message, extract_message_ids};
use lumen_core::records::{ChatMessage, CalendarEvent};
use lumen_core::settings::mask_key;
use lumen_core::setup::{integration_from_request, SaveIntegrationRequest};
use lumen_core::value::StructuredValue;
use lumen_core::weather::extract_weather;

fn obj(fields: Vec<(&str, StructuredValue)>) -> StructuredValue {
    StructuredValue::Object(
        fields.into_iter().map(|(k, v)| (k.to_string(), v)).collect(),
    )
}

fn text(s: &str) -> StructuredValue {
    StructuredValue::Text(s.to_string())
}

#[test]
fn test_hex_and_decimal() {
    assert_eq!(hex_string(&[0xbe, 0xef]), "beef");
    assert_eq!(hex_string(&[]), "");
    assert_eq!(format_u64(0), b"0".to_vec());
    assert_eq!(format_u64(90210), b"90210".to_vec());
    assert_eq!(parse_u64(b"90210"), Some(90210));
    assert_eq!(parse_u64(b""), None);
    assert_eq!(parse_u64(b"12a"), None);
    assert_eq!(parse_u64(b"99999999999999999999999"), None);
}

#[test]
fn test_percent_roundtrip() {
    let data = b"a b&c=d/100%".to_vec();
    let enc = pct_encode_bytes(&data);
    assert_eq!(enc, b"a%20b%26c%3Dd%2F100%25".to_vec());
    assert_eq!(pct_decode_bytes(&enc), data);
    // Form-style decoding: a plus is a space.
    assert_eq!(pct_decode_bytes(b"a+b"), b"a b".to_vec());
}

#[test]
fn test_briefing_hash_and_staleness() {
    // SHA-256 of the empty input, in lower-case hex.
    assert_eq!(
        briefing_hash(""),
        "e3b0c44298fc1c149afbf4c8996fb92427ae41e4649b934ca495991b7852b855"
    );
    let input = build_hash_input(None, Some((None, "2026-01-01")));
    assert_eq!(input, "google:connected:2026-01-01");
    assert_eq!(
        briefing_hash(&input),
        "88bf122ee5100b1528074420c2cd70f97dcc97e2415d64c856e572279b643fa6"
    );
    let input2 = build_hash_input(Some(("stamp", 120)), Some((Some("2026-01-01T10:00"), "2026-01-01")));
    assert_eq!(input2, "obsidian:stamp:120google:2026-01-01T10:00:2026-01-01");
    assert!(briefing_is_stale("aaa", "bbb"));
    assert!(!briefing_is_stale("aaa", "aaa"));
}

#[test]
fn test_briefing_context() {
    let ctx = build_briefing_context(
        Some("a calm day"),
        &vec!["slow start".to_string(), "picked up".to_string()],
    );
    assert_eq!(
        ctx,
        "Yesterday's final outcome: a calm day\n\nToday's narrative evolution so far:\n\n1. slow start\n\n2. picked up"
    );
    assert_eq!(build_briefing_context(None, &Vec::new()), "");
}

#[test]
fn test_email_payload() {
    assert_eq!(
        build_email_raw("a", "b", "c"),
        "To: a\r\nSubject: b\r\nContent-Type: text/plain; charset=\"UTF-8\"\r\n\r\nc"
    );
    assert_eq!(
        encode_email_payload("a", "b", "c"),
        "VG86IGENClN1YmplY3Q6IGINCkNvbnRlbnQtVHlwZTogdGV4dC9wbGFpbjsgY2hhcnNldD0iVVRGLTgiDQoNCmM"
    );
}

#[test]
fn test_gmail_urls() {
    assert_eq!(
        gmail_list_url(5, "is:unread inbox"),
        "https://gmail.googleapis.com/gmail/v1/users/me/messages?maxResults=5&q=is%3Aunread%20inbox"
    );
    assert_eq!(
        gmail_detail_url("abc"),
        "https://gmail.googleapis.com/gmail/v1/users/me/messages/abc"
    );
    assert_eq!(
        tasks_list_url("L1", 10),
        "https://tasks.googleapis.com/tasks/v1/lists/L1/tasks?maxResults=10&showCompleted=false"
    );
}

#[test]
fn test_extract_gmail_message() {
    let detail = obj(vec![
        ("threadId", text("t-9")),
        ("snippet", text("hi there")),
        (
            "payload",
            obj(vec![(
                "headers",
                StructuredValue::Array(vec![
                    obj(vec![("name", text("Subject")), ("value", text("Lunch"))]),
                    obj(vec![("name", text("From")), ("value", text("al@example.com"))]),
                ]),
            )]),
        ),
    ]);
    let m = extract_gmail_message("m-1".to_string(), &detail);
    assert_eq!(m.id, "m-1");
    assert_eq!(m.thread_id, "t-9");
    assert_eq!(m.snippet, "hi there");
    assert_eq!(m.subject.as_deref(), Some("Lunch"));
    assert_eq!(m.from.as_deref(), Some("al@example.com"));
    assert_eq!(m.date, None);
}

#[test]
fn test_extract_message_ids() {
    let listing = obj(vec![(
        "messages",
        StructuredValue::Array(vec![
            obj(vec![("id", text("m1")), ("threadId", text("t1"))]),
            obj(vec![("id", text("m2"))]),
        ]),
    )]);
    assert_eq!(
        extract_message_ids(&listing).unwrap(),
        vec!["m1".to_string(), "m2".to_string()]
    );
    // An absent list is an empty one; a listed entry without an id is malformed.
    assert!(extract_message_ids(&obj(vec![])).unwrap().is_empty());
    let bad = obj(vec![(
        "messages",
        StructuredValue::Array(vec![obj(vec![("threadId", text("t1"))])]),
    )]);
    assert!(extract_message_ids(&bad).is_none());
}

#[test]
fn test_extract_calendar_events() {
    let data = obj(vec![(
        "items",
        StructuredValue::Array(vec![obj(vec![
            ("id", text("e1")),
            ("summary", text("Standup")),
            ("start", obj(vec![("dateTime", text("2026-01-20T09:00:00Z"))])),
            ("end", obj(vec![("dateTime", text("2026-01-20T09:15:00Z"))])),
        ])]),
    )]);
    let events = extract_calendar_events(&data).unwrap();
    assert_eq!(events.len(), 1);
    assert_eq!(events[0].id, "e1");
    assert_eq!(events[0].summary.as_deref(), Some("Standup"));
    assert_eq!(events[0].start.date_time.as_deref(), Some("2026-01-20T09:00:00Z"));
    // No items list: the response is malformed.
    assert!(extract_calendar_events(&obj(vec![])).is_none());
}

#[test]
fn test_extract_tasks() {
    let data = obj(vec![(
        "items",
        StructuredValue::Array(vec![obj(vec![
            ("id", text("t1")),
            ("title", text("Buy milk")),
            ("status", text("needsAction")),
        ])]),
    )]);
    let tasks = extract_tasks(&data).unwrap();
    assert_eq!(tasks.len(), 1);
    assert_eq!(tasks[0].title, "Buy milk");
    assert_eq!(tasks[0].status, "needsAction");
    // An absent list is an empty one.
    assert!(extract_tasks(&obj(vec![])).unwrap().is_empty());

    let lists = obj(vec![(
        "items",
        StructuredValue::Array(vec![obj(vec![("id", text("L1"))])]),
    )]);
    assert_eq!(extract_first_tasklist_id(&lists).as_deref(), Some("L1"));
}

#[test]
fn test_event_body_shape() {
    let body = build_event_body(
        "Dinner".to_string(),
        None,
        "2026-01-20T19:00:00+01:00".to_string(),
        "2026-01-20T21:00:00+01:00".to_string(),
        Some("Trattoria".to_string()),
    );
    match body {
        StructuredValue::Object(fields) => {
            assert_eq!(fields[0].0, "summary");
            assert!(matches!(fields[1].1, StructuredValue::Null));
            match &fields[3].1 {
                StructuredValue::Object(st) => assert_eq!(st[0].0, "dateTime"),
                _ => panic!(),
            }
        }
        _ => panic!(),
    }
}

#[test]
fn test_interpret_model_response() {
    let parts = vec![Part::text("hello".to_string())];
    let ok = interpret_model_response(Some(vec![ModelCandidate { parts }]), None);
    match ok {
        Ok(ps) => match ps.as_slice() {
            [Part::Text(t)] => assert_eq!(t, "hello"),
            _ => panic!(),
        },
        Err(_) => panic!("a nonempty candidate list succeeds"),
    }
    assert!(matches!(
        interpret_model_response(None, None),
        Err(ModelRequestError::NoCandidates)
    ));
    assert!(matches!(
        interpret_model_response(Some(Vec::new()), None),
        Err(ModelRequestError::EmptyCandidates)
    ));
    let err = interpret_model_response(
        Some(Vec::new()),
        Some(GeminiError { message: "quota".to_string(), status: None }),
    );
    match err {
        Err(ModelRequestError::ApiError(e)) => assert_eq!(e.message, "quota"),
        _ => panic!("an explicit error payload aborts"),
    }
}

#[test]
fn test_chat_context() {
    let events = vec![CalendarEvent {
        id: "e1".to_string(),
        title: "Standup".to_string(),
        description: None,
        start_time: "09:00".to_string(),
        end_time: "09:15".to_string(),
        location: None,
        all_day: false,
    }];
    let ctx = build_chat_context(
        "Tuesday, Jan 20",
        "14:05",
        "2026-01-20T14:05:00+01:00",
        Some("Ada"),
        true,
        false,
        &events,
        None,
    );
    assert!(ctx.starts_with("Today: Tuesday, Jan 20 at 14:05"));
    assert!(ctx.contains("User Name: Ada"));
    assert!(ctx.contains("ISO_NOW: 2026-01-20T14:05:00+01:00"));
    assert!(ctx.contains("Google Services: ENABLED"));
    assert!(ctx.contains("Obsidian: DISABLED"));
    assert!(ctx.contains("Today's calendar events:\n- Standup at 09:00\n"));
}

#[test]
fn test_message_to_response() {
    let m = ChatMessage {
        id: Some(7),
        role: "user".to_string(),
        content: "hi".to_string(),
        image_data: None,
        created_at: "2026-01-20T14:05:00Z".to_string(),
        session_id: None,
    };
    let r = message_to_response(m);
    assert_eq!(r.id, Some(7));
    assert_eq!(r.role, "user");
    assert_eq!(r.content, "hi");
}

#[test]
fn test_mask_key() {
    assert_eq!(mask_key("abcdefgh1234"), "********...1234");
    assert_eq!(mask_key("abc"), "***");
    assert_eq!(mask_key(""), "");
}

#[test]
fn test_integration_from_request() {
    let on = integration_from_request(SaveIntegrationRequest {
        name: "google".to_string(),
        enabled: true,
        config: Some("{}".to_string()),
    });
    assert_eq!(on.status, "connected");
    assert!(on.enabled);
    let off = integration_from_request(SaveIntegrationRequest {
        name: "obsidian".to_string(),
        enabled: false,
        config: None,
    });
    assert_eq!(off.status, "disconnected");
}

#[test]
fn test_system_instruction_present() {
    let s = get_default_system_instruction();
    assert!(s.contains("Lumen"));
    assert!(!s.is_empty());
}

#[test]
fn test_extract_weather() {
    let data = obj(vec![(
        "current_condition",
        StructuredValue::Array(vec![obj(vec![
            ("temp_C", text("21")),
            (
                "weatherDesc",
                StructuredValue::Array(vec![obj(vec![("value", text("Sunny"))])]),
            ),
            ("humidity", text("40")),
        ])]),
    )]);
    let (temp, condition, humidity) = extract_weather(&data).unwrap();
    assert_eq!(temp, "21");
    assert_eq!(condition, "Sunny");
    assert_eq!(humidity, "40");
    // No current condition: the response cannot be read.
    assert!(extract_weather(&obj(vec![])).is_none());
    // Missing fields read as unknown.
    let sparse = obj(vec![(
        "current_condition",
        StructuredValue::Array(vec![obj(vec![])]),
    )]);
    let (temp, condition, _) = extract_weather(&sparse).unwrap();
    assert_eq!(temp, "unknown");
    assert_eq!(condition, "unknown");
}
