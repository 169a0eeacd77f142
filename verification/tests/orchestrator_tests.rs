//! The bounded conversation loop: the iteration ceiling, text folding,
//! media re-injection, and the final reply.

use lumen_core::convo::{Part, Turn, Role, FunctionCall, FunctionResponse};
use lumen_core::orchestrator::{Orchestration, OrchestrationError};
use lumen_core::value::StructuredValue;

fn user_turn(text: &str) -> Turn {
    Turn { role: Role::User, parts: vec![Part::text(text.to_string())] }
}

fn call_reply(name: &str) -> Vec<Part> {
    vec![Part::Call(FunctionCall {
        name: name.to_string(),
        args: StructuredValue::Null,
    })]
}

fn error_response(name: &str) -> FunctionResponse {
    FunctionResponse {
        name: name.to_string(),
        response: StructuredValue::Text("failed".to_string()),
    }
}

#[test]
fn test_loop_boundedness() {
    // A model stub that always returns a function call: the loop must end
    // after exactly five model round-trips.
    let mut orch = Orchestration::new(vec![user_turn("hi")]);
    let mut model_calls = 0;
    while orch.needs_model_call() {
        model_calls += 1;
        let has_calls = orch.absorb_model_reply(call_reply("search_web"));
        assert!(has_calls);
        orch.supply_tool_results(vec![error_response("search_web")]);
    }
    assert_eq!(model_calls, 5);
    assert_eq!(orch.rounds(), 5);
    assert!(!orch.needs_model_call());
}

#[test]
fn test_text_only_reply_ends_loop() {
    let mut orch = Orchestration::new(vec![user_turn("hi")]);
    let has_calls = orch.absorb_model_reply(vec![Part::text("hello there".to_string())]);
    assert!(!has_calls);
    assert!(!orch.needs_model_call());
    assert_eq!(orch.finalize().unwrap(), "hello there");
}

#[test]
fn test_text_folding_drops_echoes() {
    let mut orch = Orchestration::new(vec![user_turn("hi")]);
    orch.absorb_model_reply(vec![
        Part::text("first thought".to_string()),
        Part::Call(FunctionCall { name: "search_web".to_string(), args: StructuredValue::Null }),
    ]);
    orch.supply_tool_results(vec![error_response("search_web")]);
    // The echoed fragment is dropped; a new one is separated by a blank line.
    orch.absorb_model_reply(vec![
        Part::text("first thought".to_string()),
        Part::text("second thought".to_string()),
    ]);
    assert_eq!(orch.finalize().unwrap(), "first thought\n\nsecond thought");
}

#[test]
fn test_finalize_substitutes_acknowledgement() {
    let mut orch = Orchestration::new(vec![user_turn("do it")]);
    orch.absorb_model_reply(call_reply("search_web"));
    orch.supply_tool_results(vec![error_response("search_web")]);
    orch.absorb_model_reply(Vec::new());
    assert_eq!(orch.finalize().unwrap(), "Done! \u{2728}");
}

#[test]
fn test_finalize_fails_without_text_or_tools() {
    let mut orch = Orchestration::new(vec![user_turn("hi")]);
    orch.absorb_model_reply(Vec::new());
    assert_eq!(orch.finalize(), Err(OrchestrationError::NoModelText));
}

#[test]
fn test_screenshot_media_reinjection() {
    let mut orch = Orchestration::new(vec![user_turn("look")]);
    orch.absorb_model_reply(call_reply("take_screenshot"));
    let response = FunctionResponse {
        name: "take_screenshot".to_string(),
        response: StructuredValue::Object(vec![
            ("status".to_string(), StructuredValue::Text("success".to_string())),
            ("image_data".to_string(), StructuredValue::Text("BASE64PNG".to_string())),
        ]),
    };
    orch.supply_tool_results(vec![response]);
    let turns = orch.turns();
    // history: user, model, function, synthetic user with the inline image.
    assert_eq!(turns.len(), 4);
    let function_turn = &turns[2];
    assert!(matches!(function_turn.role, Role::Function));
    match &function_turn.parts[0] {
        Part::Response(fr) => match &fr.response {
            StructuredValue::Object(fields) => {
                assert!(fields.iter().all(|f| f.0 != "image_data"));
                let last = fields.last().unwrap();
                assert_eq!(last.0, "info");
            }
            _ => panic!("stripped response must stay an object"),
        },
        _ => panic!("function turn holds responses"),
    }
    let media_turn = &turns[3];
    assert!(matches!(media_turn.role, Role::User));
    match &media_turn.parts[1] {
        Part::Inline(d) => {
            assert_eq!(d.mime_type, "image/png");
            assert_eq!(d.data, "BASE64PNG");
        }
        _ => panic!("media turn carries the image inline"),
    }
    match &media_turn.parts[0] {
        Part::Text(t) => assert_eq!(t, "[VISUAL CONTEXT ATTACHED]"),
        _ => panic!("media turn starts with the marker text"),
    }
}

#[test]
fn test_plain_responses_kept_verbatim() {
    let mut orch = Orchestration::new(vec![user_turn("hi")]);
    orch.absorb_model_reply(call_reply("get_weather"));
    orch.supply_tool_results(vec![FunctionResponse {
        name: "get_weather".to_string(),
        response: StructuredValue::Object(vec![(
            "temperature_c".to_string(),
            StructuredValue::Text("21".to_string()),
        )]),
    }]);
    let turns = orch.turns();
    // No screenshot: no synthetic media turn.
    assert_eq!(turns.len(), 3);
}
