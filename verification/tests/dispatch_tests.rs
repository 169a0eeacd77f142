//! Tool routing: the catalog, the typed argument parsing, and the
//! structured unknown-tool errors.

use lumen_core::catalog::{get_tool_declarations, is_async_tool};
use lumen_core::dispatch::{
    parse_sync_tool, parse_async_tool, SyncToolOp, AsyncToolOp, unknown_tool_error,
};
use lumen_core::value::StructuredValue;

fn args(fields: Vec<(&str, StructuredValue)>) -> StructuredValue {
    StructuredValue::Object(
        fields.into_iter().map(|(k, v)| (k.to_string(), v)).collect(),
    )
}

#[test]
fn test_catalog_names_unique_and_complete() {
    let decls = get_tool_declarations();
    assert_eq!(decls.len(), 22);
    assert_eq!(decls[0].name, "read_file");
    assert_eq!(decls[21].name, "search_clipboard");
    for i in 0..decls.len() {
        for j in 0..i {
            assert_ne!(decls[i].name, decls[j].name);
        }
    }
    // The parameterless capabilities carry no schema.
    for d in &decls {
        let expect_none =
            d.name == "get_obsidian_vault_info" || d.name == "list_reminders"
                || d.name == "take_screenshot";
        assert_eq!(d.parameters.is_none(), expect_none, "{}", d.name);
    }
}

#[test]
fn test_catalog_schema_contents() {
    let decls = get_tool_declarations();
    // read_file: one string property `path`, required.
    match decls[0].parameters.as_ref().unwrap() {
        StructuredValue::Object(fields) => {
            assert_eq!(fields.len(), 3);
            assert_eq!(fields[0].0, "type");
            assert!(matches!(&fields[0].1, StructuredValue::Text(t) if t == "object"));
            assert_eq!(fields[1].0, "properties");
            match &fields[1].1 {
                StructuredValue::Object(props) => {
                    assert_eq!(props.len(), 1);
                    assert_eq!(props[0].0, "path");
                    match &props[0].1 {
                        StructuredValue::Object(pf) => {
                            assert!(matches!(&pf[0].1, StructuredValue::Text(t) if t == "string"));
                            assert!(matches!(&pf[1].1, StructuredValue::Text(d)
                                if d == "The absolute path to the local file."));
                        }
                        _ => panic!("property must be an object"),
                    }
                }
                _ => panic!("properties must be an object"),
            }
            assert_eq!(fields[2].0, "required");
            match &fields[2].1 {
                StructuredValue::Array(ns) => {
                    assert_eq!(ns.len(), 1);
                    assert!(matches!(&ns[0], StructuredValue::Text(n) if n == "path"));
                }
                _ => panic!("required must be an array"),
            }
        }
        _ => panic!("schema must be an object"),
    }
    // get_unread_emails: two optional properties, no required array.
    match decls[10].parameters.as_ref().unwrap() {
        StructuredValue::Object(fields) => {
            assert_eq!(fields.len(), 2);
            match &fields[1].1 {
                StructuredValue::Object(props) => {
                    assert_eq!(props.len(), 2);
                    assert_eq!(props[0].0, "max_results");
                    match &props[0].1 {
                        StructuredValue::Object(pf) => {
                            assert!(matches!(&pf[0].1, StructuredValue::Text(t) if t == "integer"));
                        }
                        _ => panic!(),
                    }
                    assert_eq!(props[1].0, "query");
                }
                _ => panic!(),
            }
        }
        _ => panic!(),
    }
}

#[test]
fn test_async_routing() {
    for name in [
        "get_weather",
        "get_google_calendar_events",
        "get_unread_emails",
        "send_email",
        "create_calendar_event",
        "list_google_tasks",
        "create_google_task",
        "take_screenshot",
    ] {
        assert!(is_async_tool(name), "{}", name);
    }
    assert!(!is_async_tool("read_file"));
    assert!(!is_async_tool("search_clipboard"));
    assert!(!is_async_tool("bogus"));
}

#[test]
fn test_parse_sync_tool_args() {
    let a = args(vec![("path", StructuredValue::Text("/tmp/x.md".to_string()))]);
    match parse_sync_tool("read_file", &a).unwrap() {
        SyncToolOp::ReadFile { path } => assert_eq!(path, "/tmp/x.md"),
        _ => panic!("wrong op"),
    }

    // Missing arguments fall back to the documented defaults.
    match parse_sync_tool("list_files", &StructuredValue::Null).unwrap() {
        SyncToolOp::ListFiles { path } => assert_eq!(path, "."),
        _ => panic!("wrong op"),
    }

    let a = args(vec![
        ("path", StructuredValue::Text("/n.md".to_string())),
        ("line_number", StructuredValue::Int(3)),
        ("new_content", StructuredValue::Text("- [x] done".to_string())),
    ]);
    match parse_sync_tool("edit_file_line", &a).unwrap() {
        SyncToolOp::EditFileLine { path, line_number, new_content } => {
            assert_eq!(path, "/n.md");
            assert_eq!(line_number, 3);
            assert_eq!(new_content, "- [x] done");
        }
        _ => panic!("wrong op"),
    }

    match parse_sync_tool("search_clipboard", &StructuredValue::Null).unwrap() {
        SyncToolOp::SearchClipboard { query, limit } => {
            assert_eq!(query, "");
            assert_eq!(limit, 5);
        }
        _ => panic!("wrong op"),
    }

    assert!(parse_sync_tool("bogus", &StructuredValue::Null).is_none());
    assert!(parse_sync_tool("get_weather", &StructuredValue::Null).is_none());
}

#[test]
fn test_parse_async_tool_args() {
    match parse_async_tool("get_weather", &StructuredValue::Null).unwrap() {
        AsyncToolOp::GetWeather { location } => assert_eq!(location, "Lagos"),
        _ => panic!("wrong op"),
    }

    let a = args(vec![
        ("max_results", StructuredValue::Int(3)),
        ("query", StructuredValue::Text("newer_than:1d".to_string())),
    ]);
    match parse_async_tool("get_unread_emails", &a).unwrap() {
        AsyncToolOp::GetUnreadEmails { max_results, query } => {
            assert_eq!(max_results, 3);
            assert_eq!(query.as_deref(), Some("newer_than:1d"));
        }
        _ => panic!("wrong op"),
    }

    match parse_async_tool("list_google_tasks", &StructuredValue::Null).unwrap() {
        AsyncToolOp::ListTasks { max_results } => assert_eq!(max_results, 10),
        _ => panic!("wrong op"),
    }

    assert!(parse_async_tool("read_file", &StructuredValue::Null).is_none());
}

#[test]
fn test_unknown_tool_error() {
    match unknown_tool_error("bogus") {
        StructuredValue::Object(fields) => {
            assert_eq!(fields.len(), 1);
            assert_eq!(fields[0].0, "error");
            match &fields[0].1 {
                StructuredValue::Text(m) => assert_eq!(m, "unknown tool: bogus"),
                _ => panic!("error must be text"),
            }
        }
        _ => panic!("error must be an object"),
    }
}
