//! The tool catalog: the immutable list of capabilities the model may
//! call, compiled once and handed to the model on every round-trip, and
//! the split into the synchronous (local) and asynchronous (networked)
//! execution classes.

use vstd::prelude::*;
use crate::value::StructuredValue;
use crate::encoding::str_eq;

verus! {

/// One callable capability: its unique name, a natural-language
/// description for the model, and an optional JSON-schema-like parameter
/// shape.
pub struct ToolDeclaration {
    pub name: String,
    pub description: String,
    pub parameters: Option<StructuredValue>,
}

/// The catalog's tool names, in declaration order.
pub open spec fn tool_names() -> Seq<Seq<char>> {
    seq![
        "read_file"@,
        "write_file"@,
        "list_files"@,
        "search_notes"@,
        "get_obsidian_vault_info"@,
        "add_reminder"@,
        "list_reminders"@,
        "search_web"@,
        "get_weather"@,
        "get_google_calendar_events"@,
        "get_unread_emails"@,
        "send_email"@,
        "create_calendar_event"@,
        "list_google_tasks"@,
        "create_google_task"@,
        "grep_file"@,
        "edit_file_line"@,
        "insert_at_line"@,
        "delete_file_line"@,
        "read_file_lines"@,
        "take_screenshot"@,
        "search_clipboard"@,
    ]
}

/// The catalog's tool descriptions, in the same order as `tool_names`.
pub open spec fn tool_descriptions() -> Seq<Seq<char>> {
    seq![
        "Reads the content of a local file (e.g., an Obsidian note or daily task list)."@,
        "Writes content to a local file. Use this for ticking tasks in daily notes OR updating vault content. Overwrites if it exists."@,
        "Lists files in a directory."@,
        "Searches for a keyword inside all markdown files in a directory."@,
        "Gets information about the configured Obsidian vault, including its root path."@,
        "Adds a reminder for the user."@,
        "Lists all active reminders."@,
        "Searches the web for a query (simulated)."@,
        "Gets the current weather for a location."@,
        "Lists Google Calendar events for a specific time range."@,
        "Lists recent emails from Gmail. Can filter by query (e.g. 'newer_than:1d', 'after:2026/01/20', 'from:person@example.com')."@,
        "Sends an email using Gmail."@,
        "Creates a new event in the user's primary Google Calendar. IMPORTANT: Use the current year and the user's timezone offset from the 'ISO' time provided in CONTEXT (e.g. '2026-01-20T14:00:00+01:00')."@,
        "Lists pending tasks from the user's default Google Tasks list (Official cloud-stored items). DO NOT use this for checking local Obsidian daily notes or Markdown tasks."@,
        "Creates a new official cloud-stored task in Google Tasks. DO NOT use this for updating local Obsidian files. IMPORTANT: For due dates, use the current year and offset from the 'ISO' time in CONTEXT."@,
        "Searches for a pattern in a file and returns matching lines with line numbers."@,
        "Replaces a specific line in a file by line number (1-indexed)."@,
        "Inserts a new line at a specific line number (1-indexed). Everything else shifts down."@,
        "Deletes a specific line from a file by line number (1-indexed)."@,
        "Reads a specific range of lines from a file (1-indexed). Use this to verify context before editing."@,
        "Captures a screenshot of the user's primary screen so you can 'see' what they are doing. Call this when they say 'look at my screen' or 'what am I doing'."@,
        "Searches the user's historical clipboard (copy history) for a keyword or recent items. Use this to find things they copied recently like links, snippets, or text."@,
    ]
}

/// The tools of the asynchronous class: they need the token lifecycle and
/// outbound HTTP (or a capture), and must never run under a local lock.
pub open spec fn spec_is_async_tool(name: Seq<char>) -> bool {
    ||| name == "get_weather"@
    ||| name == "get_google_calendar_events"@
    ||| name == "get_unread_emails"@
    ||| name == "send_email"@
    ||| name == "create_calendar_event"@
    ||| name == "list_google_tasks"@
    ||| name == "create_google_task"@
    ||| name == "take_screenshot"@
}

/// Routes a call name to its execution class.
pub fn is_async_tool(name: &str) -> (r: bool)
    ensures
        r == spec_is_async_tool(name@),
{
    str_eq(name, "get_weather") || str_eq(name, "get_google_calendar_events") || str_eq(
        name,
        "get_unread_emails",
    ) || str_eq(name, "send_email") || str_eq(name, "create_calendar_event") || str_eq(
        name,
        "list_google_tasks",
    ) || str_eq(name, "create_google_task") || str_eq(name, "take_screenshot")
}

/// A text value with the given content.
pub open spec fn is_text_value(v: StructuredValue, s: Seq<char>) -> bool {
    v matches StructuredValue::Text(t) && t@ == s
}

/// One schema property: its key, bound to an object giving the JSON type
/// and the description shown to the model.
pub open spec fn is_prop(
    f: (String, StructuredValue),
    name: Seq<char>,
    ty: Seq<char>,
    desc: Seq<char>,
) -> bool {
    f.0@ == name && (f.1 matches StructuredValue::Object(pf) && {
        &&& pf@.len() == 2
        &&& pf@[0].0@ == "type"@ && is_text_value(pf@[0].1, ty)
        &&& pf@[1].0@ == "description"@ && is_text_value(pf@[1].1, desc)
    })
}

/// A parameter schema with exactly the given properties and required
/// names: a `type: object` wrapper, the property list in order, and the
/// `required` array exactly when it is nonempty.
pub open spec fn schema_matches(
    v: StructuredValue,
    props: Seq<(Seq<char>, Seq<char>, Seq<char>)>,
    required: Seq<Seq<char>>,
) -> bool {
    v matches StructuredValue::Object(fs) && {
        &&& fs@.len() == (if required.len() == 0 { 2int } else { 3int })
        &&& fs@[0].0@ == "type"@ && is_text_value(fs@[0].1, "object"@)
        &&& fs@[1].0@ == "properties"@ && (fs@[1].1 matches StructuredValue::Object(pf) && {
            &&& pf@.len() == props.len()
            &&& forall|i: int| 0 <= i < props.len()
                ==> is_prop(#[trigger] pf@[i], props[i].0, props[i].1, props[i].2)
        })
        &&& (required.len() > 0 ==> fs@[2].0@ == "required"@ && (fs@[2].1
            matches StructuredValue::Array(ns) && {
            &&& ns@.len() == required.len()
            &&& forall|i: int| 0 <= i < required.len()
                ==> is_text_value(#[trigger] ns@[i], required[i])
        }))
    }
}

/// The parameter properties of each capability, in catalog order: each is
/// (property name, JSON type, description). The parameterless tools have
/// none.
pub open spec fn tool_schema_props() -> Seq<Seq<(Seq<char>, Seq<char>, Seq<char>)>> {
    seq![
        seq![("path"@, "string"@, "The absolute path to the local file."@),],
        seq![("path"@, "string"@, "The absolute path to the file."@), ("content"@, "string"@, "The content to write to the local file."@),],
        seq![("path"@, "string"@, "The absolute path to the directory."@),],
        seq![("path"@, "string"@, "The absolute path to the directory (usually the vault root)."@), ("query"@, "string"@, "The keyword to search for."@),],
        seq![],
        seq![("content"@, "string"@, "The reminder text."@), ("due_at"@, "string"@, "When the reminder is due (optional, e.g. '2026-01-20T10:00:00Z')."@),],
        seq![],
        seq![("query"@, "string"@, "The search query."@),],
        seq![("location"@, "string"@, "The city or location."@),],
        seq![("time_min"@, "string"@, "Start time in RFC3339 format (e.g. '2026-01-20T00:00:00Z')."@), ("time_max"@, "string"@, "End time in RFC3339 format."@),],
        seq![("max_results"@, "integer"@, "Maximum number of emails to fetch (default 5)."@), ("query"@, "string"@, "Gmail search query. For today's emails use 'newer_than:1d'. Default is 'is:unread inbox'."@),],
        seq![("to"@, "string"@, "Recipient email address."@), ("subject"@, "string"@, "Email subject."@), ("body"@, "string"@, "Email body content."@),],
        seq![("summary"@, "string"@, "Event title."@), ("description"@, "string"@, "Event description."@), ("start_time"@, "string"@, "Start time in RFC3339 format with offset (e.g. '2026-01-20T14:00:00+01:00')."@), ("end_time"@, "string"@, "End time in RFC3339 format with offset."@), ("location"@, "string"@, "Physical or virtual location."@),],
        seq![("max_results"@, "integer"@, "Maximum number of tasks to fetch (default 10)."@),],
        seq![("title"@, "string"@, "Task title."@), ("notes"@, "string"@, "Task notes/description."@), ("due"@, "string"@, "Due date in RFC3339 format with offset (e.g. '2026-01-20T23:59:59+01:00')."@),],
        seq![("path"@, "string"@, "Absolute path to the file."@), ("pattern"@, "string"@, "The string to search for (case-insensitive)."@),],
        seq![("path"@, "string"@, "Absolute path to the file."@), ("line_number"@, "integer"@, "The 1-based line number to replace."@), ("new_content"@, "string"@, "The new content for that line."@),],
        seq![("path"@, "string"@, "Absolute path to the file."@), ("line_number"@, "integer"@, "The 1-based line number to insert at."@), ("content"@, "string"@, "The content to insert."@),],
        seq![("path"@, "string"@, "Absolute path to the file."@), ("line_number"@, "integer"@, "The 1-based line number to delete."@),],
        seq![("path"@, "string"@, "Absolute path to the file."@), ("start_line"@, "integer"@, "The first line to read."@), ("end_line"@, "integer"@, "The last line to read."@),],
        seq![],
        seq![("query"@, "string"@, "The keyword to search for in clipboard history. Leave empty to get the most recent items."@), ("limit"@, "integer"@, "Maximum number of items to return (default 5)."@),],
    ]
}

/// The required property names of each capability, in catalog order.
pub open spec fn tool_required() -> Seq<Seq<Seq<char>>> {
    seq![
        seq!["path"@,],
        seq!["path"@, "content"@,],
        seq!["path"@,],
        seq!["path"@, "query"@,],
        seq![],
        seq!["content"@,],
        seq![],
        seq!["query"@,],
        seq!["location"@,],
        seq!["time_min"@, "time_max"@,],
        seq![],
        seq!["to"@, "subject"@, "body"@,],
        seq!["summary"@, "start_time"@, "end_time"@,],
        seq![],
        seq!["title"@,],
        seq!["path"@, "pattern"@,],
        seq!["path"@, "line_number"@, "new_content"@,],
        seq!["path"@, "line_number"@, "content"@,],
        seq!["path"@, "line_number"@,],
        seq!["path"@, "start_line"@, "end_line"@,],
        seq![],
        seq![],
    ]
}

/// Builds one string property of a parameter schema.
fn string_prop(name: &str, description: &str) -> (r: (String, StructuredValue))
    ensures
        is_prop(r, name@, "string"@, description@),
{
    let mut fields: Vec<(String, StructuredValue)> = Vec::new();
    fields.push(("type".to_owned(), StructuredValue::Text("string".to_owned())));
    fields.push(("description".to_owned(), StructuredValue::Text(description.to_owned())));
    (name.to_owned(), StructuredValue::Object(fields))
}

/// Builds one integer property of a parameter schema.
fn integer_prop(name: &str, description: &str) -> (r: (String, StructuredValue))
    ensures
        is_prop(r, name@, "integer"@, description@),
{
    let mut fields: Vec<(String, StructuredValue)> = Vec::new();
    fields.push(("type".to_owned(), StructuredValue::Text("integer".to_owned())));
    fields.push(("description".to_owned(), StructuredValue::Text(description.to_owned())));
    (name.to_owned(), StructuredValue::Object(fields))
}

/// Builds an object schema from properties and required property names.
fn object_schema(
    properties: Vec<(String, StructuredValue)>,
    required: Vec<String>,
) -> (r: StructuredValue)
    ensures
        r matches StructuredValue::Object(fs) && {
            &&& fs@.len() == (if required@.len() == 0 { 2int } else { 3int })
            &&& fs@[0].0@ == "type"@ && is_text_value(fs@[0].1, "object"@)
            &&& fs@[1].0@ == "properties"@ && fs@[1].1 == StructuredValue::Object(properties)
            &&& (required@.len() > 0 ==> fs@[2].0@ == "required"@ && (fs@[2].1
                matches StructuredValue::Array(ns) && {
                &&& ns@.len() == required@.len()
                &&& forall|i: int| 0 <= i < required@.len()
                    ==> #[trigger] ns@[i] == StructuredValue::Text(required@[i])
            }))
        },
{
    let ghost req0 = required@;
    let mut fields: Vec<(String, StructuredValue)> = Vec::new();
    fields.push(("type".to_owned(), StructuredValue::Text("object".to_owned())));
    fields.push(("properties".to_owned(), StructuredValue::Object(properties)));
    if required.len() > 0 {
        let mut names: Vec<StructuredValue> = Vec::new();
        let mut rest = required;
        proof {
            assert(rest@ =~= req0.skip(0));
        }
        while rest.len() > 0
            invariant
                names@.len() + rest@.len() == req0.len(),
                rest@ == req0.skip(names@.len() as int),
                forall|i: int| 0 <= i < names@.len()
                    ==> #[trigger] names@[i] == StructuredValue::Text(req0[i]),
            decreases rest@.len(),
        {
            let ghost k = names@.len() as int;
            let n = rest.remove(0);
            proof {
                assert(n == req0[k]);
                assert(rest@ =~= req0.skip(k + 1));
            }
            names.push(StructuredValue::Text(n));
        }
        fields.push(("required".to_owned(), StructuredValue::Array(names)));
    }
    StructuredValue::Object(fields)
}

/// Builds one declaration.
fn decl(name: &str, description: &str, parameters: Option<StructuredValue>) -> (r: ToolDeclaration)
    ensures
        r.name@ == name@,
        r.description@ == description@,
        r.parameters == parameters,
{
    ToolDeclaration { name: name.to_owned(), description: description.to_owned(), parameters }
}

/// The full catalog, in its fixed order: every name in `tool_names` and
/// every description in `tool_descriptions`, each exactly once, with a
/// parameter schema everywhere the capability takes arguments.
#[verifier::rlimit(100)]
pub fn get_tool_declarations() -> (r: Vec<ToolDeclaration>)
    ensures
        r@.len() == tool_names().len(),
        forall|i: int| 0 <= i < r@.len() ==> #[trigger] r@[i].name@ == tool_names()[i],
        forall|i: int| 0 <= i < r@.len() ==> #[trigger] r@[i].description@
            == tool_descriptions()[i],
        forall|i: int| 0 <= i < r@.len()
            ==> (#[trigger] r@[i].parameters is Some <==> !(i == 4 || i == 6 || i == 20)),
        forall|i: int| 0 <= i < r@.len() ==> (#[trigger] r@[i].parameters matches Some(s)
            ==> schema_matches(s, tool_schema_props()[i], tool_required()[i])),
{
    let mut out: Vec<ToolDeclaration> = Vec::new();

    let mut props: Vec<(String, StructuredValue)> = Vec::new();
    props.push(string_prop("path", "The absolute path to the local file."));
    let mut req: Vec<String> = Vec::new();
    req.push("path".to_owned());
    out.push(decl(
        "read_file",
        "Reads the content of a local file (e.g., an Obsidian note or daily task list).",
        Some(object_schema(props, req)),
    ));

    let mut props: Vec<(String, StructuredValue)> = Vec::new();
    props.push(string_prop("path", "The absolute path to the file."));
    props.push(string_prop("content", "The content to write to the local file."));
    let mut req: Vec<String> = Vec::new();
    req.push("path".to_owned());
    req.push("content".to_owned());
    out.push(decl(
        "write_file",
        "Writes content to a local file. Use this for ticking tasks in daily notes OR updating vault content. Overwrites if it exists.",
        Some(object_schema(props, req)),
    ));

    let mut props: Vec<(String, StructuredValue)> = Vec::new();
    props.push(string_prop("path", "The absolute path to the directory."));
    let mut req: Vec<String> = Vec::new();
    req.push("path".to_owned());
    out.push(decl("list_files", "Lists files in a directory.", Some(object_schema(props, req))));

    let mut props: Vec<(String, StructuredValue)> = Vec::new();
    props.push(string_prop("path", "The absolute path to the directory (usually the vault root)."));
    props.push(string_prop("query", "The keyword to search for."));
    let mut req: Vec<String> = Vec::new();
    req.push("path".to_owned());
    req.push("query".to_owned());
    out.push(decl(
        "search_notes",
        "Searches for a keyword inside all markdown files in a directory.",
        Some(object_schema(props, req)),
    ));

    out.push(decl(
        "get_obsidian_vault_info",
        "Gets information about the configured Obsidian vault, including its root path.",
        None,
    ));

    let mut props: Vec<(String, StructuredValue)> = Vec::new();
    props.push(string_prop("content", "The reminder text."));
    props.push(string_prop(
        "due_at",
        "When the reminder is due (optional, e.g. '2026-01-20T10:00:00Z').",
    ));
    let mut req: Vec<String> = Vec::new();
    req.push("content".to_owned());
    out.push(decl("add_reminder", "Adds a reminder for the user.", Some(object_schema(props, req))));

    out.push(decl("list_reminders", "Lists all active reminders.", None));

    let mut props: Vec<(String, StructuredValue)> = Vec::new();
    props.push(string_prop("query", "The search query."));
    let mut req: Vec<String> = Vec::new();
    req.push("query".to_owned());
    out.push(decl(
        "search_web",
        "Searches the web for a query (simulated).",
        Some(object_schema(props, req)),
    ));

    let mut props: Vec<(String, StructuredValue)> = Vec::new();
    props.push(string_prop("location", "The city or location."));
    let mut req: Vec<String> = Vec::new();
    req.push("location".to_owned());
    out.push(decl(
        "get_weather",
        "Gets the current weather for a location.",
        Some(object_schema(props, req)),
    ));

    let mut props: Vec<(String, StructuredValue)> = Vec::new();
    props.push(string_prop(
        "time_min",
        "Start time in RFC3339 format (e.g. '2026-01-20T00:00:00Z').",
    ));
    props.push(string_prop("time_max", "End time in RFC3339 format."));
    let mut req: Vec<String> = Vec::new();
    req.push("time_min".to_owned());
    req.push("time_max".to_owned());
    out.push(decl(
        "get_google_calendar_events",
        "Lists Google Calendar events for a specific time range.",
        Some(object_schema(props, req)),
    ));

    let mut props: Vec<(String, StructuredValue)> = Vec::new();
    props.push(integer_prop("max_results", "Maximum number of emails to fetch (default 5)."));
    props.push(string_prop(
        "query",
        "Gmail search query. For today's emails use 'newer_than:1d'. Default is 'is:unread inbox'.",
    ));
    out.push(decl(
        "get_unread_emails",
        "Lists recent emails from Gmail. Can filter by query (e.g. 'newer_than:1d', 'after:2026/01/20', 'from:person@example.com').",
        Some(object_schema(props, Vec::new())),
    ));

    let mut props: Vec<(String, StructuredValue)> = Vec::new();
    props.push(string_prop("to", "Recipient email address."));
    props.push(string_prop("subject", "Email subject."));
    props.push(string_prop("body", "Email body content."));
    let mut req: Vec<String> = Vec::new();
    req.push("to".to_owned());
    req.push("subject".to_owned());
    req.push("body".to_owned());
    out.push(decl("send_email", "Sends an email using Gmail.", Some(object_schema(props, req))));

    let mut props: Vec<(String, StructuredValue)> = Vec::new();
    props.push(string_prop("summary", "Event title."));
    props.push(string_prop("description", "Event description."));
    props.push(string_prop(
        "start_time",
        "Start time in RFC3339 format with offset (e.g. '2026-01-20T14:00:00+01:00').",
    ));
    props.push(string_prop("end_time", "End time in RFC3339 format with offset."));
    props.push(string_prop("location", "Physical or virtual location."));
    let mut req: Vec<String> = Vec::new();
    req.push("summary".to_owned());
    req.push("start_time".to_owned());
    req.push("end_time".to_owned());
    out.push(decl(
        "create_calendar_event",
        "Creates a new event in the user's primary Google Calendar. IMPORTANT: Use the current year and the user's timezone offset from the 'ISO' time provided in CONTEXT (e.g. '2026-01-20T14:00:00+01:00').",
        Some(object_schema(props, req)),
    ));

    let mut props: Vec<(String, StructuredValue)> = Vec::new();
    props.push(integer_prop("max_results", "Maximum number of tasks to fetch (default 10)."));
    out.push(decl(
        "list_google_tasks",
        "Lists pending tasks from the user's default Google Tasks list (Official cloud-stored items). DO NOT use this for checking local Obsidian daily notes or Markdown tasks.",
        Some(object_schema(props, Vec::new())),
    ));

    let mut props: Vec<(String, StructuredValue)> = Vec::new();
    props.push(string_prop("title", "Task title."));
    props.push(string_prop("notes", "Task notes/description."));
    props.push(string_prop(
        "due",
        "Due date in RFC3339 format with offset (e.g. '2026-01-20T23:59:59+01:00').",
    ));
    let mut req: Vec<String> = Vec::new();
    req.push("title".to_owned());
    out.push(decl(
        "create_google_task",
        "Creates a new official cloud-stored task in Google Tasks. DO NOT use this for updating local Obsidian files. IMPORTANT: For due dates, use the current year and offset from the 'ISO' time in CONTEXT.",
        Some(object_schema(props, req)),
    ));

    let mut props: Vec<(String, StructuredValue)> = Vec::new();
    props.push(string_prop("path", "Absolute path to the file."));
    props.push(string_prop("pattern", "The string to search for (case-insensitive)."));
    let mut req: Vec<String> = Vec::new();
    req.push("path".to_owned());
    req.push("pattern".to_owned());
    out.push(decl(
        "grep_file",
        "Searches for a pattern in a file and returns matching lines with line numbers.",
        Some(object_schema(props, req)),
    ));

    let mut props: Vec<(String, StructuredValue)> = Vec::new();
    props.push(string_prop("path", "Absolute path to the file."));
    props.push(integer_prop("line_number", "The 1-based line number to replace."));
    props.push(string_prop("new_content", "The new content for that line."));
    let mut req: Vec<String> = Vec::new();
    req.push("path".to_owned());
    req.push("line_number".to_owned());
    req.push("new_content".to_owned());
    out.push(decl(
        "edit_file_line",
        "Replaces a specific line in a file by line number (1-indexed).",
        Some(object_schema(props, req)),
    ));

    let mut props: Vec<(String, StructuredValue)> = Vec::new();
    props.push(string_prop("path", "Absolute path to the file."));
    props.push(integer_prop("line_number", "The 1-based line number to insert at."));
    props.push(string_prop("content", "The content to insert."));
    let mut req: Vec<String> = Vec::new();
    req.push("path".to_owned());
    req.push("line_number".to_owned());
    req.push("content".to_owned());
    out.push(decl(
        "insert_at_line",
        "Inserts a new line at a specific line number (1-indexed). Everything else shifts down.",
        Some(object_schema(props, req)),
    ));

    let mut props: Vec<(String, StructuredValue)> = Vec::new();
    props.push(string_prop("path", "Absolute path to the file."));
    props.push(integer_prop("line_number", "The 1-based line number to delete."));
    let mut req: Vec<String> = Vec::new();
    req.push("path".to_owned());
    req.push("line_number".to_owned());
    out.push(decl(
        "delete_file_line",
        "Deletes a specific line from a file by line number (1-indexed).",
        Some(object_schema(props, req)),
    ));

    let mut props: Vec<(String, StructuredValue)> = Vec::new();
    props.push(string_prop("path", "Absolute path to the file."));
    props.push(integer_prop("start_line", "The first line to read."));
    props.push(integer_prop("end_line", "The last line to read."));
    let mut req: Vec<String> = Vec::new();
    req.push("path".to_owned());
    req.push("start_line".to_owned());
    req.push("end_line".to_owned());
    out.push(decl(
        "read_file_lines",
        "Reads a specific range of lines from a file (1-indexed). Use this to verify context before editing.",
        Some(object_schema(props, req)),
    ));

    out.push(decl(
        "take_screenshot",
        "Captures a screenshot of the user's primary screen so you can 'see' what they are doing. Call this when they say 'look at my screen' or 'what am I doing'.",
        None,
    ));

    let mut props: Vec<(String, StructuredValue)> = Vec::new();
    props.push(string_prop(
        "query",
        "The keyword to search for in clipboard history. Leave empty to get the most recent items.",
    ));
    props.push(integer_prop("limit", "Maximum number of items to return (default 5)."));
    out.push(decl(
        "search_clipboard",
        "Searches the user's historical clipboard (copy history) for a keyword or recent items. Use this to find things they copied recently like links, snippets, or text.",
        Some(object_schema(props, Vec::new())),
    ));

    out
}

} // verus!
