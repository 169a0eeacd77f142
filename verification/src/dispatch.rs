//! The tool dispatcher's decision core: each incoming call is routed by
//! name into a typed operation with its arguments read and defaulted the
//! way the capability defines, and an unknown name becomes a structured
//! error response, never a crash.

use vstd::prelude::*;
use crate::value::{StructuredValue, obj_lookup, object_with_one};
use crate::encoding::str_eq;

verus! {

/// The text bound to `key` in the argument object, or the default.
pub open spec fn spec_text_arg(args: StructuredValue, key: Seq<char>, default: Seq<char>) -> Seq<
    char,
> {
    if args matches StructuredValue::Object(fs)
        && (obj_lookup(fs@, key) matches Some(v) && v is Text) {
        obj_lookup(args->Object_0@, key)->Some_0->Text_0@
    } else {
        default
    }
}

/// The text bound to `key`, when present as text.
pub open spec fn spec_opt_text_arg(args: StructuredValue, key: Seq<char>) -> Option<Seq<char>> {
    if args matches StructuredValue::Object(fs)
        && (obj_lookup(fs@, key) matches Some(v) && v is Text) {
        Some(obj_lookup(args->Object_0@, key)->Some_0->Text_0@)
    } else {
        None
    }
}

/// The integer bound to `key`, or the default.
pub open spec fn spec_int_arg(args: StructuredValue, key: Seq<char>, default: i64) -> i64 {
    if args matches StructuredValue::Object(fs)
        && (obj_lookup(fs@, key) matches Some(v) && v is Int) {
        obj_lookup(args->Object_0@, key)->Some_0->Int_0
    } else {
        default
    }
}

/// Reads a text argument with a default.
pub fn text_arg(args: &StructuredValue, key: &str, default: &str) -> (r: String)
    ensures
        r@ == spec_text_arg(*args, key@, default@),
{
    match args.get_field(key) {
        Some(v) => match v {
            StructuredValue::Text(t) => t.clone(),
            _ => default.to_owned(),
        },
        None => default.to_owned(),
    }
}

/// Reads a text argument, absent when missing or not text.
pub fn opt_text_arg(args: &StructuredValue, key: &str) -> (r: Option<String>)
    ensures
        match r {
            Some(s) => spec_opt_text_arg(*args, key@) == Some(s@),
            None => spec_opt_text_arg(*args, key@) is None,
        },
{
    match args.get_field(key) {
        Some(v) => match v {
            StructuredValue::Text(t) => Some(t.clone()),
            _ => None,
        },
        None => None,
    }
}

/// Reads an integer argument with a default.
pub fn int_arg(args: &StructuredValue, key: &str, default: i64) -> (r: i64)
    ensures
        r == spec_int_arg(*args, key@, default),
{
    match args.get_field(key) {
        Some(v) => match v {
            StructuredValue::Int(n) => *n,
            _ => default,
        },
        None => default,
    }
}

/// A synchronous (local) operation, with its arguments read out.
pub enum SyncToolOp {
    ReadFile { path: String },
    WriteFile { path: String, content: String },
    ListFiles { path: String },
    SearchNotes { path: String, query: String },
    VaultInfo,
    AddReminder { content: String, due_at: Option<String> },
    ListReminders,
    SearchWeb { query: String },
    GrepFile { path: String, pattern: String },
    EditFileLine { path: String, line_number: i64, new_content: String },
    InsertAtLine { path: String, line_number: i64, content: String },
    DeleteFileLine { path: String, line_number: i64 },
    ReadFileLines { path: String, start_line: i64, end_line: i64 },
    SearchClipboard { query: String, limit: i64 },
}

/// An asynchronous (networked) operation, with its arguments read out.
pub enum AsyncToolOp {
    GetWeather { location: String },
    GetCalendarEvents { time_min: String, time_max: String },
    GetUnreadEmails { max_results: i64, query: Option<String> },
    SendEmail { to: String, subject: String, body: String },
    CreateCalendarEvent {
        summary: String,
        description: Option<String>,
        start_time: String,
        end_time: String,
        location: Option<String>,
    },
    ListTasks { max_results: i64 },
    CreateTask { title: String, notes: Option<String>, due: Option<String> },
    TakeScreenshot,
}

/// The synchronous tool names.
pub open spec fn spec_is_sync_tool(name: Seq<char>) -> bool {
    ||| name == "read_file"@
    ||| name == "write_file"@
    ||| name == "list_files"@
    ||| name == "search_notes"@
    ||| name == "get_obsidian_vault_info"@
    ||| name == "add_reminder"@
    ||| name == "list_reminders"@
    ||| name == "search_web"@
    ||| name == "grep_file"@
    ||| name == "edit_file_line"@
    ||| name == "insert_at_line"@
    ||| name == "delete_file_line"@
    ||| name == "read_file_lines"@
    ||| name == "search_clipboard"@
}

/// Routes a synchronous call to its typed operation; an unknown name is
/// refused (the caller folds it back as a structured error).
pub fn parse_sync_tool(name: &str, args: &StructuredValue) -> (r: Option<SyncToolOp>)
    ensures
        r is Some <==> spec_is_sync_tool(name@),
        r matches Some(op) ==> match op {
            SyncToolOp::ReadFile { path } => name@ == "read_file"@ && path@ == spec_text_arg(
                *args, "path"@, ""@),
            SyncToolOp::WriteFile { path, content } => name@ == "write_file"@ && path@
                == spec_text_arg(*args, "path"@, ""@) && content@ == spec_text_arg(
                *args, "content"@, ""@),
            SyncToolOp::ListFiles { path } => name@ == "list_files"@ && path@ == spec_text_arg(
                *args, "path"@, "."@),
            SyncToolOp::SearchNotes { path, query } => name@ == "search_notes"@ && path@
                == spec_text_arg(*args, "path"@, ""@) && query@ == spec_text_arg(
                *args, "query"@, ""@),
            SyncToolOp::VaultInfo => name@ == "get_obsidian_vault_info"@,
            SyncToolOp::AddReminder { content, due_at } => name@ == "add_reminder"@ && content@
                == spec_text_arg(*args, "content"@, ""@) && (match due_at {
                Some(d) => spec_opt_text_arg(*args, "due_at"@) == Some(d@),
                None => spec_opt_text_arg(*args, "due_at"@) is None,
            }),
            SyncToolOp::ListReminders => name@ == "list_reminders"@,
            SyncToolOp::SearchWeb { query } => name@ == "search_web"@ && query@ == spec_text_arg(
                *args, "query"@, ""@),
            SyncToolOp::GrepFile { path, pattern } => name@ == "grep_file"@ && path@
                == spec_text_arg(*args, "path"@, ""@) && pattern@ == spec_text_arg(
                *args, "pattern"@, ""@),
            SyncToolOp::EditFileLine { path, line_number, new_content } => name@
                == "edit_file_line"@ && path@ == spec_text_arg(*args, "path"@, ""@)
                && line_number == spec_int_arg(*args, "line_number"@, 0) && new_content@
                == spec_text_arg(*args, "new_content"@, ""@),
            SyncToolOp::InsertAtLine { path, line_number, content } => name@ == "insert_at_line"@
                && path@ == spec_text_arg(*args, "path"@, ""@) && line_number == spec_int_arg(
                *args, "line_number"@, 0) && content@ == spec_text_arg(*args, "content"@, ""@),
            SyncToolOp::DeleteFileLine { path, line_number } => name@ == "delete_file_line"@
                && path@ == spec_text_arg(*args, "path"@, ""@) && line_number == spec_int_arg(
                *args, "line_number"@, 0),
            SyncToolOp::ReadFileLines { path, start_line, end_line } => name@
                == "read_file_lines"@ && path@ == spec_text_arg(*args, "path"@, ""@)
                && start_line == spec_int_arg(*args, "start_line"@, 1) && end_line
                == spec_int_arg(*args, "end_line"@, 1),
            SyncToolOp::SearchClipboard { query, limit } => name@ == "search_clipboard"@ && query@
                == spec_text_arg(*args, "query"@, ""@) && limit == spec_int_arg(
                *args, "limit"@, 5),
        },
{
    let is_read_file = str_eq(name, "read_file");
    let is_write_file = str_eq(name, "write_file");
    let is_list_files = str_eq(name, "list_files");
    let is_search_notes = str_eq(name, "search_notes");
    let is_get_obsidian_vault_info = str_eq(name, "get_obsidian_vault_info");
    let is_add_reminder = str_eq(name, "add_reminder");
    let is_list_reminders = str_eq(name, "list_reminders");
    let is_search_web = str_eq(name, "search_web");
    let is_grep_file = str_eq(name, "grep_file");
    let is_edit_file_line = str_eq(name, "edit_file_line");
    let is_insert_at_line = str_eq(name, "insert_at_line");
    let is_delete_file_line = str_eq(name, "delete_file_line");
    let is_read_file_lines = str_eq(name, "read_file_lines");
    let is_search_clipboard = str_eq(name, "search_clipboard");
    if is_read_file {
        Some(SyncToolOp::ReadFile { path: text_arg(args, "path", "") })
    } else if is_write_file {
        Some(SyncToolOp::WriteFile {
            path: text_arg(args, "path", ""),
            content: text_arg(args, "content", ""),
        })
    } else if is_list_files {
        Some(SyncToolOp::ListFiles { path: text_arg(args, "path", ".") })
    } else if is_search_notes {
        Some(SyncToolOp::SearchNotes {
            path: text_arg(args, "path", ""),
            query: text_arg(args, "query", ""),
        })
    } else if is_get_obsidian_vault_info {
        Some(SyncToolOp::VaultInfo)
    } else if is_add_reminder {
        Some(SyncToolOp::AddReminder {
            content: text_arg(args, "content", ""),
            due_at: opt_text_arg(args, "due_at"),
        })
    } else if is_list_reminders {
        Some(SyncToolOp::ListReminders)
    } else if is_search_web {
        Some(SyncToolOp::SearchWeb { query: text_arg(args, "query", "") })
    } else if is_grep_file {
        Some(SyncToolOp::GrepFile {
            path: text_arg(args, "path", ""),
            pattern: text_arg(args, "pattern", ""),
        })
    } else if is_edit_file_line {
        Some(SyncToolOp::EditFileLine {
            path: text_arg(args, "path", ""),
            line_number: int_arg(args, "line_number", 0),
            new_content: text_arg(args, "new_content", ""),
        })
    } else if is_insert_at_line {
        Some(SyncToolOp::InsertAtLine {
            path: text_arg(args, "path", ""),
            line_number: int_arg(args, "line_number", 0),
            content: text_arg(args, "content", ""),
        })
    } else if is_delete_file_line {
        Some(SyncToolOp::DeleteFileLine {
            path: text_arg(args, "path", ""),
            line_number: int_arg(args, "line_number", 0),
        })
    } else if is_read_file_lines {
        Some(SyncToolOp::ReadFileLines {
            path: text_arg(args, "path", ""),
            start_line: int_arg(args, "start_line", 1),
            end_line: int_arg(args, "end_line", 1),
        })
    } else if is_search_clipboard {
        Some(SyncToolOp::SearchClipboard {
            query: text_arg(args, "query", ""),
            limit: int_arg(args, "limit", 5),
        })
    } else {
        None
    }
}

/// Routes an asynchronous call to its typed operation; an unknown name is
/// refused.
pub fn parse_async_tool(name: &str, args: &StructuredValue) -> (r: Option<AsyncToolOp>)
    ensures
        r is Some <==> crate::catalog::spec_is_async_tool(name@),
        r matches Some(op) ==> match op {
            AsyncToolOp::GetWeather { location } => name@ == "get_weather"@ && location@
                == spec_text_arg(*args, "location"@, "Lagos"@),
            AsyncToolOp::GetCalendarEvents { time_min, time_max } => name@
                == "get_google_calendar_events"@ && time_min@ == spec_text_arg(
                *args, "time_min"@, ""@) && time_max@ == spec_text_arg(*args, "time_max"@, ""@),
            AsyncToolOp::GetUnreadEmails { max_results, query } => name@ == "get_unread_emails"@
                && max_results == spec_int_arg(*args, "max_results"@, 5) && (match query {
                Some(q) => spec_opt_text_arg(*args, "query"@) == Some(q@),
                None => spec_opt_text_arg(*args, "query"@) is None,
            }),
            AsyncToolOp::SendEmail { to, subject, body } => name@ == "send_email"@ && to@
                == spec_text_arg(*args, "to"@, ""@) && subject@ == spec_text_arg(
                *args, "subject"@, ""@) && body@ == spec_text_arg(*args, "body"@, ""@),
            AsyncToolOp::CreateCalendarEvent { summary, description, start_time, end_time, location } => name@
                == "create_calendar_event"@ && summary@ == spec_text_arg(*args, "summary"@, ""@)
                && start_time@ == spec_text_arg(*args, "start_time"@, ""@) && end_time@
                == spec_text_arg(*args, "end_time"@, ""@) && (match description {
                Some(d) => spec_opt_text_arg(*args, "description"@) == Some(d@),
                None => spec_opt_text_arg(*args, "description"@) is None,
            }) && (match location {
                Some(l) => spec_opt_text_arg(*args, "location"@) == Some(l@),
                None => spec_opt_text_arg(*args, "location"@) is None,
            }),
            AsyncToolOp::ListTasks { max_results } => name@ == "list_google_tasks"@ && max_results
                == spec_int_arg(*args, "max_results"@, 10),
            AsyncToolOp::CreateTask { title, notes, due } => name@ == "create_google_task"@
                && title@ == spec_text_arg(*args, "title"@, ""@) && (match notes {
                Some(n) => spec_opt_text_arg(*args, "notes"@) == Some(n@),
                None => spec_opt_text_arg(*args, "notes"@) is None,
            }) && (match due {
                Some(d) => spec_opt_text_arg(*args, "due"@) == Some(d@),
                None => spec_opt_text_arg(*args, "due"@) is None,
            }),
            AsyncToolOp::TakeScreenshot => name@ == "take_screenshot"@,
        },
{
    let is_get_weather = str_eq(name, "get_weather");
    let is_get_google_calendar_events = str_eq(name, "get_google_calendar_events");
    let is_get_unread_emails = str_eq(name, "get_unread_emails");
    let is_send_email = str_eq(name, "send_email");
    let is_create_calendar_event = str_eq(name, "create_calendar_event");
    let is_list_google_tasks = str_eq(name, "list_google_tasks");
    let is_create_google_task = str_eq(name, "create_google_task");
    let is_take_screenshot = str_eq(name, "take_screenshot");
    if is_get_weather {
        Some(AsyncToolOp::GetWeather { location: text_arg(args, "location", "Lagos") })
    } else if is_get_google_calendar_events {
        Some(AsyncToolOp::GetCalendarEvents {
            time_min: text_arg(args, "time_min", ""),
            time_max: text_arg(args, "time_max", ""),
        })
    } else if is_get_unread_emails {
        Some(AsyncToolOp::GetUnreadEmails {
            max_results: int_arg(args, "max_results", 5),
            query: opt_text_arg(args, "query"),
        })
    } else if is_send_email {
        Some(AsyncToolOp::SendEmail {
            to: text_arg(args, "to", ""),
            subject: text_arg(args, "subject", ""),
            body: text_arg(args, "body", ""),
        })
    } else if is_create_calendar_event {
        Some(AsyncToolOp::CreateCalendarEvent {
            summary: text_arg(args, "summary", ""),
            description: opt_text_arg(args, "description"),
            start_time: text_arg(args, "start_time", ""),
            end_time: text_arg(args, "end_time", ""),
            location: opt_text_arg(args, "location"),
        })
    } else if is_list_google_tasks {
        Some(AsyncToolOp::ListTasks { max_results: int_arg(args, "max_results", 10) })
    } else if is_create_google_task {
        Some(AsyncToolOp::CreateTask {
            title: text_arg(args, "title", ""),
            notes: opt_text_arg(args, "notes"),
            due: opt_text_arg(args, "due"),
        })
    } else if is_take_screenshot {
        Some(AsyncToolOp::TakeScreenshot)
    } else {
        None
    }
}

/// The structured error for an unknown tool name: an object binding
/// `error` to `unknown tool: <name>`. The orchestrator folds it back to
/// the model like any other tool failure; an unknown name never crashes.
pub fn unknown_tool_error(name: &str) -> (r: StructuredValue)
    ensures
        r matches StructuredValue::Object(fs) && fs@.len() == 1 && fs@[0].0@ == "error"@ && (
        fs@[0].1 matches StructuredValue::Text(m) && m@ == "unknown tool: "@ + name@),
{
    let mut msg = "unknown tool: ".to_owned();
    msg.append(name);
    object_with_one("error".to_owned(), StructuredValue::Text(msg))
}

} // verus!
