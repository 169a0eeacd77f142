//! The chat command surface: the request and response shapes, and the
//! context block assembled from the user's current digital state.

use vstd::prelude::*;
use crate::records::{ChatMessage, CalendarEvent};

verus! {

/// A chat message as the interface shows it.
pub struct ChatMessageResponse {
    pub id: Option<i64>,
    pub role: String,
    pub content: String,
    pub image_data: Option<String>,
    pub created_at: String,
}

/// A request to send one chat message.
pub struct SendMessageRequest {
    pub message: String,
    pub session_id: Option<String>,
    pub base64_image: Option<String>,
}

/// The two messages a send produces: the user's and the assistant's.
pub struct SendMessageResponse {
    pub user_message: ChatMessageResponse,
    pub assistant_message: ChatMessageResponse,
}

/// Shapes a stored message row for the interface.
pub fn message_to_response(m: ChatMessage) -> (r: ChatMessageResponse)
    ensures
        r.id == m.id,
        r.role == m.role,
        r.content == m.content,
        r.image_data == m.image_data,
        r.created_at == m.created_at,
{
    ChatMessageResponse {
        id: m.id,
        role: m.role,
        content: m.content,
        image_data: m.image_data,
        created_at: m.created_at,
    }
}

/// The status word for an integration in the context block.
pub open spec fn spec_status_word(enabled: bool) -> Seq<char> {
    if enabled {
        "ENABLED"@
    } else {
        "DISABLED"@
    }
}

/// The calendar lines of the context block, one `- title at start` line
/// per event.
pub open spec fn spec_event_lines(events: Seq<CalendarEvent>) -> Seq<char>
    decreases events.len(),
{
    if events.len() == 0 {
        Seq::<char>::empty()
    } else {
        "- "@ + events[0].title@ + " at "@ + events[0].start_time@ + "\n"@ + spec_event_lines(
            events.drop_first(),
        )
    }
}

/// The whole context block: the date line, the optional user name, the
/// technical timestamp, the integration status, and — when enabled and
/// available — today's cached events and the daily note.
pub open spec fn spec_chat_context(
    today_str: Seq<char>,
    current_time: Seq<char>,
    iso_now: Seq<char>,
    display_name: Option<Seq<char>>,
    google_enabled: bool,
    obsidian_enabled: bool,
    events: Seq<CalendarEvent>,
    note: Option<(Seq<char>, Seq<char>, Seq<char>)>,
) -> Seq<char> {
    "Today: "@ + today_str + " at "@ + current_time + "\n\n"@ + (match display_name {
        Some(n) => "User Name: "@ + n + "\n\n"@,
        None => Seq::<char>::empty(),
    }) + "\n[TECHNICAL CONTEXT]\nISO_NOW: "@ + iso_now + "\n\n"@
        + "--- INTEGRATION STATUS ---\nGoogle Services: "@ + spec_status_word(google_enabled)
        + "\nObsidian: "@ + spec_status_word(obsidian_enabled)
        + "\n--------------------------"@ + (if google_enabled && events.len() > 0 {
        "\n\n"@ + "Today's calendar events:\n"@ + spec_event_lines(events)
    } else {
        Seq::<char>::empty()
    }) + (match note {
        Some((name, path, content)) => if obsidian_enabled {
            "\n\n"@ + "Today's daily note (NAME: "@ + name + ", PATH: "@ + path + "):\n"@
                + content
        } else {
            Seq::<char>::empty()
        },
        None => Seq::<char>::empty(),
    })
}

/// Builds the context block handed to the model with every chat request.
#[verifier::loop_isolation(false)]
#[verifier::rlimit(80)]
pub fn build_chat_context(
    today_str: &str,
    current_time: &str,
    iso_now: &str,
    display_name: Option<&str>,
    google_enabled: bool,
    obsidian_enabled: bool,
    events: &Vec<CalendarEvent>,
    note: Option<(&str, &str, &str)>,
) -> (r: String)
    ensures
        r@ == spec_chat_context(
            today_str@,
            current_time@,
            iso_now@,
            match display_name {
                Some(n) => Some(n@),
                None => None,
            },
            google_enabled,
            obsidian_enabled,
            events@,
            match note {
                Some((n, p, c)) => Some((n@, p@, c@)),
                None => None,
            },
        ),
{
    let mut out = "Today: ".to_owned();
    out.append(today_str);
    out.append(" at ");
    out.append(current_time);
    out.append("\n\n");
    match display_name {
        Some(n) => {
            out.append("User Name: ");
            out.append(n);
            out.append("\n\n");
        },
        None => {},
    }
    out.append("\n[TECHNICAL CONTEXT]\nISO_NOW: ");
    out.append(iso_now);
    out.append("\n\n");
    out.append("--- INTEGRATION STATUS ---\nGoogle Services: ");
    out.append(if google_enabled { "ENABLED" } else { "DISABLED" });
    out.append("\nObsidian: ");
    out.append(if obsidian_enabled { "ENABLED" } else { "DISABLED" });
    out.append("\n--------------------------");
    if google_enabled && events.len() > 0 {
        out.append("\n\n");
        out.append("Today's calendar events:\n");
        let ghost prefix = out@;
        let mut i: usize = 0;
        proof {
            assert(events@.skip(0) =~= events@);
        }
        while i < events.len()
            invariant
                i <= events@.len(),
                prefix + spec_event_lines(events@) == out@ + spec_event_lines(
                    events@.skip(i as int),
                ),
            decreases events@.len() - i,
        {
            proof {
                assert(events@.skip(i as int)[0] == events@[i as int]);
                assert(events@.skip(i as int).drop_first() =~= events@.skip(i + 1));
            }
            out.append("- ");
            out.append(events[i].title.as_str());
            out.append(" at ");
            out.append(events[i].start_time.as_str());
            out.append("\n");
            i = i + 1;
        }
        proof {
            assert(events@.skip(i as int) =~= Seq::<CalendarEvent>::empty());
            assert(out@ =~= prefix + spec_event_lines(events@));
        }
    }
    match note {
        Some((name, path, content)) => {
            if obsidian_enabled {
                out.append("\n\n");
                out.append("Today's daily note (NAME: ");
                out.append(name);
                out.append(", PATH: ");
                out.append(path);
                out.append("):\n");
                out.append(content);
            }
        },
        None => {},
    }
    proof {
        assert(out@ =~= spec_chat_context(
            today_str@,
            current_time@,
            iso_now@,
            match display_name {
                Some(n) => Some(n@),
                None => None,
            },
            google_enabled,
            obsidian_enabled,
            events@,
            match note {
                Some((n, p, c)) => Some((n@, p@, c@)),
                None => None,
            },
        ));
    }
    out
}

} // verus!
