//! Google Calendar integration, value side: the request parameters, the
//! event creation body, and the reading of events out of response values.

use vstd::prelude::*;
use crate::value::{StructuredValue, obj_lookup, spec_items_array};
use crate::dispatch::{spec_text_arg, spec_opt_text_arg, text_arg, opt_text_arg};

verus! {

/// A calendar timestamp: either a timed `dateTime` or an all-day `date`.
pub struct GoogleDateTime {
    pub date_time: Option<String>,
    pub date: Option<String>,
}

/// One calendar event, reduced to the fields the engine reads.
pub struct GoogleCalendarEvent {
    pub id: String,
    pub summary: Option<String>,
    pub description: Option<String>,
    pub start: GoogleDateTime,
    pub end: GoogleDateTime,
    pub location: Option<String>,
}

/// The events endpoint of the primary calendar.
pub fn calendar_events_url() -> (r: &'static str)
    ensures
        r@ == "https://www.googleapis.com/calendar/v3/calendars/primary/events"@,
{
    "https://www.googleapis.com/calendar/v3/calendars/primary/events"
}

/// Builds the creation body for a new event: summary, optional description
/// and location, and the two timestamps wrapped as `dateTime` objects.
pub fn build_event_body(
    summary: String,
    description: Option<String>,
    start_time: String,
    end_time: String,
    location: Option<String>,
) -> (r: StructuredValue)
    ensures
        r matches StructuredValue::Object(fs) && {
            &&& fs@.len() == 5
            &&& fs@[0].0@ == "summary"@ && fs@[0].1 == StructuredValue::Text(summary)
            &&& fs@[1].0@ == "description"@ && (match description {
                Some(d) => fs@[1].1 == StructuredValue::Text(d),
                None => fs@[1].1 is Null,
            })
            &&& fs@[2].0@ == "location"@ && (match location {
                Some(l) => fs@[2].1 == StructuredValue::Text(l),
                None => fs@[2].1 is Null,
            })
            &&& fs@[3].0@ == "start"@ && (fs@[3].1 matches StructuredValue::Object(st)
                && st@.len() == 1 && st@[0].0@ == "dateTime"@ && st@[0].1
                == StructuredValue::Text(start_time))
            &&& fs@[4].0@ == "end"@ && (fs@[4].1 matches StructuredValue::Object(en)
                && en@.len() == 1 && en@[0].0@ == "dateTime"@ && en@[0].1
                == StructuredValue::Text(end_time))
        },
{
    let mut fields: Vec<(String, StructuredValue)> = Vec::new();
    fields.push(("summary".to_owned(), StructuredValue::Text(summary)));
    let desc_value = match description {
        Some(d) => StructuredValue::Text(d),
        None => StructuredValue::Null,
    };
    fields.push(("description".to_owned(), desc_value));
    let loc_value = match location {
        Some(l) => StructuredValue::Text(l),
        None => StructuredValue::Null,
    };
    fields.push(("location".to_owned(), loc_value));
    let mut start_fields: Vec<(String, StructuredValue)> = Vec::new();
    start_fields.push(("dateTime".to_owned(), StructuredValue::Text(start_time)));
    fields.push(("start".to_owned(), StructuredValue::Object(start_fields)));
    let mut end_fields: Vec<(String, StructuredValue)> = Vec::new();
    end_fields.push(("dateTime".to_owned(), StructuredValue::Text(end_time)));
    fields.push(("end".to_owned(), StructuredValue::Object(end_fields)));
    StructuredValue::Object(fields)
}

/// The value bound to `sub_key` inside the sub-object at `key`, when both
/// exist as texts: how an event's `start`/`end` timestamps are nested.
pub open spec fn spec_nested_text(
    item: StructuredValue,
    key: Seq<char>,
    sub_key: Seq<char>,
) -> Option<Seq<char>> {
    if item matches StructuredValue::Object(fs) && (obj_lookup(fs@, key) matches Some(sub)
        && spec_opt_text_arg(sub, sub_key) is Some) {
        spec_opt_text_arg(obj_lookup(item->Object_0@, key)->Some_0, sub_key)
    } else {
        None
    }
}

/// How an extracted event relates to its response value: the id is the
/// `id` text, and each other field — including the timed and all-day
/// timestamps of `start` and `end` — reads from the matching key, present
/// exactly when the response carries it.
pub open spec fn event_matches(item: StructuredValue, e: GoogleCalendarEvent) -> bool {
    &&& spec_opt_text_arg(item, "id"@) == Some(e.id@)
    &&& (match e.summary {
        Some(s) => spec_opt_text_arg(item, "summary"@) == Some(s@),
        None => spec_opt_text_arg(item, "summary"@) is None,
    })
    &&& (match e.description {
        Some(s) => spec_opt_text_arg(item, "description"@) == Some(s@),
        None => spec_opt_text_arg(item, "description"@) is None,
    })
    &&& (match e.location {
        Some(s) => spec_opt_text_arg(item, "location"@) == Some(s@),
        None => spec_opt_text_arg(item, "location"@) is None,
    })
    &&& (match e.start.date_time {
        Some(s) => spec_nested_text(item, "start"@, "dateTime"@) == Some(s@),
        None => spec_nested_text(item, "start"@, "dateTime"@) is None,
    })
    &&& (match e.start.date {
        Some(s) => spec_nested_text(item, "start"@, "date"@) == Some(s@),
        None => spec_nested_text(item, "start"@, "date"@) is None,
    })
    &&& (match e.end.date_time {
        Some(s) => spec_nested_text(item, "end"@, "dateTime"@) == Some(s@),
        None => spec_nested_text(item, "end"@, "dateTime"@) is None,
    })
    &&& (match e.end.date {
        Some(s) => spec_nested_text(item, "end"@, "date"@) == Some(s@),
        None => spec_nested_text(item, "end"@, "date"@) is None,
    })
}

/// Reads one event out of a response item; refused when the item has no
/// text `id`.
pub fn extract_calendar_event(item: &StructuredValue) -> (r: Option<GoogleCalendarEvent>)
    ensures
        r is Some <==> spec_opt_text_arg(*item, "id"@) is Some,
        r matches Some(e) ==> event_matches(*item, e),
{
    let id = match opt_text_arg(item, "id") {
        Some(id) => id,
        None => {
            return None;
        },
    };
    let summary = opt_text_arg(item, "summary");
    let description = opt_text_arg(item, "description");
    let location = opt_text_arg(item, "location");
    let start = extract_date_time(item, "start");
    let end = extract_date_time(item, "end");
    Some(GoogleCalendarEvent { id, summary, description, start, end, location })
}

/// Reads a `dateTime`/`date` pair out of the named sub-object; each is
/// present exactly when the response nests that text.
fn extract_date_time(item: &StructuredValue, key: &str) -> (r: GoogleDateTime)
    ensures
        match r.date_time {
            Some(s) => spec_nested_text(*item, key@, "dateTime"@) == Some(s@),
            None => spec_nested_text(*item, key@, "dateTime"@) is None,
        },
        match r.date {
            Some(s) => spec_nested_text(*item, key@, "date"@) == Some(s@),
            None => spec_nested_text(*item, key@, "date"@) is None,
        },
{
    match item.get_field(key) {
        Some(sub) => GoogleDateTime {
            date_time: opt_text_arg(sub, "dateTime"),
            date: opt_text_arg(sub, "date"),
        },
        None => GoogleDateTime { date_time: None, date: None },
    }
}

/// Reads the `items` list of an events response. Succeeds exactly when the
/// list is present and every item carries a text id; otherwise the
/// response is malformed and refused.
#[verifier::loop_isolation(false)]
pub fn extract_calendar_events(data: &StructuredValue) -> (r: Option<Vec<GoogleCalendarEvent>>)
    ensures
        r is Some <==> (spec_items_array(*data) matches Some(items) && forall|i: int|
            0 <= i < items.len() ==> #[trigger] spec_opt_text_arg(items[i], "id"@) is Some),
        r matches Some(events) ==> {
            let items = spec_items_array(*data)->Some_0;
            &&& events@.len() == items.len()
            &&& forall|i: int| 0 <= i < events@.len()
                ==> event_matches(items[i], #[trigger] events@[i])
        },
{
    let items = match data.get_field("items") {
        Some(v) => match v {
            StructuredValue::Array(items) => items,
            _ => {
                return None;
            },
        },
        None => {
            return None;
        },
    };
    let mut out: Vec<GoogleCalendarEvent> = Vec::new();
    let mut i: usize = 0;
    while i < items.len()
        invariant
            i <= items@.len(),
            out@.len() == i,
            forall|j: int| 0 <= j < i ==> event_matches(items@[j], #[trigger] out@[j]),
        decreases items@.len() - i,
    {
        match extract_calendar_event(&items[i]) {
            Some(e) => {
                out.push(e);
            },
            None => {
                return None;
            },
        }
        i = i + 1;
    }
    proof {
        assert forall|i: int| 0 <= i < items@.len()
            implies #[trigger] spec_opt_text_arg(items@[i], "id"@) is Some by {
            assert(event_matches(items@[i], out@[i]));
        }
    }
    Some(out)
}

} // verus!
