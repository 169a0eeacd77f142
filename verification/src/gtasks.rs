//! Google Tasks integration, value side: the request URLs, the creation
//! body, and the reading of tasks out of response values.

use vstd::prelude::*;
use crate::encoding::{ascii_chars, ascii_to_string, dec_digits, dec_digits_value, format_u64};
use crate::value::{StructuredValue, obj_lookup, spec_items_array};
use crate::dispatch::{spec_text_arg, spec_opt_text_arg, text_arg, opt_text_arg};

verus! {

/// One task, reduced to the fields the engine reads.
pub struct GoogleTask {
    pub id: String,
    pub title: String,
    pub notes: Option<String>,
    pub status: String,
    pub due: Option<String>,
}

/// The endpoint listing the user's task lists.
pub fn tasklists_url() -> (r: &'static str)
    ensures
        r@ == "https://tasks.googleapis.com/tasks/v1/users/@me/lists"@,
{
    "https://tasks.googleapis.com/tasks/v1/users/@me/lists"
}

/// The URL listing pending tasks of one task list, bounded by
/// `max_results` and excluding completed tasks.
pub open spec fn spec_tasks_list_url(tasklist_id: Seq<char>, max_results: u64) -> Seq<char> {
    "https://tasks.googleapis.com/tasks/v1/lists/"@ + tasklist_id + "/tasks?maxResults="@
        + ascii_chars(dec_digits(max_results as nat)) + "&showCompleted=false"@
}

/// Builds the task-list URL.
pub fn tasks_list_url(tasklist_id: &str, max_results: u64) -> (r: String)
    ensures
        r@ == spec_tasks_list_url(tasklist_id@, max_results),
{
    let mut out = "https://tasks.googleapis.com/tasks/v1/lists/".to_owned();
    out.append(tasklist_id);
    out.append("/tasks?maxResults=");
    let digits = format_u64(max_results);
    proof {
        dec_digits_value(max_results as nat);
        assert(forall|i: int| 0 <= i < digits@.len() ==> digits@[i] < 128);
    }
    let digits_s = ascii_to_string(digits);
    out.append(digits_s.as_str());
    out.append("&showCompleted=false");
    proof {
        assert(out@ =~= spec_tasks_list_url(tasklist_id@, max_results));
    }
    out
}

/// The URL for creating a task in one task list.
pub fn tasks_create_url(tasklist_id: &str) -> (r: String)
    ensures
        r@ == "https://tasks.googleapis.com/tasks/v1/lists/"@ + tasklist_id@ + "/tasks"@,
{
    let mut out = "https://tasks.googleapis.com/tasks/v1/lists/".to_owned();
    out.append(tasklist_id);
    out.append("/tasks");
    proof {
        assert(out@ =~= "https://tasks.googleapis.com/tasks/v1/lists/"@ + tasklist_id@
            + "/tasks"@);
    }
    out
}

/// Reads the id of the first task list out of a lists response: the `id`
/// text of `items[0]`, exactly when that list and id exist.
pub fn extract_first_tasklist_id(data: &StructuredValue) -> (r: Option<String>)
    ensures
        r is Some <==> (spec_items_array(*data) matches Some(items) && items.len() > 0
            && spec_opt_text_arg(items[0], "id"@) is Some),
        r matches Some(id) ==> spec_opt_text_arg(spec_items_array(*data)->Some_0[0], "id"@)
            == Some(id@),
{
    match data.get_field("items") {
        Some(v) => match v {
            StructuredValue::Array(items) => {
                if items.len() > 0 {
                    opt_text_arg(&items[0], "id")
                } else {
                    None
                }
            },
            _ => None,
        },
        None => None,
    }
}

/// Builds the creation body of a new task.
pub fn build_task_body(title: String, notes: Option<String>, due: Option<String>) -> (r:
    StructuredValue)
    ensures
        r matches StructuredValue::Object(fs) && {
            &&& fs@.len() == 3
            &&& fs@[0].0@ == "title"@ && fs@[0].1 == StructuredValue::Text(title)
            &&& fs@[1].0@ == "notes"@ && (match notes {
                Some(n) => fs@[1].1 == StructuredValue::Text(n),
                None => fs@[1].1 is Null,
            })
            &&& fs@[2].0@ == "due"@ && (match due {
                Some(d) => fs@[2].1 == StructuredValue::Text(d),
                None => fs@[2].1 is Null,
            })
        },
{
    let mut fields: Vec<(String, StructuredValue)> = Vec::new();
    fields.push(("title".to_owned(), StructuredValue::Text(title)));
    let notes_value = match notes {
        Some(n) => StructuredValue::Text(n),
        None => StructuredValue::Null,
    };
    fields.push(("notes".to_owned(), notes_value));
    let due_value = match due {
        Some(d) => StructuredValue::Text(d),
        None => StructuredValue::Null,
    };
    fields.push(("due".to_owned(), due_value));
    StructuredValue::Object(fields)
}

/// How an extracted task relates to its response value.
pub open spec fn task_matches(item: StructuredValue, t: GoogleTask) -> bool {
    &&& spec_opt_text_arg(item, "id"@) == Some(t.id@)
    &&& spec_opt_text_arg(item, "title"@) == Some(t.title@)
    &&& t.status@ == spec_text_arg(item, "status"@, ""@)
    &&& (match t.notes {
        Some(n) => spec_opt_text_arg(item, "notes"@) == Some(n@),
        None => spec_opt_text_arg(item, "notes"@) is None,
    })
    &&& (match t.due {
        Some(d) => spec_opt_text_arg(item, "due"@) == Some(d@),
        None => spec_opt_text_arg(item, "due"@) is None,
    })
}

/// Reads one task out of a response item; refused when `id` or `title` is
/// missing.
pub fn extract_task(item: &StructuredValue) -> (r: Option<GoogleTask>)
    ensures
        r is Some <==> spec_opt_text_arg(*item, "id"@) is Some && spec_opt_text_arg(
            *item,
            "title"@,
        ) is Some,
        r matches Some(t) ==> task_matches(*item, t),
{
    let id = match opt_text_arg(item, "id") {
        Some(id) => id,
        None => {
            return None;
        },
    };
    let title = match opt_text_arg(item, "title") {
        Some(t) => t,
        None => {
            return None;
        },
    };
    let notes = opt_text_arg(item, "notes");
    let status = text_arg(item, "status", "");
    let due = opt_text_arg(item, "due");
    Some(GoogleTask { id, title, notes, status, due })
}

/// Reads the `items` list of a tasks response; an absent list is an empty
/// one. Succeeds exactly when every listed item carries its id and title;
/// otherwise the response is malformed and refused.
#[verifier::loop_isolation(false)]
pub fn extract_tasks(data: &StructuredValue) -> (r: Option<Vec<GoogleTask>>)
    ensures
        r is Some <==> (spec_items_array(*data) matches Some(items) ==> forall|i: int|
            0 <= i < items.len() ==> (#[trigger] spec_opt_text_arg(items[i], "id"@) is Some
                && spec_opt_text_arg(items[i], "title"@) is Some)),
        spec_items_array(*data) matches Some(items) ==> (r matches Some(tasks) ==> {
            &&& tasks@.len() == items.len()
            &&& forall|i: int| 0 <= i < tasks@.len()
                ==> task_matches(items[i], #[trigger] tasks@[i])
        }),
        spec_items_array(*data) is None ==> (r matches Some(tasks) && tasks@.len() == 0),
{
    let items = match data.get_field("items") {
        Some(v) => match v {
            StructuredValue::Array(items) => items,
            _ => {
                return Some(Vec::new());
            },
        },
        None => {
            return Some(Vec::new());
        },
    };
    let mut out: Vec<GoogleTask> = Vec::new();
    let mut i: usize = 0;
    while i < items.len()
        invariant
            i <= items@.len(),
            out@.len() == i,
            forall|j: int| 0 <= j < i ==> task_matches(items@[j], #[trigger] out@[j]),
        decreases items@.len() - i,
    {
        match extract_task(&items[i]) {
            Some(t) => {
                out.push(t);
            },
            None => {
                return None;
            },
        }
        i = i + 1;
    }
    proof {
        assert forall|i: int| 0 <= i < items@.len()
            implies (#[trigger] spec_opt_text_arg(items@[i], "id"@) is Some
                && spec_opt_text_arg(items@[i], "title"@) is Some) by {
            assert(task_matches(items@[i], out@[i]));
        }
    }
    Some(out)
}

} // verus!
