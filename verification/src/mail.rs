//! Gmail integration, value side: the request URLs, the raw RFC-822 email
//! payload, and the reading of message details out of the API's response
//! values.

use base64::Engine;
use vstd::prelude::*;
use vstd::utf8::encode_utf8;
use crate::encoding::{
    ascii_chars, ascii_to_string, pct_encoded, pct_encode_bytes, pct_encoded_ascii, dec_digits,
    dec_digits_value, format_u64,
};
use crate::value::{StructuredValue, obj_lookup};
use crate::dispatch::{spec_text_arg, spec_opt_text_arg, text_arg};
use crate::encoding::str_eq;

verus! {

/// One fetched Gmail message, reduced to the fields the engine reads.
pub struct GmailMessage {
    pub id: String,
    pub thread_id: String,
    pub snippet: String,
    pub subject: Option<String>,
    pub from: Option<String>,
    pub date: Option<String>,
}

/// The base64 url-safe, unpadded encoding of a byte sequence.
pub uninterp spec fn base64_url_nopad(bytes: Seq<u8>) -> Seq<char>;

/// Relies on `base64::engine::general_purpose::URL_SAFE_NO_PAD.encode`:
/// produces the url-safe unpadded encoding of the input bytes.
#[verifier::external_body]
fn base64_url_encode(bytes: &[u8]) -> (r: String)
    ensures
        r@ == base64_url_nopad(bytes@),
{
    base64::engine::general_purpose::URL_SAFE_NO_PAD.encode(bytes)
}

/// The raw RFC-822 form of an outgoing mail: recipient, subject, a plain
/// text content type, and the body.
pub open spec fn spec_email_raw(to: Seq<char>, subject: Seq<char>, body: Seq<char>) -> Seq<char> {
    "To: "@ + to + "\r\nSubject: "@ + subject
        + "\r\nContent-Type: text/plain; charset=\"UTF-8\"\r\n\r\n"@ + body
}

/// Builds the raw RFC-822 email text.
pub fn build_email_raw(to: &str, subject: &str, body: &str) -> (r: String)
    ensures
        r@ == spec_email_raw(to@, subject@, body@),
{
    let mut out = "To: ".to_owned();
    out.append(to);
    out.append("\r\nSubject: ");
    out.append(subject);
    out.append("\r\nContent-Type: text/plain; charset=\"UTF-8\"\r\n\r\n");
    out.append(body);
    proof {
        assert(out@ =~= spec_email_raw(to@, subject@, body@));
    }
    out
}

/// Builds the base64url payload the send endpoint takes.
pub fn encode_email_payload(to: &str, subject: &str, body: &str) -> (r: String)
    ensures
        r@ == base64_url_nopad(encode_utf8(spec_email_raw(to@, subject@, body@))),
{
    let raw = build_email_raw(to, subject, body);
    base64_url_encode(raw.as_str().as_bytes())
}

/// The message-list URL: the endpoint with the maximum count and the
/// percent-encoded search query.
pub open spec fn spec_gmail_list_url(max_results: u64, query: Seq<char>) -> Seq<char> {
    "https://gmail.googleapis.com/gmail/v1/users/me/messages?maxResults="@ + ascii_chars(
        dec_digits(max_results as nat),
    ) + "&q="@ + ascii_chars(pct_encoded(encode_utf8(query)))
}

/// Builds the message-list URL.
pub fn gmail_list_url(max_results: u64, query: &str) -> (r: String)
    ensures
        r@ == spec_gmail_list_url(max_results, query@),
{
    let mut out = "https://gmail.googleapis.com/gmail/v1/users/me/messages?maxResults=".to_owned();
    let digits = format_u64(max_results);
    proof {
        dec_digits_value(max_results as nat);
        assert(forall|i: int| 0 <= i < digits@.len() ==> digits@[i] < 128);
    }
    let digits_s = ascii_to_string(digits);
    out.append(digits_s.as_str());
    out.append("&q=");
    let enc = pct_encode_bytes(query.as_bytes());
    proof {
        pct_encoded_ascii(encode_utf8(query@));
    }
    let enc_s = ascii_to_string(enc);
    out.append(enc_s.as_str());
    proof {
        assert(out@ =~= spec_gmail_list_url(max_results, query@));
    }
    out
}

/// The default search query for unread mail.
pub fn default_gmail_query() -> (r: &'static str)
    ensures
        r@ == "is:unread inbox"@,
{
    "is:unread inbox"
}

/// The message-detail URL for one message id.
pub fn gmail_detail_url(id: &str) -> (r: String)
    ensures
        r@ == "https://gmail.googleapis.com/gmail/v1/users/me/messages/"@ + id@,
{
    let mut out = "https://gmail.googleapis.com/gmail/v1/users/me/messages/".to_owned();
    out.append(id);
    out
}

/// The send URL.
pub fn gmail_send_url() -> (r: &'static str)
    ensures
        r@ == "https://gmail.googleapis.com/gmail/v1/users/me/messages/send"@,
{
    "https://gmail.googleapis.com/gmail/v1/users/me/messages/send"
}

/// The `messages` list of a Gmail listing response, when it is present as
/// an array.
pub open spec fn spec_messages_array(data: StructuredValue) -> Option<Seq<StructuredValue>> {
    if data matches StructuredValue::Object(fs) && (obj_lookup(fs@, "messages"@) matches Some(v)
        && v is Array) {
        Some(obj_lookup(data->Object_0@, "messages"@)->Some_0->Array_0@)
    } else {
        None
    }
}

/// Reads the message ids of a listing response, in order; an absent list
/// is an empty one. Succeeds exactly when every listed entry carries a
/// text id; otherwise the response is malformed and refused.
#[verifier::loop_isolation(false)]
pub fn extract_message_ids(data: &StructuredValue) -> (r: Option<Vec<String>>)
    ensures
        r is Some <==> (spec_messages_array(*data) matches Some(items) ==> forall|i: int|
            0 <= i < items.len() ==> #[trigger] spec_opt_text_arg(items[i], "id"@) is Some),
        spec_messages_array(*data) matches Some(items) ==> (r matches Some(ids) ==> {
            &&& ids@.len() == items.len()
            &&& forall|i: int| 0 <= i < ids@.len()
                ==> spec_opt_text_arg(items[i], "id"@) == Some(#[trigger] ids@[i]@)
        }),
        spec_messages_array(*data) is None ==> (r matches Some(ids) && ids@.len() == 0),
{
    let items = match data.get_field("messages") {
        Some(v) => match v {
            StructuredValue::Array(items) => items,
            _ => {
                return Some(Vec::new());
            },
        },
        None => {
            return Some(Vec::new());
        },
    };
    let mut out: Vec<String> = Vec::new();
    let mut i: usize = 0;
    while i < items.len()
        invariant
            i <= items@.len(),
            out@.len() == i,
            forall|j: int| 0 <= j < i
                ==> spec_opt_text_arg(items@[j], "id"@) == Some(#[trigger] out@[j]@),
        decreases items@.len() - i,
    {
        match crate::dispatch::opt_text_arg(&items[i], "id") {
            Some(id) => {
                out.push(id);
            },
            None => {
                return None;
            },
        }
        i = i + 1;
    }
    proof {
        assert forall|i: int| 0 <= i < items@.len()
            implies #[trigger] spec_opt_text_arg(items@[i], "id"@) is Some by {
            assert(spec_opt_text_arg(items@[i], "id"@) == Some(out@[i]@));
        }
    }
    Some(out)
}

/// The last value among headers whose `name` is `wanted`, read from each
/// header object's `value`, scanning in order (a later header wins).
pub open spec fn spec_header_value(headers: Seq<StructuredValue>, wanted: Seq<char>) -> Option<
    Seq<char>,
>
    decreases headers.len(),
{
    if headers.len() == 0 {
        None
    } else {
        let last = headers.last();
        if spec_text_arg(last, "name"@, ""@) == wanted && spec_opt_text_arg(last, "value"@)
            is Some {
            spec_opt_text_arg(last, "value"@)
        } else {
            spec_header_value(headers.drop_last(), wanted)
        }
    }
}

/// Finds the last header with the wanted name and returns its value.
pub fn header_value(headers: &Vec<StructuredValue>, wanted: &str) -> (r: Option<String>)
    ensures
        match r {
            Some(v) => spec_header_value(headers@, wanted@) == Some(v@),
            None => spec_header_value(headers@, wanted@) is None,
        },
{
    let mut out: Option<String> = None;
    let mut i: usize = 0;
    proof {
        assert(headers@.take(0) =~= Seq::<StructuredValue>::empty());
    }
    while i < headers.len()
        invariant
            i <= headers@.len(),
            match out {
                Some(v) => spec_header_value(headers@.take(i as int), wanted@) == Some(v@),
                None => spec_header_value(headers@.take(i as int), wanted@) is None,
            },
        decreases headers@.len() - i,
    {
        proof {
            assert(headers@.take(i + 1).last() == headers@[i as int]);
            assert(headers@.take(i + 1).drop_last() =~= headers@.take(i as int));
        }
        let name = text_arg(&headers[i], "name", "");
        if str_eq(name.as_str(), wanted) {
            match crate::dispatch::opt_text_arg(&headers[i], "value") {
                Some(v) => {
                    out = Some(v);
                },
                None => {},
            }
        }
        i = i + 1;
    }
    proof {
        assert(headers@.take(i as int) =~= headers@);
    }
    out
}

/// Reads one fetched message's details: thread id and snippet default to
/// empty, and subject, sender and date come from the last matching
/// payload header.
pub open spec fn spec_detail_headers(detail: StructuredValue) -> Option<Seq<StructuredValue>> {
    if detail matches StructuredValue::Object(fs)
        && (crate::value::obj_lookup(fs@, "payload"@) matches Some(p)
        && (p matches StructuredValue::Object(pf)
        && (crate::value::obj_lookup(pf@, "headers"@) matches Some(h) && h is Array))) {
        Some(
            crate::value::obj_lookup(
                crate::value::obj_lookup(detail->Object_0@, "payload"@)->Some_0->Object_0@,
                "headers"@,
            )->Some_0->Array_0@,
        )
    } else {
        None
    }
}

pub fn extract_gmail_message(id: String, detail: &StructuredValue) -> (r: GmailMessage)
    ensures
        r.id == id,
        r.thread_id@ == spec_text_arg(*detail, "threadId"@, ""@),
        r.snippet@ == spec_text_arg(*detail, "snippet"@, ""@),
        (spec_detail_headers(*detail) matches Some(headers) ==> {
            &&& (match r.subject {
                Some(s) => spec_header_value(headers, "Subject"@) == Some(s@),
                None => spec_header_value(headers, "Subject"@) is None,
            })
            &&& (match r.from {
                Some(s) => spec_header_value(headers, "From"@) == Some(s@),
                None => spec_header_value(headers, "From"@) is None,
            })
            &&& (match r.date {
                Some(s) => spec_header_value(headers, "Date"@) == Some(s@),
                None => spec_header_value(headers, "Date"@) is None,
            })
        }),
        spec_detail_headers(*detail) is None ==> r.subject is None && r.from is None
            && r.date is None,
{
    let thread_id = text_arg(detail, "threadId", "");
    let snippet = text_arg(detail, "snippet", "");
    let mut subject: Option<String> = None;
    let mut from: Option<String> = None;
    let mut date: Option<String> = None;
    match detail.get_field("payload") {
        Some(payload) => match payload.get_field("headers") {
            Some(hs) => match hs {
                StructuredValue::Array(headers) => {
                    subject = header_value(headers, "Subject");
                    from = header_value(headers, "From");
                    date = header_value(headers, "Date");
                },
                _ => {},
            },
            None => {},
        },
        None => {},
    }
    GmailMessage { id, thread_id, snippet, subject, from, date }
}

} // verus!
