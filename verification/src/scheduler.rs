//! The background scheduler's decisions: the dedup ledger keyed by
//! (external id, provider), and the triage verdict that decides whether a
//! fetched item deserves a notification.

use vstd::prelude::*;
use vstd::slice::slice_subrange;
use vstd::utf8::encode_utf8;
use crate::encoding::{bytes_eq, str_eq};

verus! {

/// One ledger entry: external id, provider, and the recorded title (the
/// notification's title, or a skip marker).
pub struct LedgerEntry {
    pub external_id: String,
    pub provider: String,
    pub title: String,
}

/// The view of ledger entries: (id, provider, title) character sequences.
pub open spec fn entries_view(es: Seq<LedgerEntry>) -> Seq<(Seq<char>, Seq<char>, Seq<char>)> {
    es.map_values(|e: LedgerEntry| (e.external_id@, e.provider@, e.title@))
}

/// Whether some entry carries this id and provider.
pub open spec fn spec_recorded(
    es: Seq<(Seq<char>, Seq<char>, Seq<char>)>,
    id: Seq<char>,
    provider: Seq<char>,
) -> bool {
    exists|i: int| 0 <= i < es.len() && #[trigger] es[i].0 == id && es[i].1 == provider
}

/// What the scheduler does with one fetched item.
#[derive(Clone, Copy, PartialEq, Eq, Structural, Debug)]
pub enum ItemDirective {
    /// The item was already evaluated once; no triage, no notification.
    AlreadyHandled,
    /// The item is new: run the one-shot triage query.
    Triage,
}

/// The dedup ledger: every item evaluated once — notified or explicitly
/// skipped — is remembered so it is never evaluated twice.
pub struct NotificationLedger {
    entries: Vec<LedgerEntry>,
}

impl NotificationLedger {
    /// The recorded entries, in order.
    pub closed spec fn spec_entries(&self) -> Seq<(Seq<char>, Seq<char>, Seq<char>)> {
        entries_view(self.entries@)
    }

    /// An empty ledger.
    pub fn new() -> (r: NotificationLedger)
        ensures
            r.spec_entries().len() == 0,
    {
        NotificationLedger { entries: Vec::new() }
    }

    /// Whether this item was already evaluated.
    pub fn has_notified(&self, external_id: &str, provider: &str) -> (r: bool)
        ensures
            r == spec_recorded(self.spec_entries(), external_id@, provider@),
    {
        let mut i: usize = 0;
        while i < self.entries.len()
            invariant
                i <= self.entries@.len(),
                forall|j: int| 0 <= j < i
                    ==> !(#[trigger] entries_view(self.entries@)[j].0 == external_id@
                        && entries_view(self.entries@)[j].1 == provider@),
            decreases self.entries@.len() - i,
        {
            if str_eq(self.entries[i].external_id.as_str(), external_id)
                && str_eq(self.entries[i].provider.as_str(), provider) {
                proof {
                    assert(entries_view(self.entries@)[i as int].0 == external_id@);
                }
                return true;
            }
            i = i + 1;
        }
        false
    }

    /// The decision for one item: a recorded one is already handled, a new
    /// one goes to triage.
    pub fn plan_item(&self, external_id: &str, provider: &str) -> (r: ItemDirective)
        ensures
            r == if spec_recorded(self.spec_entries(), external_id@, provider@) {
                ItemDirective::AlreadyHandled
            } else {
                ItemDirective::Triage
            },
    {
        if self.has_notified(external_id, provider) {
            ItemDirective::AlreadyHandled
        } else {
            ItemDirective::Triage
        }
    }

    /// Records the outcome for an item (the notification title, or a skip
    /// marker), so the item is never evaluated again.
    pub fn record(&mut self, external_id: String, provider: String, title: String)
        ensures
            final(self).spec_entries() == old(self).spec_entries().push(
                (external_id@, provider@, title@),
            ),
            spec_recorded(final(self).spec_entries(), external_id@, provider@),
    {
        self.entries.push(LedgerEntry { external_id, provider, title });
        proof {
            assert(self.spec_entries() =~= old(self).spec_entries().push(
                (external_id@, provider@, title@),
            ));
            assert(self.spec_entries()[self.spec_entries().len() - 1].0 == external_id@);
        }
    }
}

/// Deduplication is permanent: once an item's outcome is recorded, it stays
/// recorded under any later recordings, so a second pass over the same item
/// is always `AlreadyHandled` and triggers no second triage and no second
/// notification.
pub proof fn lemma_dedup_permanent(
    es: Seq<(Seq<char>, Seq<char>, Seq<char>)>,
    id: Seq<char>,
    provider: Seq<char>,
    later: (Seq<char>, Seq<char>, Seq<char>),
)
    requires
        spec_recorded(es, id, provider),
    ensures
        spec_recorded(es.push(later), id, provider),
{
    let i = choose|i: int| 0 <= i < es.len() && #[trigger] es[i].0 == id && es[i].1 == provider;
    assert(es.push(later)[i].0 == id);
}

// ------------------------------------------------------------------
// Triage
// ------------------------------------------------------------------

/// ASCII upper-casing, byte for byte; non-ASCII bytes pass unchanged.
pub open spec fn ascii_upper(s: Seq<u8>) -> Seq<u8> {
    s.map_values(|b: u8| if 97 <= b <= 122 { (b - 32) as u8 } else { b })
}

/// Byte-level substring test.
pub open spec fn spec_contains_sub(a: Seq<u8>, b: Seq<u8>) -> bool {
    exists|i: int| 0 <= i <= a.len() - b.len() && #[trigger] a.subrange(i, i + b.len()) == b
}

/// Whether `a` contains `b` as a contiguous byte substring.
pub fn bytes_contains(a: &[u8], b: &[u8]) -> (r: bool)
    ensures
        r == spec_contains_sub(a@, b@),
{
    if b.len() == 0 {
        proof {
            assert(a@.subrange(0, 0 + b@.len() as int) =~= b@);
        }
        return true;
    }
    if b.len() > a.len() {
        return false;
    }
    let mut i: usize = 0;
    while i <= a.len() - b.len()
        invariant
            1 <= b@.len() <= a@.len(),
            i <= a@.len() - b@.len() + 1,
            forall|j: int| 0 <= j < i ==> #[trigger] a@.subrange(j, j + b@.len()) != b@,
        decreases a@.len() - b@.len() + 1 - i,
    {
        if bytes_eq(slice_subrange(a, i, i + b.len()), b) {
            assert(a@.subrange(i as int, i + b@.len()) == b@);
            return true;
        }
        i = i + 1;
    }
    false
}

/// Upper-cases the ASCII letters of a byte sequence.
pub fn ascii_upper_bytes(input: &[u8]) -> (r: Vec<u8>)
    ensures
        r@ == ascii_upper(input@),
{
    let mut out: Vec<u8> = Vec::new();
    let mut i: usize = 0;
    while i < input.len()
        invariant
            i <= input@.len(),
            out@.len() == i,
            forall|j: int| 0 <= j < i ==> out@[j] == ascii_upper(input@)[j],
        decreases input@.len() - i,
    {
        let b = input[i];
        if 97 <= b && b <= 122 {
            out.push(b - 32);
        } else {
            out.push(b);
        }
        i = i + 1;
    }
    proof {
        assert(out@ =~= ascii_upper(input@));
    }
    out
}

/// The marker the triage prompt asks the model to answer with.
pub open spec fn yes_marker() -> Seq<u8> {
    seq![89u8, 69, 83]
}

/// Reads the triage reply: the item deserves a notification exactly when
/// the reply, upper-cased, contains `YES`.
pub fn parse_triage_verdict(reply: &str) -> (r: bool)
    ensures
        r == spec_contains_sub(ascii_upper(encode_utf8(reply@)), yes_marker()),
{
    let upper = ascii_upper_bytes(reply.as_bytes());
    let mut marker: Vec<u8> = Vec::new();
    marker.push(89);
    marker.push(69);
    marker.push(83);
    proof {
        assert(marker@ =~= yes_marker());
    }
    bytes_contains(upper.as_slice(), marker.as_slice())
}

/// The fallback chat line used when the model's proactive message comes
/// back empty.
pub fn default_proactive_message() -> (r: &'static str)
    ensures
        r@ == "I noticed a new email you might want to check! \u{1F4E7}"@,
{
    "I noticed a new email you might want to check! \u{1F4E7}"
}

/// Builds the one-shot triage prompt for a fetched email: the model is
/// asked to answer only `YES` or `NO`.
pub fn build_triage_prompt(from: &str, subject: &str, snippet: &str) -> (r: String)
    ensures
        r@ == "Triage this new email to see if it warrants a gentle desktop ping.\n\nEMAIL DETAILS:\nFrom: "@
            + from@ + "\nSubject: "@ + subject@ + "\nSnippet: "@ + snippet@
            + "\n\nPing the user ONLY if:\n1. It is a personal message from a human.\n2. It is an urgent request or important update.\n3. It relates to the user's focus.\n\nIGNORE: Newsletters, marketing, automated alerts (unless critical), or noise.\n\nResponse: ONLY say 'YES' or 'NO'."@,
{
    let mut out =
        "Triage this new email to see if it warrants a gentle desktop ping.\n\nEMAIL DETAILS:\nFrom: ".to_owned();
    out.append(from);
    out.append("\nSubject: ");
    out.append(subject);
    out.append("\nSnippet: ");
    out.append(snippet);
    out.append(
        "\n\nPing the user ONLY if:\n1. It is a personal message from a human.\n2. It is an urgent request or important update.\n3. It relates to the user's focus.\n\nIGNORE: Newsletters, marketing, automated alerts (unless critical), or noise.\n\nResponse: ONLY say 'YES' or 'NO'.",
    );
    proof {
        assert(out@ =~= "Triage this new email to see if it warrants a gentle desktop ping.\n\nEMAIL DETAILS:\nFrom: "@
            + from@ + "\nSubject: "@ + subject@ + "\nSnippet: "@ + snippet@
            + "\n\nPing the user ONLY if:\n1. It is a personal message from a human.\n2. It is an urgent request or important update.\n3. It relates to the user's focus.\n\nIGNORE: Newsletters, marketing, automated alerts (unless critical), or noise.\n\nResponse: ONLY say 'YES' or 'NO'."@);
    }
    out
}

/// Builds the prompt for the short proactive chat message about an email.
pub fn build_proactive_prompt(from: &str, subject: &str, snippet: &str) -> (r: String)
    ensures
        r@ == "Write a very brief (1-2 sentences) warm chat message to the user about this email. Use an emoji.\n\nEMAIL:\nFrom: "@
            + from@ + "\nSubject: "@ + subject@ + "\nSnippet: "@ + snippet@,
{
    let mut out =
        "Write a very brief (1-2 sentences) warm chat message to the user about this email. Use an emoji.\n\nEMAIL:\nFrom: ".to_owned();
    out.append(from);
    out.append("\nSubject: ");
    out.append(subject);
    out.append("\nSnippet: ");
    out.append(snippet);
    proof {
        assert(out@ =~= "Write a very brief (1-2 sentences) warm chat message to the user about this email. Use an emoji.\n\nEMAIL:\nFrom: "@
            + from@ + "\nSubject: "@ + subject@ + "\nSnippet: "@ + snippet@);
    }
    out
}

} // verus!
