//! Conversation data — turns and their parts — and the rule that folds the
//! model's text fragments into one reply without echoed repeats.

use vstd::prelude::*;
use vstd::utf8::encode_utf8;
use crate::value::StructuredValue;

verus! {

/// Who produced a turn.
#[derive(Clone, Copy, PartialEq, Eq, Structural, Debug)]
pub enum Role {
    User,
    Model,
    Function,
}

/// A tool invocation the model requested.
pub struct FunctionCall {
    pub name: String,
    pub args: StructuredValue,
}

/// A tool result handed back to the model, tagged with the tool it came
/// from.
pub struct FunctionResponse {
    pub name: String,
    pub response: StructuredValue,
}

/// Inline media attached as model-visible input.
pub struct InlineData {
    pub mime_type: String,
    pub data: String,
}

/// The smallest unit of conversation content: exactly one of text, a tool
/// invocation, a tool result, or inline media.
pub enum Part {
    Text(String),
    Call(FunctionCall),
    Response(FunctionResponse),
    Inline(InlineData),
}

impl Part {
    /// A plain text part.
    pub fn text(t: String) -> (r: Part)
        ensures
            r == Part::Text(t),
    {
        Part::Text(t)
    }

    /// A tool-result part.
    pub fn function_response(name: String, response: StructuredValue) -> (r: Part)
        ensures
            r matches Part::Response(fr) && fr.name == name && fr.response == response,
    {
        Part::Response(FunctionResponse { name, response })
    }
}

/// One entry in a conversation; order is significant.
pub struct Turn {
    pub role: Role,
    pub parts: Vec<Part>,
}

/// Byte-level suffix test.
pub open spec fn spec_ends_with(a: Seq<u8>, b: Seq<u8>) -> bool {
    a.len() >= b.len() && a.skip(a.len() - b.len()) == b
}

/// Whether `a` ends with `b`, byte for byte.
#[verifier::loop_isolation(false)]
pub fn bytes_ends_with(a: &[u8], b: &[u8]) -> (r: bool)
    ensures
        r == spec_ends_with(a@, b@),
{
    if a.len() < b.len() {
        return false;
    }
    let offset = a.len() - b.len();
    let mut i: usize = 0;
    while i < b.len()
        invariant
            i <= b@.len(),
            offset == a@.len() - b@.len(),
            forall|j: int| 0 <= j < i ==> a@[offset + j] == b@[j],
        decreases b@.len() - i,
    {
        if a[offset + i] != b[i] {
            proof {
                assert(a@.skip(offset as int)[i as int] == a@[offset + i]);
            }
            return false;
        }
        i = i + 1;
    }
    proof {
        assert(a@.skip(offset as int) =~= b@);
    }
    true
}

/// How one text fragment folds into the accumulated reply: a fragment the
/// text already ends with is dropped (no echoed repeats); otherwise it is
/// appended, after a blank line when the text is not empty.
pub open spec fn spec_fold_one(acc: Seq<char>, frag: Seq<char>) -> Seq<char> {
    if spec_ends_with(encode_utf8(acc), encode_utf8(frag)) {
        acc
    } else if acc.len() == 0 {
        frag
    } else {
        acc + "\n\n"@ + frag
    }
}

/// Folds one fragment into the accumulated reply text.
pub fn fold_text_fragment(acc: &mut String, fragment: &str)
    ensures
        final(acc)@ == spec_fold_one(old(acc)@, fragment@),
{
    if bytes_ends_with(acc.as_str().as_bytes(), fragment.as_bytes()) {
        return;
    }
    if acc.as_str().is_empty() {
        acc.append(fragment);
        proof {
            assert(acc@ =~= fragment@);
        }
    } else {
        acc.append("\n\n");
        acc.append(fragment);
        proof {
            assert(acc@ =~= old(acc)@ + "\n\n"@ + fragment@);
        }
    }
}

/// The accumulated text after folding every text part of a reply, in
/// order.
pub open spec fn spec_fold_parts(acc: Seq<char>, parts: Seq<Part>) -> Seq<char>
    decreases parts.len(),
{
    if parts.len() == 0 {
        acc
    } else {
        match parts[0] {
            Part::Text(t) => spec_fold_parts(spec_fold_one(acc, t@), parts.drop_first()),
            _ => spec_fold_parts(acc, parts.drop_first()),
        }
    }
}

/// The function calls a reply carries, in order.
pub open spec fn spec_calls_of(parts: Seq<Part>) -> Seq<FunctionCall>
    decreases parts.len(),
{
    if parts.len() == 0 {
        seq![]
    } else {
        match parts[0] {
            Part::Call(c) => seq![c] + spec_calls_of(parts.drop_first()),
            _ => spec_calls_of(parts.drop_first()),
        }
    }
}

/// Whether a reply carries at least one function call.
pub open spec fn spec_has_calls(parts: Seq<Part>) -> bool {
    spec_calls_of(parts).len() > 0
}

/// Folding distributes over appending one part at the end.
pub proof fn lemma_fold_parts_snoc(acc: Seq<char>, parts: Seq<Part>, p: Part)
    ensures
        spec_fold_parts(acc, parts.push(p)) == (match p {
            Part::Text(t) => spec_fold_one(spec_fold_parts(acc, parts), t@),
            _ => spec_fold_parts(acc, parts),
        }),
    decreases parts.len(),
{
    reveal_with_fuel(spec_fold_parts, 3);
    if parts.len() == 0 {
        assert(parts.push(p).drop_first() =~= Seq::<Part>::empty());
        assert(parts.push(p)[0] == p);
    } else {
        assert(parts.push(p)[0] == parts[0]);
        assert(parts.push(p).drop_first() =~= parts.drop_first().push(p));
        match parts[0] {
            Part::Text(t) => {
                lemma_fold_parts_snoc(spec_fold_one(acc, t@), parts.drop_first(), p);
            },
            _ => {
                lemma_fold_parts_snoc(acc, parts.drop_first(), p);
            },
        }
    }
}

/// Call collection distributes over appending one part at the end.
pub proof fn lemma_calls_of_snoc(parts: Seq<Part>, p: Part)
    ensures
        spec_calls_of(parts.push(p)) == (match p {
            Part::Call(c) => spec_calls_of(parts).push(c),
            _ => spec_calls_of(parts),
        }),
    decreases parts.len(),
{
    reveal_with_fuel(spec_calls_of, 3);
    if parts.len() == 0 {
        assert(parts.push(p).drop_first() =~= Seq::<Part>::empty());
        assert(parts.push(p)[0] == p);
        match p {
            Part::Call(c) => {
                assert(seq![c] + spec_calls_of(Seq::<Part>::empty()) =~= spec_calls_of(
                    parts,
                ).push(c));
            },
            _ => {},
        }
    } else {
        assert(parts.push(p)[0] == parts[0]);
        assert(parts.push(p).drop_first() =~= parts.drop_first().push(p));
        lemma_calls_of_snoc(parts.drop_first(), p);
        match parts[0] {
            Part::Call(c0) => {
                match p {
                    Part::Call(c) => {
                        assert(seq![c0] + spec_calls_of(parts.drop_first()).push(c)
                            =~= (seq![c0] + spec_calls_of(parts.drop_first())).push(c));
                    },
                    _ => {},
                }
            },
            _ => {},
        }
    }
}

} // verus!
