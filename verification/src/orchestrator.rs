//! The conversation orchestrator: the bounded loop that hands the running
//! conversation to the model, dispatches the tool calls it requests, folds
//! the results back, and stops after at most `MAX_MODEL_ROUNDS` model
//! round-trips.

use vstd::prelude::*;
use crate::convo::{
    Role, Part, Turn, FunctionCall, FunctionResponse, InlineData, fold_text_fragment,
    spec_fold_parts, spec_calls_of, spec_has_calls, lemma_fold_parts_snoc, lemma_calls_of_snoc,
};
use crate::value::{StructuredValue, obj_lookup, obj_without};
use crate::encoding::str_eq;

verus! {

/// The iteration ceiling: model round-trips per user request. When it is
/// reached while tool calls are still being issued, the loop ends anyway.
pub const MAX_MODEL_ROUNDS: u32 = 5;

/// Where the loop stands.
#[derive(Clone, Copy, PartialEq, Eq, Structural, Debug)]
pub enum OrchestrationPhase {
    /// The conversation should be sent to the model next.
    AwaitingModel,
    /// The last model reply carried tool calls whose results are owed.
    AwaitingTools,
    /// No further model call will be made.
    Done,
}

/// Why an orchestration produced no reply text.
#[derive(Clone, Copy, PartialEq, Eq, Structural, Debug)]
pub enum OrchestrationError {
    /// The model never produced text and no tool ran either.
    NoModelText,
}

/// A screenshot response that carries its image inline: the name is
/// `take_screenshot` and the response object binds `image_data` to text.
pub open spec fn strip_applies_to(name: Seq<char>, response: StructuredValue) -> bool {
    name == "take_screenshot"@ && (response matches StructuredValue::Object(fs)
        && (obj_lookup(fs@, "image_data"@) matches Some(v) && v is Text))
}

/// As `strip_applies_to`, for a whole response.
pub open spec fn strip_applies(r: FunctionResponse) -> bool {
    strip_applies_to(r.name@, r.response)
}

/// The inline image a response carries, when it is a screenshot response.
pub open spec fn spec_shot_of(r: FunctionResponse) -> Option<Seq<char>> {
    if strip_applies(r) {
        Some(obj_lookup(r.response->Object_0@, "image_data"@)->Some_0->Text_0@)
    } else {
        None
    }
}

/// The image of the last screenshot response among the results, if any.
pub open spec fn spec_last_shot(rs: Seq<FunctionResponse>) -> Option<Seq<char>>
    decreases rs.len(),
{
    if rs.len() == 0 {
        None
    } else if spec_shot_of(rs.last()) is Some {
        spec_shot_of(rs.last())
    } else {
        spec_last_shot(rs.drop_last())
    }
}

/// How a stored response relates to the one that came in: a screenshot
/// response has its `image_data` field replaced by a short `info` note (the
/// payload must not be replayed into every later model call); anything else
/// is kept as it is.
pub open spec fn strip_out_rel(orig: FunctionResponse, out: FunctionResponse) -> bool {
    if strip_applies(orig) {
        let fs = orig.response->Object_0;
        &&& out.name == orig.name
        &&& (out.response matches StructuredValue::Object(nf) && {
            &&& nf@.len() == obj_without(fs@, "image_data"@).len() + 1
            &&& nf@.drop_last() == obj_without(fs@, "image_data"@)
            &&& nf@.last().0@ == "info"@
            &&& (nf@.last().1 matches StructuredValue::Text(m) && m@
                == "Screenshot captured successfully. You can now see the image in this Turn."@)
        })
    } else {
        out == orig
    }
}

/// Replaces the inline image of a screenshot response by a short note and
/// hands the image out; leaves every other response unchanged.
pub fn strip_media_response(resp: FunctionResponse) -> (r: (FunctionResponse, Option<String>))
    ensures
        strip_out_rel(resp, r.0),
        match r.1 {
            Some(d) => spec_shot_of(resp) == Some(d@),
            None => spec_shot_of(resp) is None,
        },
{
    let FunctionResponse { name, response } = resp;
    let applies = match response.get_field("image_data") {
        Some(v) => match v {
            StructuredValue::Text(_) => str_eq(name.as_str(), "take_screenshot"),
            _ => false,
        },
        None => false,
    };
    if !applies {
        return (FunctionResponse { name, response }, None);
    }
    let mut fields = match response {
        StructuredValue::Object(fs) => fs,
        _ => {
            proof {
                assert(false);
            }
            Vec::new()
        },
    };
    let ghost orig_fields = fields@;
    let mut kept: Vec<(String, StructuredValue)> = Vec::new();
    let mut shot: Option<String> = None;
    while fields.len() > 0
        invariant
            obj_without(orig_fields, "image_data"@) == kept@ + obj_without(
                fields@,
                "image_data"@,
            ),
            obj_lookup(orig_fields, "image_data"@) matches Some(v) && v is Text,
            match shot {
                Some(d) => obj_lookup(orig_fields, "image_data"@) matches Some(v) && v
                    == StructuredValue::Text(d),
                None => obj_lookup(orig_fields, "image_data"@) == obj_lookup(
                    fields@,
                    "image_data"@,
                ),
            },
        decreases fields@.len(),
    {
        let ghost fields_before = fields@;
        let ghost kept_before = kept@;
        let f = fields.remove(0);
        proof {
            assert(f == fields_before[0]);
            assert(fields@ =~= fields_before.drop_first());
        }
        if str_eq(f.0.as_str(), "image_data") {
            proof {
                assert(obj_without(fields_before, "image_data"@) == obj_without(
                    fields@,
                    "image_data"@,
                ));
                assert(obj_lookup(fields_before, "image_data"@) == Some(f.1));
            }
            match f.1 {
                StructuredValue::Text(t) => {
                    if shot.is_none() {
                        shot = Some(t);
                    }
                },
                _ => {},
            }
        } else {
            proof {
                assert(obj_without(fields_before, "image_data"@) =~= seq![f] + obj_without(
                    fields@,
                    "image_data"@,
                ));
                assert(obj_lookup(fields_before, "image_data"@) == obj_lookup(
                    fields@,
                    "image_data"@,
                ));
            }
            kept.push(f);
            proof {
                assert(kept@ =~= kept_before.push(f));
                assert(kept@ + obj_without(fields@, "image_data"@) =~= kept_before + (seq![f]
                    + obj_without(fields@, "image_data"@)));
            }
        }
    }
    proof {
        assert(obj_without(fields@, "image_data"@) =~= Seq::<(String, StructuredValue)>::empty());
        assert(kept@ =~= obj_without(orig_fields, "image_data"@));
    }
    let ghost kept_before = kept@;
    kept.push((
        "info".to_owned(),
        StructuredValue::Text(
            "Screenshot captured successfully. You can now see the image in this Turn.".to_owned(),
        ),
    ));
    proof {
        assert(kept@.drop_last() =~= kept_before);
    }
    (FunctionResponse { name, response: StructuredValue::Object(kept) }, shot)
}

/// One orchestration in progress: the conversation as the model will see
/// it, the reply text folded so far, and the loop bookkeeping.
pub struct Orchestration {
    turns: Vec<Turn>,
    accumulated: String,
    rounds: u32,
    tools_called: bool,
    phase: OrchestrationPhase,
}

impl Orchestration {
    /// The conversation replayed to the model, in order.
    pub closed spec fn spec_turns(&self) -> Seq<Turn> {
        self.turns@
    }

    /// The reply text accumulated so far.
    pub closed spec fn spec_accumulated(&self) -> Seq<char> {
        self.accumulated@
    }

    /// Completed model round-trips.
    pub closed spec fn spec_rounds(&self) -> u32 {
        self.rounds
    }

    /// Whether any tool call was dispatched.
    pub closed spec fn spec_tools_called(&self) -> bool {
        self.tools_called
    }

    /// Where the loop stands.
    pub closed spec fn spec_phase(&self) -> OrchestrationPhase {
        self.phase
    }

    /// The loop bookkeeping is sound: never more than the ceiling of
    /// rounds, and a pending model call implies the ceiling is not reached.
    pub open spec fn wf(&self) -> bool {
        &&& self.spec_rounds() <= MAX_MODEL_ROUNDS
        &&& (self.spec_phase() is AwaitingModel ==> self.spec_rounds() < MAX_MODEL_ROUNDS)
    }

    /// Starts an orchestration over the given history (the user's message
    /// is its last turn).
    pub fn new(history: Vec<Turn>) -> (r: Orchestration)
        ensures
            r.wf(),
            r.spec_turns() == history@,
            r.spec_accumulated().len() == 0,
            r.spec_rounds() == 0,
            !r.spec_tools_called(),
            r.spec_phase() is AwaitingModel,
    {
        Orchestration {
            turns: history,
            accumulated: String::new(),
            rounds: 0,
            tools_called: false,
            phase: OrchestrationPhase::AwaitingModel,
        }
    }

    /// Whether the conversation should be sent to the model next.
    pub fn needs_model_call(&self) -> (r: bool)
        ensures
            r == (self.spec_phase() is AwaitingModel),
    {
        match self.phase {
            OrchestrationPhase::AwaitingModel => true,
            _ => false,
        }
    }

    /// The current conversation, for the caller to hand to the model.
    pub fn turns(&self) -> (r: &Vec<Turn>)
        ensures
            r@ == self.spec_turns(),
    {
        &self.turns
    }

    /// Completed model round-trips.
    pub fn rounds(&self) -> (r: u32)
        ensures
            r == self.spec_rounds(),
    {
        self.rounds
    }

    /// Absorbs one model reply: the reply is recorded as a model turn, its
    /// text parts are folded into the accumulated reply, and the loop moves
    /// on — to tool dispatch when the reply carries calls, else to done.
    #[verifier::loop_isolation(false)]
    pub fn absorb_model_reply(&mut self, parts: Vec<Part>) -> (has_calls: bool)
        requires
            old(self).wf(),
            old(self).spec_phase() is AwaitingModel,
        ensures
            final(self).wf(),
            has_calls == spec_has_calls(parts@),
            final(self).spec_rounds() == old(self).spec_rounds() + 1,
            final(self).spec_turns() == old(self).spec_turns().push(
                (Turn { role: Role::Model, parts }),
            ),
            final(self).spec_accumulated() == spec_fold_parts(old(self).spec_accumulated(), parts@),
            final(self).spec_tools_called() == (old(self).spec_tools_called() || has_calls),
            final(self).spec_phase() == if has_calls {
                OrchestrationPhase::AwaitingTools
            } else {
                OrchestrationPhase::Done
            },
    {
        let ghost acc0 = self.accumulated@;
        let mut has_calls: bool = false;
        let mut i: usize = 0;
        proof {
            assert(parts@.take(0) =~= Seq::<Part>::empty());
        }
        while i < parts.len()
            invariant
                i <= parts@.len(),
                self.accumulated@ == spec_fold_parts(acc0, parts@.take(i as int)),
                has_calls == spec_has_calls(parts@.take(i as int)),
                self.turns@ == old(self).spec_turns(),
                self.rounds == old(self).spec_rounds(),
                self.tools_called == old(self).spec_tools_called(),
                self.phase == old(self).spec_phase(),
            decreases parts@.len() - i,
        {
            proof {
                assert(parts@.take(i + 1) =~= parts@.take(i as int).push(parts@[i as int]));
                lemma_fold_parts_snoc(acc0, parts@.take(i as int), parts@[i as int]);
                lemma_calls_of_snoc(parts@.take(i as int), parts@[i as int]);
            }
            match &parts[i] {
                Part::Text(t) => {
                    fold_text_fragment(&mut self.accumulated, t.as_str());
                },
                Part::Call(_) => {
                    has_calls = true;
                },
                _ => {},
            }
            i = i + 1;
        }
        proof {
            assert(parts@.take(i as int) =~= parts@);
        }
        self.turns.push(Turn { role: Role::Model, parts });
        self.rounds = self.rounds + 1;
        self.tools_called = self.tools_called || has_calls;
        self.phase = if has_calls {
            OrchestrationPhase::AwaitingTools
        } else {
            OrchestrationPhase::Done
        };
        has_calls
    }

    /// The tool calls of the last model reply, in order, for the caller to
    /// dispatch.
    #[verifier::loop_isolation(false)]
    pub fn pending_calls(&self) -> (r: Vec<&FunctionCall>)
        requires
            self.spec_phase() is AwaitingTools,
            self.spec_turns().len() > 0,
        ensures
            r@.map_values(|c: &FunctionCall| *c) == spec_calls_of(
                self.spec_turns().last().parts@,
            ),
    {
        let mut out: Vec<&FunctionCall> = Vec::new();
        let last = &self.turns[self.turns.len() - 1];
        let mut i: usize = 0;
        proof {
            assert(last.parts@.take(0) =~= Seq::<Part>::empty());
            assert(out@.map_values(|c: &FunctionCall| *c) =~= spec_calls_of(
                last.parts@.take(0),
            ));
        }
        while i < last.parts.len()
            invariant
                i <= last.parts@.len(),
                out@.map_values(|c: &FunctionCall| *c) == spec_calls_of(
                    last.parts@.take(i as int),
                ),
            decreases last.parts@.len() - i,
        {
            proof {
                assert(last.parts@.take(i + 1) =~= last.parts@.take(i as int).push(
                    last.parts@[i as int],
                ));
                lemma_calls_of_snoc(last.parts@.take(i as int), last.parts@[i as int]);
            }
            match &last.parts[i] {
                Part::Call(c) => {
                    out.push(c);
                    proof {
                        assert(out@.map_values(|c: &FunctionCall| *c) =~= spec_calls_of(
                            last.parts@.take(i + 1),
                        ));
                    }
                },
                _ => {},
            }
            i = i + 1;
        }
        proof {
            assert(last.parts@.take(i as int) =~= last.parts@);
        }
        out
    }

    /// Folds the tool results back into the conversation: one function turn
    /// holding every (media-stripped) response, and — when a screenshot was
    /// among them — one synthetic user turn carrying its image inline, so
    /// the payload is delivered once instead of replayed from history.
    #[verifier::loop_isolation(false)]
    pub fn supply_tool_results(&mut self, responses: Vec<FunctionResponse>)
        requires
            old(self).wf(),
            old(self).spec_phase() is AwaitingTools,
        ensures
            final(self).wf(),
            final(self).spec_rounds() == old(self).spec_rounds(),
            final(self).spec_accumulated() == old(self).spec_accumulated(),
            final(self).spec_tools_called() == old(self).spec_tools_called(),
            final(self).spec_phase() == if old(self).spec_rounds() < MAX_MODEL_ROUNDS {
                OrchestrationPhase::AwaitingModel
            } else {
                OrchestrationPhase::Done
            },
            spec_last_shot(responses@) is Some ==> final(self).spec_turns().len() == old(
                self,
            ).spec_turns().len() + 2,
            spec_last_shot(responses@) is None ==> final(self).spec_turns().len() == old(
                self,
            ).spec_turns().len() + 1,
            forall|i: int| 0 <= i < old(self).spec_turns().len()
                ==> final(self).spec_turns()[i] == old(self).spec_turns()[i],
            ({
                let ft = final(self).spec_turns()[old(self).spec_turns().len() as int];
                &&& ft.role == Role::Function
                &&& ft.parts@.len() == responses@.len()
                &&& forall|i: int| 0 <= i < responses@.len()
                    ==> (#[trigger] ft.parts@[i] matches Part::Response(out) && strip_out_rel(
                        responses@[i],
                        out,
                    ))
            }),
            (spec_last_shot(responses@) matches Some(shot) ==> {
                let mt = final(self).spec_turns().last();
                &&& mt.role == Role::User
                &&& mt.parts@.len() == 2
                &&& (mt.parts@[0] matches Part::Text(t) && t@ == "[VISUAL CONTEXT ATTACHED]"@)
                &&& (mt.parts@[1] matches Part::Inline(d) && d.mime_type@ == "image/png"@
                    && d.data@ == shot)
            }),
    {
        let ghost orig = responses@;
        let mut rest = responses;
        let mut parts: Vec<Part> = Vec::new();
        let mut shot: Option<String> = None;
        let ghost mut k: int = 0;
        while rest.len() > 0
            invariant
                0 <= k <= orig.len(),
                rest@ == orig.skip(k),
                parts@.len() == k,
                forall|i: int| 0 <= i < k ==> (#[trigger] parts@[i] matches Part::Response(out)
                    && strip_out_rel(orig[i], out)),
                match shot {
                    Some(d) => spec_last_shot(orig.take(k)) == Some(d@),
                    None => spec_last_shot(orig.take(k)) is None,
                },
                self.turns@ == old(self).spec_turns(),
                self.accumulated@ == old(self).spec_accumulated(),
                self.rounds == old(self).spec_rounds(),
                self.tools_called == old(self).spec_tools_called(),
                self.phase == old(self).spec_phase(),
            decreases rest@.len(),
        {
            let r = rest.remove(0);
            proof {
                assert(r == orig[k]);
                assert(rest@ =~= orig.skip(k + 1));
            }
            let (out, s) = strip_media_response(r);
            parts.push(Part::Response(out));
            proof {
                assert(orig.take(k + 1).drop_last() =~= orig.take(k));
                assert(orig.take(k + 1).last() == orig[k]);
            }
            match s {
                Some(d) => {
                    shot = Some(d);
                },
                None => {},
            }
            proof {
                k = k + 1;
            }
        }
        proof {
            assert(orig.take(k) =~= orig);
        }
        self.turns.push(Turn { role: Role::Function, parts });
        let ghost after_fn = self.turns@;
        match shot {
            Some(d) => {
                let mut media_parts: Vec<Part> = Vec::new();
                media_parts.push(Part::Text("[VISUAL CONTEXT ATTACHED]".to_owned()));
                media_parts.push(
                    Part::Inline(InlineData { mime_type: "image/png".to_owned(), data: d }),
                );
                self.turns.push(Turn { role: Role::User, parts: media_parts });
            },
            None => {},
        }
        self.phase = if self.rounds < MAX_MODEL_ROUNDS {
            OrchestrationPhase::AwaitingModel
        } else {
            OrchestrationPhase::Done
        };
    }

    /// Ends the orchestration and yields the final reply text. A loop that
    /// ran tools but accumulated no text yields a short canned
    /// acknowledgement; one that ran nothing and got no text is a failure
    /// the caller must see.
    pub fn finalize(self) -> (r: Result<String, OrchestrationError>)
        ensures
            self.spec_accumulated().len() > 0 ==> (r matches Ok(s) && s@
                == self.spec_accumulated()),
            self.spec_accumulated().len() == 0 && self.spec_tools_called() ==> (r matches Ok(s)
                && s@ == "Done! \u{2728}"@),
            r is Err <==> self.spec_accumulated().len() == 0 && !self.spec_tools_called(),
    {
        if !self.accumulated.as_str().is_empty() {
            Ok(self.accumulated)
        } else if self.tools_called {
            Ok("Done! \u{2728}".to_owned())
        } else {
            Err(OrchestrationError::NoModelText)
        }
    }
}

/// The iteration ceiling is hard: once `MAX_MODEL_ROUNDS` round-trips have
/// happened, a well-formed orchestration can never be awaiting the model
/// again, whatever replies and tool results arrive.
pub proof fn lemma_iteration_ceiling(st: Orchestration)
    requires
        st.wf(),
        st.spec_rounds() >= MAX_MODEL_ROUNDS,
    ensures
        !(st.spec_phase() is AwaitingModel),
{
}

} // verus!
