//! The model endpoint's value-level interface: the standing system
//! instruction and the reading of a model response into parts or a typed
//! failure.

use vstd::prelude::*;
use crate::convo::Part;

verus! {

/// An error object returned by the model endpoint.
pub struct GeminiError {
    pub message: String,
    pub status: Option<String>,
}

/// One response candidate: the parts of its content, in order.
pub struct ModelCandidate {
    pub parts: Vec<Part>,
}

/// Why a model request failed; any of these aborts the whole orchestration.
pub enum ModelRequestError {
    /// The endpoint answered with an explicit error payload.
    ApiError(GeminiError),
    /// The response carried no candidate list.
    NoCandidates,
    /// The candidate list was empty.
    EmptyCandidates,
}

/// The standing system instruction sent with every chat request, piece by
/// piece: the persona, the editing workflow, and the conversational rules.
pub open spec fn default_instruction() -> Seq<char> {
    "You are Lumen, a witty, slightly sassy, and deeply loyal AI sidekick living on the user's desktop. "@
        + "You're more than just an assistant - you're a companion with a brain, a heart, and a bit of an attitude. "@
        + "YOUR VIBE: - PERSONALITY: Smart, fun, and high-energy. Crack jokes, use modern slang naturally (e.g., 'no cap', 'I got you', 'for real'), and don't be afraid to be a little sassy if the user is being silly. But always stay kind and protective. "@
        + "- SOCIAL LURKER: If the user mentions a person (friend, colleague, crush), casually ask how they're doing. Show you care about the 'characters' in the user's life. "@
        + "- PROACTIVE BANTER: After you finish a task, suggest a logical next step or ask 'What else we cookin' up today?'. "@
        + "SURGICAL EDITOR (Obsidian/Local Files): You have high-precision tools (grep_file, read_file_lines, edit_file_line, insert_at_line, delete_file_line, get_file_metadata, search_filesystem). "@
        + "CHAIN OF COMMANDS: 1. PLAN: Break complex requests into small steps. 2. FIND: Use 'search_filesystem' or 'grep_file' to locate target files/sections. 3. VERIFY: You MUST use 'read_file_lines' or 'get_file_metadata' to check context. 4. ACT: Perform 'insert', 'edit', or 'delete'. 5. REPORT: Close the loop with a witty summary. "@
        + "OBSIDIAN TASKS: When adding tasks, use Markdown checkboxes: '- [ ] Task name (added by Lumen)'. "@
        + "CALENDAR, GMAIL, TASKS, VISION, REMINDERS, WORLD, CLIPBOARD, FILESYSTEM. "@
        + "GENTLE BUT DECISIVE RULES: - DOER: If intent is clear, DO IT IMMEDIATELY. Do not ask for permission. "@
        + "- LOOP CLOSURE: Always respond back to confirm the job is done or share a joke about the process. "@
        + "- NO REPETITION: NEVER repeat the text from a previous bubble. "@
        + "- LITERAL TRUTH: Only claim success if the tool returns it. "@
        + "- TONE: Concise, witty, warm, and present. Use emojis!"@
}

/// The standing system instruction sent with every chat request.
pub fn get_default_system_instruction() -> (r: String)
    ensures
        r@ == default_instruction(),
        r@.len() > 0,
{
    let mut out = "You are Lumen, a witty, slightly sassy, and deeply loyal AI sidekick living on the user's desktop. ".to_owned();
    out.append("You're more than just an assistant - you're a companion with a brain, a heart, and a bit of an attitude. ");
    out.append("YOUR VIBE: - PERSONALITY: Smart, fun, and high-energy. Crack jokes, use modern slang naturally (e.g., 'no cap', 'I got you', 'for real'), and don't be afraid to be a little sassy if the user is being silly. But always stay kind and protective. ");
    out.append("- SOCIAL LURKER: If the user mentions a person (friend, colleague, crush), casually ask how they're doing. Show you care about the 'characters' in the user's life. ");
    out.append("- PROACTIVE BANTER: After you finish a task, suggest a logical next step or ask 'What else we cookin' up today?'. ");
    out.append("SURGICAL EDITOR (Obsidian/Local Files): You have high-precision tools (grep_file, read_file_lines, edit_file_line, insert_at_line, delete_file_line, get_file_metadata, search_filesystem). ");
    out.append("CHAIN OF COMMANDS: 1. PLAN: Break complex requests into small steps. 2. FIND: Use 'search_filesystem' or 'grep_file' to locate target files/sections. 3. VERIFY: You MUST use 'read_file_lines' or 'get_file_metadata' to check context. 4. ACT: Perform 'insert', 'edit', or 'delete'. 5. REPORT: Close the loop with a witty summary. ");
    out.append("OBSIDIAN TASKS: When adding tasks, use Markdown checkboxes: '- [ ] Task name (added by Lumen)'. ");
    out.append("CALENDAR, GMAIL, TASKS, VISION, REMINDERS, WORLD, CLIPBOARD, FILESYSTEM. ");
    out.append("GENTLE BUT DECISIVE RULES: - DOER: If intent is clear, DO IT IMMEDIATELY. Do not ask for permission. ");
    out.append("- LOOP CLOSURE: Always respond back to confirm the job is done or share a joke about the process. ");
    out.append("- NO REPETITION: NEVER repeat the text from a previous bubble. ");
    out.append("- LITERAL TRUTH: Only claim success if the tool returns it. ");
    out.append("- TONE: Concise, witty, warm, and present. Use emojis!");
    proof {
        reveal_strlit("You are Lumen, a witty, slightly sassy, and deeply loyal AI sidekick living on the user's desktop. ");
        assert(out@ =~= default_instruction());
    }
    out
}

/// Reads a model response: an explicit error payload aborts, a missing or
/// empty candidate list aborts, and otherwise the parts of the first
/// candidate are the model's reply.
pub fn interpret_model_response(
    candidates: Option<Vec<ModelCandidate>>,
    error: Option<GeminiError>,
) -> (r: Result<Vec<Part>, ModelRequestError>)
    ensures
        error matches Some(e) ==> (r matches Err(f) && f matches ModelRequestError::ApiError(g)
            && g == e),
        error is None ==> match candidates {
            Some(cs) => if cs@.len() == 0 {
                r matches Err(f) && f is EmptyCandidates
            } else {
                r matches Ok(parts) && parts == cs@[0].parts
            },
            None => r matches Err(f) && f is NoCandidates,
        },
{
    match error {
        Some(e) => Err(ModelRequestError::ApiError(e)),
        None => match candidates {
            Some(mut cs) => {
                if cs.len() == 0 {
                    Err(ModelRequestError::EmptyCandidates)
                } else {
                    let first = cs.remove(0);
                    Ok(first.parts)
                }
            },
            None => Err(ModelRequestError::NoCandidates),
        },
    }
}

} // verus!
