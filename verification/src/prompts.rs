//! Prompt and outbound message construction: the fixed ranking and
//! synthesis prompts, and the JSON bodies posted to members and to the
//! chairman. The texts are built by concatenation alone, so each
//! function's result is pinned character for character.

use vstd::prelude::*;

use crate::text::{dbg_quote_of, debug_quote, dec_digits, usize_to_decimal};

verus! {

pub const RANK_HEAD: &'static str = "\n        You are evaluating different responses to the following question:\n\n        Question ";

pub const RANK_MID: &'static str = " \n            \n        Here are the responses from different models (anonymized):\n        \n        ";

pub const RANK_TAIL: &'static str = " \n    \n        \n        Your task:\n        1. First, evaluate each response individually. For each response, explain what it does well and what it does poorly.\n        2. Then, at the very end of your response, provide a final ranking.\n\n        IMPORTANT: Your final ranking MUST be formatted EXACTLY as follows:\n        - Start with the line \"FINAL RANKING:\" (all caps, with colon)\n        - Then list the responses from best to worst as a numbered list\n        - Each line should be: number, period, space, then ONLY the response label (e.g., \"1. Response A\")\n        - Do not add any other text or explanations in the ranking section\n\n        Example of the correct format for your ENTIRE response:\n\n        Response A provides good detail on X but misses Y...\n        Response B is accurate but lacks depth on Z...\n        Response C offers the most comprehensive answer...\n\n        FINAL RANKING:\n        1. Response C\n        2. Response A\n        3. Response B\n\n        Now provide your evaluation and ranking:\n        ";

pub const CHAIR_HEAD: &'static str = "\n        You are the Chairman of an LLM Council. Multiple AI models have provided responses to a user's question, and then ranked each other's responses.\n\n        Original Question ";

pub const CHAIR_MID1: &'static str = " \n\n        STAGE 1 - Individual Responses:\n        ";

pub const CHAIR_MID2: &'static str = "\n\n        STAGE 2 - Peer Rankings:\n        ";

pub const CHAIR_TAIL: &'static str = "\n\n        Your task as Chairman is to synthesize all of this information into a single, comprehensive, accurate answer to the user's original question. Consider:\n        - The individual responses and their insights\n        - The peer rankings and what they reveal about response quality\n        - Any patterns of agreement or disagreement\n\n        Provide a clear, well-reasoned final answer that represents the council's collective wisdom:\n\n        ";

pub const MSG_MODEL: &'static str = "{ \"model\": \"";

pub const MSG_CONTENT_QUOTED: &'static str = "\", \"messages\": [{\"role\": \"user\", \"content\": \"";

pub const MSG_CONTENT_RAW: &'static str = "\", \"messages\": [{\"role\": \"user\", \"content\": ";

pub const MSG_MAX_TOKENS: &'static str = "\" }], \"max_tokens\": ";

pub const MSG_END: &'static str = " }";

pub const MSG_RANK_END: &'static str = " }], \"max_tokens\": 16384 }";

pub const MSG_CHAIR_END: &'static str = " }] }";

/// The fixed ranking-instruction prompt: embeds the debug-quoted original
/// question and the debug-quoted merged initial responses.
pub open spec fn spec_ranking_prompt(prompt: Seq<char>, initial_merged: Seq<char>) -> Seq<char> {
    RANK_HEAD@ + dbg_quote_of(prompt) + RANK_MID@ + dbg_quote_of(initial_merged) + RANK_TAIL@
}

/// Builds the ranking-stage prompt.
pub fn build_ranking_prompt(prompt: &str, initial_merged: &str) -> (r: String)
    ensures
        r@ == spec_ranking_prompt(prompt@, initial_merged@),
{
    let mut s = String::from_str(RANK_HEAD);
    s.append(debug_quote(prompt).as_str());
    s.append(RANK_MID);
    s.append(debug_quote(initial_merged).as_str());
    s.append(RANK_TAIL);
    s
}

/// The synthesis prompt for the chairman: embeds the debug-quoted
/// question, merged initial responses, and merged peer rankings.
pub open spec fn spec_chairman_prompt(
    prompt: Seq<char>,
    initial_merged: Seq<char>,
    ranking_merged: Seq<char>,
) -> Seq<char> {
    CHAIR_HEAD@ + dbg_quote_of(prompt) + CHAIR_MID1@ + dbg_quote_of(initial_merged) + CHAIR_MID2@
        + dbg_quote_of(ranking_merged) + CHAIR_TAIL@
}

/// Builds the chairman synthesis prompt.
pub fn build_chairman_prompt(prompt: &str, initial_merged: &str, ranking_merged: &str) -> (r:
    String)
    ensures
        r@ == spec_chairman_prompt(prompt@, initial_merged@, ranking_merged@),
{
    let mut s = String::from_str(CHAIR_HEAD);
    s.append(debug_quote(prompt).as_str());
    s.append(CHAIR_MID1);
    s.append(debug_quote(initial_merged).as_str());
    s.append(CHAIR_MID2);
    s.append(debug_quote(ranking_merged).as_str());
    s.append(CHAIR_TAIL);
    s
}

/// The JSON body of an initial-stage member call: the raw prompt text is
/// inserted unquoted, and `max_tokens` is rendered in decimal.
pub open spec fn spec_member_message(
    model: Seq<char>,
    prompt: Seq<char>,
    max_tokens: nat,
) -> Seq<char> {
    MSG_MODEL@ + model + MSG_CONTENT_QUOTED@ + prompt + MSG_MAX_TOKENS@ + dec_digits(max_tokens)
        + MSG_END@
}

/// Builds the JSON body of an initial-stage member call.
pub fn build_member_message(model: &str, prompt: &str, max_tokens: usize) -> (r: String)
    ensures
        r@ == spec_member_message(model@, prompt@, max_tokens as nat),
{
    let mut s = String::from_str(MSG_MODEL);
    s.append(model);
    s.append(MSG_CONTENT_QUOTED);
    s.append(prompt);
    s.append(MSG_MAX_TOKENS);
    s.append(usize_to_decimal(max_tokens).as_str());
    s.append(MSG_END);
    s
}

/// The JSON body of a ranking-stage member call: the stage prompt is
/// embedded debug-quoted, with a fixed token budget.
pub open spec fn spec_ranking_message(model: Seq<char>, stage_prompt: Seq<char>) -> Seq<char> {
    MSG_MODEL@ + model + MSG_CONTENT_RAW@ + dbg_quote_of(stage_prompt) + MSG_RANK_END@
}

/// Builds the JSON body of a ranking-stage member call.
pub fn build_ranking_message(model: &str, stage_prompt: &str) -> (r: String)
    ensures
        r@ == spec_ranking_message(model@, stage_prompt@),
{
    let mut s = String::from_str(MSG_MODEL);
    s.append(model);
    s.append(MSG_CONTENT_RAW);
    s.append(debug_quote(stage_prompt).as_str());
    s.append(MSG_RANK_END);
    s
}

/// The JSON body of the chairman call: the stage prompt is embedded
/// debug-quoted; no token budget is attached.
pub open spec fn spec_chairman_message(model: Seq<char>, stage_prompt: Seq<char>) -> Seq<char> {
    MSG_MODEL@ + model + MSG_CONTENT_RAW@ + dbg_quote_of(stage_prompt) + MSG_CHAIR_END@
}

/// Builds the JSON body of the chairman call.
pub fn build_chairman_message(model: &str, stage_prompt: &str) -> (r: String)
    ensures
        r@ == spec_chairman_message(model@, stage_prompt@),
{
    let mut s = String::from_str(MSG_MODEL);
    s.append(model);
    s.append(MSG_CONTENT_RAW);
    s.append(debug_quote(stage_prompt).as_str());
    s.append(MSG_CHAIR_END);
    s
}

} // verus!
