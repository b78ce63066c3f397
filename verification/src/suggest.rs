//! Assembly of completion requests: the one-shot suggestion request — two
//! messages, low temperature, a hard token cap — and the chat-turn request
//! that replays the whole transcript at a higher temperature. The transport
//! that carries a request to the completion endpoint lives outside the
//! library; it receives plain values from here and hands the returned text to
//! the response parser.

use vstd::prelude::*;
use vstd::string::StringExecFns;

use crate::chat::ChatSession;
use crate::chat::Role;
use crate::chat::Turn;
use crate::prompt::build_user_message;
use crate::prompt::get_command_suggestion_prompt;
use crate::prompt::suggestion_prompt_spec;
use crate::prompt::user_message_spec;
use crate::shell::ShellContext;

verus! {

/// Sampling temperature of suggestion mode, in tenths: low, favouring a
/// deterministic one-line answer.
pub const SUGGESTION_TEMPERATURE_TENTHS: u8 = 3;

/// Sampling temperature of chat mode, in tenths: higher, favouring
/// conversational variety.
pub const CHAT_TEMPERATURE_TENTHS: u8 = 7;

/// Hard cap on generated tokens in suggestion mode: the desired output is one
/// short sentence plus one shell line, so a larger budget only wastes latency.
pub const SUGGESTION_MAX_TOKENS: u16 = 150;

/// The model identifier named in every request.
pub open spec fn model_name_spec() -> Seq<char> {
    "gpt-4o-mini"@
}

/// The model identifier named in every request.
pub fn model_name() -> (name: String)
    ensures
        name@ == model_name_spec(),
{
    String::from_str("gpt-4o-mini")
}

/// Everything a completion call needs, as plain values: the model, the
/// ordered role-tagged messages, the sampling temperature in tenths of one
/// (the library holds no fractional numbers; the transport divides by ten),
/// and the optional cap on generated tokens.
pub struct CompletionRequest {
    pub model: String,
    pub messages: Vec<Turn>,
    pub temperature_tenths: u8,
    pub max_tokens: Option<u16>,
}

/// Assemble the one-shot suggestion request: exactly two messages — the
/// suggestion-mode System prompt for the detected environment, and the User
/// message holding the optional piped context block and the query verbatim —
/// at low temperature, with the token cap.
pub fn build_suggestion_request(
    shell_context: &ShellContext,
    query: &str,
    context: Option<&str>,
) -> (req: CompletionRequest)
    ensures
        req.model@ == model_name_spec(),
        req.temperature_tenths == SUGGESTION_TEMPERATURE_TENTHS,
        req.max_tokens == Some(SUGGESTION_MAX_TOKENS),
        req.messages@.len() == 2,
        req.messages@[0].role == Role::System,
        req.messages@[0].text@ == suggestion_prompt_spec(shell_context),
        req.messages@[1].role == Role::User,
        req.messages@[1].text@ == user_message_spec(query@, context.deep_view()),
{
    let system = get_command_suggestion_prompt(shell_context);
    let user = build_user_message(query, context);
    let mut messages: Vec<Turn> = Vec::new();
    messages.push(Turn { role: Role::System, text: system });
    messages.push(Turn { role: Role::User, text: user });
    CompletionRequest {
        model: model_name(),
        messages,
        temperature_tenths: SUGGESTION_TEMPERATURE_TENTHS,
        max_tokens: Some(SUGGESTION_MAX_TOKENS),
    }
}

fn clone_turns(turns: &Vec<Turn>) -> (r: Vec<Turn>)
    ensures
        r@ == turns@,
{
    let mut r: Vec<Turn> = Vec::new();
    let mut i: usize = 0;
    while i < turns.len()
        invariant
            i <= turns@.len(),
            r@ == turns@.subrange(0, i as int),
        decreases turns@.len() - i,
    {
        let t = &turns[i];
        r.push(Turn { role: t.role, text: t.text.clone() });
        proof {
            assert(r@ =~= turns@.subrange(0, i + 1));
        }
        i = i + 1;
    }
    proof {
        assert(r@ =~= turns@);
    }
    r
}

/// Assemble the request for the chat turn just submitted: the entire
/// transcript so far — full history, not a sliding window, so follow-up
/// questions keep their context — at the chat temperature, with no local
/// token cap.
pub fn build_chat_request(session: &ChatSession) -> (req: CompletionRequest)
    ensures
        req.model@ == model_name_spec(),
        req.temperature_tenths == CHAT_TEMPERATURE_TENTHS,
        req.max_tokens is None,
        req.messages@ == session.transcript_view(),
{
    CompletionRequest {
        model: model_name(),
        messages: clone_turns(session.transcript()),
        temperature_tenths: CHAT_TEMPERATURE_TENTHS,
        max_tokens: None,
    }
}

} // verus!
