//! Deterministic prompt construction: the system prompts for suggestion mode
//! and for chat mode, and the User-role message of a suggestion request. Pure
//! string building — re-derivable from the same inputs, with no I/O and no
//! failure mode.

use vstd::prelude::*;
use vstd::string::StringExecFns;

use crate::parser::OUTPUT_DELIMITER;
use crate::shell::ShellContext;
use crate::shell::SupportedOperatingSystem;

verus! {

/// The system prompt of suggestion mode: a role assertion naming the detected
/// shell and operating system, the machine-parseable output-format
/// instruction built around the reserved delimiter, a one-line description of
/// the two fields, and a worked example, joined by newlines.
pub open spec fn suggestion_prompt_spec(ctx: &ShellContext) -> Seq<char> {
    "You are a command line assistant for "@ + ctx.shell_type.display_seq() + " on "@
        + ctx.os.display_seq() + "."@ + "\n"@ + "Always respond in this format: EXPLANATION"@
        + seq![OUTPUT_DELIMITER] + "COMMAND"@ + "\n"@
        + "\n        where EXPLANATION is one sentence explaining what the command does, and COMMAND is the exact command to run.\n        "@
        + "\n"@ + "Example: 'Shows last 10 commands from history"@ + seq![OUTPUT_DELIMITER]
        + "history 10'"@
}

/// Build the suggestion-mode system prompt for the detected environment.
pub fn get_command_suggestion_prompt(shell_context: &ShellContext) -> (prompt: String)
    ensures
        prompt@ == suggestion_prompt_spec(shell_context),
{
    proof {
        reveal_strlit("\u{A7}");
    }
    let mut prompt = String::from_str("You are a command line assistant for ");
    let shell_name = shell_context.shell_type.display_name();
    prompt.append(shell_name.as_str());
    prompt.append(" on ");
    let os_name = shell_context.os.display_name();
    prompt.append(os_name.as_str());
    prompt.append(".");
    prompt.append("\n");
    prompt.append("Always respond in this format: EXPLANATION");
    prompt.append("\u{A7}");
    prompt.append("COMMAND");
    prompt.append("\n");
    prompt.append(
        "\n        where EXPLANATION is one sentence explaining what the command does, and COMMAND is the exact command to run.\n        ",
    );
    prompt.append("\n");
    prompt.append("Example: 'Shows last 10 commands from history");
    prompt.append("\u{A7}");
    prompt.append("history 10'");
    proof {
        assert("\u{A7}"@ =~= seq![OUTPUT_DELIMITER]);
    }
    prompt
}

/// The system prompt of chat mode: a conversational role naming the operating
/// system and granting latitude to discuss shell commands and terminal
/// concepts in general.
pub open spec fn chat_prompt_spec(os: &SupportedOperatingSystem) -> Seq<char> {
    "You are a helpful command line assistant for "@ + os.display_seq()
        + ". You can help with shell commands, explain terminal concepts, and provide general assistance."@
}

/// Build the chat-mode system prompt for the detected operating system.
pub fn get_chat_prompt(os: &SupportedOperatingSystem) -> (prompt: String)
    ensures
        prompt@ == chat_prompt_spec(os),
{
    let mut prompt = String::from_str("You are a helpful command line assistant for ");
    let os_name = os.display_name();
    prompt.append(os_name.as_str());
    prompt.append(
        ". You can help with shell commands, explain terminal concepts, and provide general assistance.",
    );
    prompt
}

/// The User-role message of a suggestion request: when piped text is present
/// it is prepended as a labeled input-context block; the query follows,
/// labeled, verbatim and unescaped.
pub open spec fn user_message_spec(query: Seq<char>, context: Option<Seq<char>>) -> Seq<char> {
    match context {
        Some(piped) => "Input context:\n"@ + piped + "\n\n"@ + "Query: "@ + query,
        None => "Query: "@ + query,
    }
}

/// Build the User-role message from the query and the optional piped text.
pub fn build_user_message(query: &str, context: Option<&str>) -> (message: String)
    ensures
        message@ == user_message_spec(query@, context.deep_view()),
{
    match context {
        Some(piped) => {
            let mut message = String::from_str("Input context:\n");
            message.append(piped);
            message.append("\n\n");
            message.append("Query: ");
            message.append(query);
            message
        },
        None => {
            let mut message = String::from_str("Query: ");
            message.append(query);
            message
        },
    }
}

} // verus!
