use commandlm::prompt::build_user_message;
use commandlm::prompt::get_chat_prompt;
use commandlm::prompt::get_command_suggestion_prompt;
use commandlm::shell::ShellContext;
use commandlm::shell::ShellType;
use commandlm::shell::SupportedOperatingSystem;

#[test]
fn test_suggestion_prompt_golden() {
    let ctx = ShellContext {
        shell_type: ShellType::Bash,
        os: SupportedOperatingSystem::Linux,
    };
    let expected = "You are a command line assistant for bash on Linux.\n\
                    Always respond in this format: EXPLANATION\u{A7}COMMAND\n\
                    \n        where EXPLANATION is one sentence explaining what the command does, \
                    and COMMAND is the exact command to run.\n        \n\
                    Example: 'Shows last 10 commands from history\u{A7}history 10'";
    assert_eq!(get_command_suggestion_prompt(&ctx), expected);
}

#[test]
fn test_suggestion_prompt_names_unknown_shell() {
    let ctx = ShellContext {
        shell_type: ShellType::Unknown("nushell".to_string()),
        os: SupportedOperatingSystem::Mac,
    };
    let prompt = get_command_suggestion_prompt(&ctx);
    assert!(prompt.starts_with("You are a command line assistant for nushell on macOS."));
}

#[test]
fn test_suggestion_prompt_deterministic() {
    let ctx = ShellContext {
        shell_type: ShellType::Zsh,
        os: SupportedOperatingSystem::Mac,
    };
    assert_eq!(get_command_suggestion_prompt(&ctx), get_command_suggestion_prompt(&ctx));
}

#[test]
fn test_chat_prompt_golden() {
    let prompt = get_chat_prompt(&SupportedOperatingSystem::Mac);
    assert_eq!(
        prompt,
        "You are a helpful command line assistant for macOS. You can help with shell commands, \
         explain terminal concepts, and provide general assistance."
    );
}

#[test]
fn test_user_message_includes_context_and_query() {
    let message = build_user_message("commit my changes", Some("branch: main\nstatus: clean"));
    assert!(message.contains("branch: main\nstatus: clean"));
    assert!(message.contains("commit my changes"));
    assert_eq!(
        message,
        "Input context:\nbranch: main\nstatus: clean\n\nQuery: commit my changes"
    );
}

#[test]
fn test_user_message_without_context() {
    let message = build_user_message("list files", None);
    assert_eq!(message, "Query: list files");
}
