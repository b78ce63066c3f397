use commandlm::chat::Role;
use commandlm::shell::ShellContext;
use commandlm::shell::ShellType;
use commandlm::shell::SupportedOperatingSystem;
use commandlm::suggest::build_suggestion_request;
use commandlm::suggest::CHAT_TEMPERATURE_TENTHS;
use commandlm::suggest::SUGGESTION_MAX_TOKENS;
use commandlm::suggest::SUGGESTION_TEMPERATURE_TENTHS;

#[test]
fn test_build_suggestion_request_shape() {
    let ctx = ShellContext {
        shell_type: ShellType::Bash,
        os: SupportedOperatingSystem::Linux,
    };
    let request = build_suggestion_request(&ctx, "list files", None);
    assert_eq!(request.model, "gpt-4o-mini");
    assert_eq!(request.temperature_tenths, 3);
    assert_eq!(request.max_tokens, Some(150));
    assert_eq!(request.messages.len(), 2);
    assert!(matches!(request.messages[0].role, Role::System));
    assert!(matches!(request.messages[1].role, Role::User));
    assert_eq!(request.messages[1].text, "Query: list files");
}

#[test]
fn test_build_suggestion_request_with_piped_context() {
    let ctx = ShellContext {
        shell_type: ShellType::Zsh,
        os: SupportedOperatingSystem::Mac,
    };
    let request = build_suggestion_request(&ctx, "commit my changes", Some("branch: main"));
    assert!(request.messages[1].text.contains("branch: main"));
    assert!(request.messages[1].text.contains("commit my changes"));
    assert_eq!(request.messages[1].text, "Input context:\nbranch: main\n\nQuery: commit my changes");
}

#[test]
fn test_sampling_constants() {
    // Suggestion mode favours determinism, chat mode variety.
    assert!(SUGGESTION_TEMPERATURE_TENTHS < CHAT_TEMPERATURE_TENTHS);
    assert_eq!(SUGGESTION_TEMPERATURE_TENTHS, 3);
    assert_eq!(CHAT_TEMPERATURE_TENTHS, 7);
    assert_eq!(SUGGESTION_MAX_TOKENS, 150);
}
