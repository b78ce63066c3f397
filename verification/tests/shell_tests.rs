use commandlm::shell::ShellContext;
use commandlm::shell::ShellType;
use commandlm::shell::SupportedOperatingSystem;

#[test]
fn test_shell_type_display() {
    assert_eq!(ShellType::Bash.display_name(), "bash");
    assert_eq!(ShellType::Zsh.display_name(), "zsh");
    assert_eq!(ShellType::Fish.display_name(), "fish");
    assert_eq!(ShellType::PowerShell.display_name(), "PowerShell");
    assert_eq!(ShellType::Cmd.display_name(), "Command Prompt");
    assert_eq!(ShellType::Unknown("custom".to_string()).display_name(), "custom");
}

#[test]
fn test_os_display() {
    assert_eq!(SupportedOperatingSystem::Mac.display_name(), "macOS");
    assert_eq!(SupportedOperatingSystem::Linux.display_name(), "Linux");
    assert_eq!(SupportedOperatingSystem::Windows.display_name(), "Windows");
}

#[test]
fn test_shell_context_default() {
    let context = ShellContext::default();
    // Ensure shell_type and os are populated
    assert!(!context.shell_type.display_name().is_empty());
    assert!(!context.os.display_name().is_empty());
}

#[test]
fn test_from_os_name_supported() {
    assert!(matches!(
        SupportedOperatingSystem::from_os_name("macos"),
        Some(SupportedOperatingSystem::Mac)
    ));
    assert!(matches!(
        SupportedOperatingSystem::from_os_name("linux"),
        Some(SupportedOperatingSystem::Linux)
    ));
    assert!(matches!(
        SupportedOperatingSystem::from_os_name("windows"),
        Some(SupportedOperatingSystem::Windows)
    ));
}

#[test]
fn test_from_os_name_unsupported() {
    assert!(SupportedOperatingSystem::from_os_name("freebsd").is_none());
    assert!(SupportedOperatingSystem::from_os_name("").is_none());
    assert!(SupportedOperatingSystem::from_os_name("Linux").is_none());
}

#[test]
fn test_from_shell_path_known_shells() {
    assert!(matches!(ShellType::from_shell_path("/usr/bin/zsh"), ShellType::Zsh));
    assert!(matches!(ShellType::from_shell_path("/bin/bash"), ShellType::Bash));
    assert!(matches!(ShellType::from_shell_path("/usr/local/bin/fish"), ShellType::Fish));
}

#[test]
fn test_from_shell_path_ignores_ascii_case() {
    assert!(matches!(ShellType::from_shell_path("/BIN/ZSH"), ShellType::Zsh));
    assert!(matches!(ShellType::from_shell_path("C:\\Tools\\Bash.exe"), ShellType::Bash));
}

#[test]
fn test_from_shell_path_unknown_keeps_raw_path() {
    let shell = ShellType::from_shell_path("/opt/weird/nushell");
    match shell {
        ShellType::Unknown(raw) => assert_eq!(raw, "/opt/weird/nushell"),
        _ => panic!("expected an unknown shell"),
    }
}

#[test]
fn test_from_environment_windows_powershell() {
    let shell = ShellType::from_environment(true, true, Some("C:\\WINDOWS\\system32\\cmd.exe"), None);
    assert!(matches!(shell, ShellType::PowerShell));
}

#[test]
fn test_from_environment_windows_cmd() {
    let shell = ShellType::from_environment(true, false, Some("C:\\WINDOWS\\system32\\CMD.EXE"), None);
    assert!(matches!(shell, ShellType::Cmd));
}

#[test]
fn test_from_environment_shell_path_decides() {
    let shell = ShellType::from_environment(false, false, None, Some("/usr/bin/zsh"));
    assert!(matches!(shell, ShellType::Zsh));
}

#[test]
fn test_from_environment_defaults_to_bash() {
    let shell = ShellType::from_environment(false, false, None, None);
    assert!(matches!(shell, ShellType::Bash));
}

#[test]
fn test_shell_invocation_mapping() {
    let (program, flags) = ShellType::PowerShell.shell_invocation();
    assert_eq!(program, "powershell");
    assert_eq!(flags, vec!["-Command".to_string()]);

    let (program, flags) = ShellType::Cmd.shell_invocation();
    assert_eq!(program, "cmd");
    assert_eq!(flags, vec!["/C".to_string()]);

    let (program, flags) = ShellType::Unknown("nushell".to_string()).shell_invocation();
    assert_eq!(program, "sh");
    assert_eq!(flags, vec!["-c".to_string()]);
}
