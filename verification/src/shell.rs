//! Shell and operating-system identity: the closed variant sets the assistant
//! can be asked about, their canonical display forms, and the classification
//! of raw environment values into those variants.

use vstd::prelude::*;
use vstd::string::StringExecFns;

use crate::text::contains_lower;
use crate::text::has_substring;
use crate::text::lower_seq;
use crate::text::str_eq;

verus! {

/// The shell the user is working in. Detection is done by the surrounding
/// binary from environment values; a shell that is none of the known ones is
/// kept as `Unknown` together with the raw detected string, for display.
pub enum ShellType {
    Zsh,
    Bash,
    Fish,
    PowerShell,
    Cmd,
    Unknown(String),
}

/// The operating system the assistant tailors its suggestions to. Platforms
/// outside this set are coerced by the caller to `Linux` (a documented
/// approximation, not silent loss).
#[derive(Clone, Copy, PartialEq, Eq, Structural)]
pub enum SupportedOperatingSystem {
    Mac,
    Linux,
    Windows,
}

/// The detected environment a suggestion is built for.
pub struct ShellContext {
    pub shell_type: ShellType,
    pub os: SupportedOperatingSystem,
}

impl ShellType {
    /// The canonical display form, used verbatim in prompts.
    pub open spec fn display_seq(&self) -> Seq<char> {
        match self {
            ShellType::Zsh => "zsh"@,
            ShellType::Bash => "bash"@,
            ShellType::Fish => "fish"@,
            ShellType::PowerShell => "PowerShell"@,
            ShellType::Cmd => "Command Prompt"@,
            ShellType::Unknown(raw) => raw@,
        }
    }

    /// Canonical display form of the shell, as shown in prompts and messages.
    pub fn display_name(&self) -> (name: String)
        ensures
            name@ == self.display_seq(),
    {
        match self {
            ShellType::Zsh => String::from_str("zsh"),
            ShellType::Bash => String::from_str("bash"),
            ShellType::Fish => String::from_str("fish"),
            ShellType::PowerShell => String::from_str("PowerShell"),
            ShellType::Cmd => String::from_str("Command Prompt"),
            ShellType::Unknown(raw) => raw.clone(),
        }
    }
}

impl SupportedOperatingSystem {
    /// The canonical display form, used verbatim in prompts.
    pub open spec fn display_seq(&self) -> Seq<char> {
        match self {
            SupportedOperatingSystem::Mac => "macOS"@,
            SupportedOperatingSystem::Linux => "Linux"@,
            SupportedOperatingSystem::Windows => "Windows"@,
        }
    }

    /// Canonical display form of the operating system.
    pub fn display_name(&self) -> (name: String)
        ensures
            name@ == self.display_seq(),
    {
        match self {
            SupportedOperatingSystem::Mac => String::from_str("macOS"),
            SupportedOperatingSystem::Linux => String::from_str("Linux"),
            SupportedOperatingSystem::Windows => String::from_str("Windows"),
        }
    }

    /// The variant a platform name denotes, or `None` for an unsupported
    /// platform.
    pub open spec fn of_name(name: Seq<char>) -> Option<SupportedOperatingSystem> {
        if name == "macos"@ {
            Some(SupportedOperatingSystem::Mac)
        } else if name == "linux"@ {
            Some(SupportedOperatingSystem::Linux)
        } else if name == "windows"@ {
            Some(SupportedOperatingSystem::Windows)
        } else {
            None
        }
    }

    /// Classify a platform name as reported by the environment. `None` means
    /// an unsupported platform: the caller coerces it to `Linux` after
    /// warning the user — a documented approximation, not silent loss.
    pub fn from_os_name(name: &str) -> (r: Option<SupportedOperatingSystem>)
        ensures
            r == Self::of_name(name@),
    {
        if str_eq(name, "macos") {
            Some(SupportedOperatingSystem::Mac)
        } else if str_eq(name, "linux") {
            Some(SupportedOperatingSystem::Linux)
        } else if str_eq(name, "windows") {
            Some(SupportedOperatingSystem::Windows)
        } else {
            None
        }
    }
}

impl ShellType {
    /// Whether a COMSPEC value names the Windows command prompt.
    pub open spec fn comspec_names_cmd(comspec: Option<Seq<char>>) -> bool {
        comspec matches Some(cs) && has_substring(lower_seq(cs), "cmd.exe"@)
    }

    /// How a shell path (the SHELL environment value) is classified: the
    /// first of zsh, bash, fish whose name occurs in the path, matched
    /// without regard to ASCII case; any other path is kept raw as `Unknown`.
    pub open spec fn classifies_path(r: ShellType, path: Seq<char>) -> bool {
        if has_substring(lower_seq(path), "zsh"@) {
            r == ShellType::Zsh
        } else if has_substring(lower_seq(path), "bash"@) {
            r == ShellType::Bash
        } else if has_substring(lower_seq(path), "fish"@) {
            r == ShellType::Fish
        } else {
            r matches ShellType::Unknown(raw) && raw@ == path
        }
    }

    /// Classify the SHELL environment value.
    pub fn from_shell_path(path: &str) -> (r: ShellType)
        ensures
            Self::classifies_path(r, path@),
    {
        if contains_lower(path, "zsh") {
            ShellType::Zsh
        } else if contains_lower(path, "bash") {
            ShellType::Bash
        } else if contains_lower(path, "fish") {
            ShellType::Fish
        } else {
            ShellType::Unknown(path.to_owned())
        }
    }

    /// The program that runs one command line in this shell; an unknown shell
    /// falls back to plain `sh`.
    pub open spec fn invocation_program(&self) -> Seq<char> {
        match self {
            ShellType::Zsh => "zsh"@,
            ShellType::Bash => "bash"@,
            ShellType::Fish => "fish"@,
            ShellType::PowerShell => "powershell"@,
            ShellType::Cmd => "cmd"@,
            ShellType::Unknown(_) => "sh"@,
        }
    }

    /// The flag that makes that program take the command as one string.
    pub open spec fn invocation_flag(&self) -> Seq<char> {
        match self {
            ShellType::PowerShell => "-Command"@,
            ShellType::Cmd => "/C"@,
            _ => "-c"@,
        }
    }

    /// The program and argument list a suggested command is executed with:
    /// the shell's own program name and its command-string flag, with `sh -c`
    /// as the fallback for an unknown shell.
    pub fn shell_invocation(&self) -> (r: (String, Vec<String>))
        ensures
            r.0@ == self.invocation_program(),
            r.1.deep_view() == seq![self.invocation_flag()],
    {
        let program = match self {
            ShellType::Zsh => String::from_str("zsh"),
            ShellType::Bash => String::from_str("bash"),
            ShellType::Fish => String::from_str("fish"),
            ShellType::PowerShell => String::from_str("powershell"),
            ShellType::Cmd => String::from_str("cmd"),
            ShellType::Unknown(_) => String::from_str("sh"),
        };
        let flag = match self {
            ShellType::PowerShell => String::from_str("-Command"),
            ShellType::Cmd => String::from_str("/C"),
            _ => String::from_str("-c"),
        };
        let mut flags: Vec<String> = Vec::new();
        flags.push(flag);
        proof {
            assert(flags.deep_view() =~= seq![self.invocation_flag()]);
        }
        (program, flags)
    }

    /// Classify the shell from the environment values the surrounding binary
    /// reads: on Windows, a present PSModulePath means PowerShell and a
    /// COMSPEC naming cmd.exe means the command prompt; otherwise the SHELL
    /// path decides, and with no SHELL value at all the assistant assumes
    /// Bash.
    pub fn from_environment(
        windows: bool,
        has_powershell_var: bool,
        comspec: Option<&str>,
        shell_path: Option<&str>,
    ) -> (r: ShellType)
        ensures
            windows && has_powershell_var ==> r == ShellType::PowerShell,
            windows && !has_powershell_var && Self::comspec_names_cmd(comspec.deep_view())
                ==> r == ShellType::Cmd,
            !(windows && has_powershell_var) && !(windows && Self::comspec_names_cmd(
                comspec.deep_view(),
            )) ==> match shell_path {
                Some(path) => Self::classifies_path(r, path@),
                None => r == ShellType::Bash,
            },
    {
        if windows {
            if has_powershell_var {
                return ShellType::PowerShell;
            }
            if let Some(cs) = comspec {
                if contains_lower(cs, "cmd.exe") {
                    return ShellType::Cmd;
                }
            }
        }
        match shell_path {
            Some(path) => Self::from_shell_path(path),
            None => ShellType::Bash,
        }
    }
}

impl Default for ShellContext {
    /// The fallback identities assumed when environment detection reports
    /// nothing usable: a Bash shell on Linux.
    fn default() -> (ctx: Self)
        ensures
            ctx.shell_type == ShellType::Bash,
            ctx.os == SupportedOperatingSystem::Linux,
    {
        ShellContext { shell_type: ShellType::Bash, os: SupportedOperatingSystem::Linux }
    }
}

} // verus!
