//! The command-line surface: either one positional free-text query, the
//! `chat` subcommand for interactive mode, or nothing (the caller then prints
//! usage help). Asking for help or for the version is reported as a distinct
//! outcome, as is any argument outside this grammar.

use vstd::prelude::*;
use vstd::string::StrSliceExecFns;

use crate::text::str_eq;

verus! {

/// The parsed command line.
pub struct Cli {
    /// The subcommand, when one was given.
    pub command: Option<Commands>,
    /// The positional free-text query, when one was given.
    pub query: Option<String>,
}

/// The subcommands of the tool.
#[derive(Clone, Copy, PartialEq, Eq, Structural, Debug)]
pub enum Commands {
    /// Interactive chat mode.
    Chat,
}

/// Why a command line was not accepted.
#[derive(Clone, Copy, PartialEq, Eq, Structural, Debug)]
pub enum CliError {
    /// Help was asked for: the caller prints usage text and stops.
    HelpRequested,
    /// The version was asked for: the caller prints it and stops.
    VersionRequested,
    /// An argument outside the grammar: a stray flag or more than one
    /// positional value.
    UnexpectedArgument,
}

/// Whether an argument asks for help.
pub open spec fn is_help_flag(a: Seq<char>) -> bool {
    a == "--help"@ || a == "-h"@
}

/// Whether an argument asks for the version.
pub open spec fn is_version_flag(a: Seq<char>) -> bool {
    a == "--version"@ || a == "-V"@
}

/// The arguments after the leading binary name.
pub open spec fn arg_tail(args: Seq<Seq<char>>) -> Seq<Seq<char>> {
    if args.len() == 0 {
        args
    } else {
        args.drop_first()
    }
}

/// The command-line grammar, over the arguments after the binary name: a help
/// flag anywhere wins, then a version flag anywhere; otherwise no argument
/// parses to nothing, the single word "chat" to the chat subcommand, and any
/// other single non-flag value to the query. Everything else is unexpected.
pub open spec fn parse_args_spec(t: Seq<Seq<char>>) -> Result<
    (Option<Commands>, Option<Seq<char>>),
    CliError,
> {
    if exists|i: int| 0 <= i < t.len() && is_help_flag(#[trigger] t[i]) {
        Err(CliError::HelpRequested)
    } else if exists|i: int| 0 <= i < t.len() && is_version_flag(#[trigger] t[i]) {
        Err(CliError::VersionRequested)
    } else if t.len() == 0 {
        Ok((None, None))
    } else if t.len() == 1 && t[0] == "chat"@ {
        Ok((Some(Commands::Chat), None))
    } else if t.len() == 1 && (t[0].len() == 0 || t[0][0] != '-') {
        Ok((None, Some(t[0])))
    } else {
        Err(CliError::UnexpectedArgument)
    }
}

impl Cli {
    /// Parse a full argument vector, whose first element is the binary name.
    /// Total: every vector parses to a `Cli` or to the exact `CliError` the
    /// grammar gives it.
    pub fn try_parse_from(args: Vec<String>) -> (r: Result<Cli, CliError>)
        ensures
            match r {
                Ok(cli) => parse_args_spec(arg_tail(args.deep_view())) == Ok::<
                    (Option<Commands>, Option<Seq<char>>),
                    CliError,
                >((cli.command, cli.query.deep_view())),
                Err(e) => parse_args_spec(arg_tail(args.deep_view())) == Err::<
                    (Option<Commands>, Option<Seq<char>>),
                    CliError,
                >(e),
            },
    {
        let ghost dv = args.deep_view();
        let ghost t = arg_tail(dv);
        proof {
            assert(forall|j: int| 0 <= j < t.len() ==> #[trigger] t[j] == dv[j + 1]);
        }
        let n = args.len();
        if n == 0 {
            return Ok(Cli { command: None, query: None });
        }
        let mut i: usize = 1;
        let mut help = false;
        let mut version = false;
        while i < n
            invariant
                1 <= i <= n,
                n == args@.len(),
                dv == args.deep_view(),
                help <==> exists|j: int| 1 <= j < i && is_help_flag(#[trigger] dv[j]),
                version <==> exists|j: int| 1 <= j < i && is_version_flag(#[trigger] dv[j]),
            decreases n - i,
        {
            let a = &args[i];
            if str_eq(a.as_str(), "--help") || str_eq(a.as_str(), "-h") {
                proof {
                    assert(is_help_flag(dv[i as int]));
                }
                help = true;
            }
            if str_eq(a.as_str(), "--version") || str_eq(a.as_str(), "-V") {
                proof {
                    assert(is_version_flag(dv[i as int]));
                }
                version = true;
            }
            i = i + 1;
        }
        proof {
            assert((exists|j: int| 1 <= j < dv.len() && is_help_flag(#[trigger] dv[j])) <==> (
            exists|j: int| 0 <= j < t.len() && is_help_flag(#[trigger] t[j]))) by {
                if exists|j: int| 1 <= j < dv.len() && is_help_flag(#[trigger] dv[j]) {
                    let j = choose|j: int| 1 <= j < dv.len() && is_help_flag(#[trigger] dv[j]);
                    assert(is_help_flag(t[j - 1]));
                }
                if exists|j: int| 0 <= j < t.len() && is_help_flag(#[trigger] t[j]) {
                    let j = choose|j: int| 0 <= j < t.len() && is_help_flag(#[trigger] t[j]);
                    assert(is_help_flag(dv[j + 1]));
                }
            }
            assert((exists|j: int| 1 <= j < dv.len() && is_version_flag(#[trigger] dv[j])) <==> (
            exists|j: int| 0 <= j < t.len() && is_version_flag(#[trigger] t[j]))) by {
                if exists|j: int| 1 <= j < dv.len() && is_version_flag(#[trigger] dv[j]) {
                    let j = choose|j: int| 1 <= j < dv.len() && is_version_flag(#[trigger] dv[j]);
                    assert(is_version_flag(t[j - 1]));
                }
                if exists|j: int| 0 <= j < t.len() && is_version_flag(#[trigger] t[j]) {
                    let j = choose|j: int| 0 <= j < t.len() && is_version_flag(#[trigger] t[j]);
                    assert(is_version_flag(dv[j + 1]));
                }
            }
        }
        if help {
            return Err(CliError::HelpRequested);
        }
        if version {
            return Err(CliError::VersionRequested);
        }
        if n == 1 {
            return Ok(Cli { command: None, query: None });
        }
        if n == 2 {
            let a = &args[1];
            if str_eq(a.as_str(), "chat") {
                return Ok(Cli { command: Some(Commands::Chat), query: None });
            }
            if a.as_str().unicode_len() == 0 || a.as_str().get_char(0) != '-' {
                return Ok(Cli { command: None, query: Some(a.clone()) });
            }
            return Err(CliError::UnexpectedArgument);
        }
        Err(CliError::UnexpectedArgument)
    }
}

} // verus!
