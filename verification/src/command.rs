//! The description of one CLI invocation and how the requested output
//! format decides the way its output is read.

use vstd::prelude::*;
use crate::argv::{opt_text, push_opt_value};

verus! {

/// How the output of an invocation is interpreted.
#[derive(Clone, Copy, Debug, PartialEq, Eq, Structural)]
pub enum OutputMode {
    /// Parse stdout as JSON and hand it back as structured content.
    Json,
    /// Parse stdout as JSON and re-encode it as TOON text.
    JsonToToon,
    /// Stdout already is TOON text.
    Toon,
    /// Stdout is plain text.
    Text,
}

/// One invocation of the wrapped CLI.
#[derive(Clone, Debug, PartialEq, Eq)]
pub struct CommandSpec {
    /// Arguments after the program path (a profile prefix is added by the runner).
    pub args: Vec<String>,
    /// Text written to the subprocess's stdin; `None` means stdin is closed.
    pub stdin: Option<String>,
    /// How stdout is interpreted.
    pub output_mode: OutputMode,
    /// Per-call profile, taking precedence over the runner's default.
    pub profile_override: Option<String>,
    /// Whether the request asked for stealth mode: the runner then jitters
    /// and paces the call whatever its own stealth setting is.
    pub stealth: bool,
}

/// The mathematical content of a [`CommandSpec`].
pub struct SpecCommand {
    pub args: Seq<Seq<char>>,
    pub stdin: Option<Seq<char>>,
    pub output_mode: OutputMode,
    pub profile_override: Option<Seq<char>>,
    pub stealth: bool,
}

impl View for CommandSpec {
    type V = SpecCommand;

    open spec fn view(&self) -> SpecCommand {
        SpecCommand {
            args: self.args.deep_view(),
            stdin: self.stdin.deep_view(),
            output_mode: self.output_mode,
            profile_override: self.profile_override.deep_view(),
            stealth: self.stealth,
        }
    }
}

/// An invocation with no stdin, no profile override and no stealth request.
pub open spec fn plain_command(args: Seq<Seq<char>>, output_mode: OutputMode) -> SpecCommand {
    SpecCommand { args, stdin: None, output_mode, profile_override: None, stealth: false }
}

/// The output mode a requested `format` selects: TOON when none is given.
pub open spec fn format_mode(format: Option<Seq<char>>) -> OutputMode {
    match format {
        None => OutputMode::Toon,
        Some(f) => if f == "toon"@ {
            OutputMode::Toon
        } else if f == "json"@ || f == "compact"@ {
            OutputMode::Json
        } else if f == "pretty"@ || f == "markdown"@ || f == "csv"@ {
            OutputMode::Text
        } else {
            OutputMode::Json
        },
    }
}

/// The `--format` value handed to the CLI: the requested one, or `toon`
/// when none was requested and the output is read as TOON.
pub open spec fn cli_format(format: Option<Seq<char>>, mode: OutputMode) -> Option<Seq<char>> {
    match format {
        Some(f) => Some(f),
        None => if mode == OutputMode::Toon { Some("toon"@) } else { None },
    }
}

/// An invocation with no stdin, no profile override and no stealth request.
pub fn command_spec(args: Vec<String>, output_mode: OutputMode) -> (spec: CommandSpec)
    ensures
        spec@ == plain_command(args.deep_view(), output_mode),
{
    CommandSpec { args, stdin: None, output_mode, profile_override: None, stealth: false }
}

/// The output mode for a requested format.
pub fn output_mode_for_format(format: Option<&str>) -> (mode: OutputMode)
    ensures
        mode == format_mode(format.deep_view()),
{
    match format {
        None => OutputMode::Toon,
        Some(f) => {
            if crate::text::str_eq(f, "toon") {
                OutputMode::Toon
            } else if crate::text::str_eq(f, "json") || crate::text::str_eq(f, "compact") {
                OutputMode::Json
            } else if crate::text::str_eq(f, "pretty") || crate::text::str_eq(f, "markdown")
                || crate::text::str_eq(f, "csv") {
                OutputMode::Text
            } else {
                OutputMode::Json
            }
        },
    }
}

/// The output mode for an optional owned format string.
pub fn mode_of_format(format: &Option<String>) -> (mode: OutputMode)
    ensures
        mode == format_mode(format.deep_view()),
{
    match format {
        None => output_mode_for_format(None),
        Some(f) => output_mode_for_format(Some(f.as_str())),
    }
}

/// Appends `--format` with the value [`cli_format`] selects.
pub fn push_cli_format(argv: &mut crate::argv::ArgList, format: Option<String>, output_mode: OutputMode)
    ensures
        final(argv)@ == old(argv)@ + opt_text(
            "--format"@,
            cli_format(format.deep_view(), output_mode),
        ),
{
    let cli_format = match format {
        Some(format) => Some(format),
        None => match output_mode {
            OutputMode::Toon => Some(crate::text::lit("toon")),
            _ => None,
        },
    };
    push_opt_value(argv, "--format", cli_format);
}

} // verus!
