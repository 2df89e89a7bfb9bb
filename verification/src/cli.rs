//! The command line: `ghost <mcp|version|doctor|setup>`, and the report lines
//! that `setup` and `doctor` print.

use vstd::prelude::*;

use crate::text::{decimal, push_decimal, str_equals};

verus! {

/// The subcommands.
#[derive(Debug, Clone, Copy, PartialEq, Eq, Structural)]
pub enum Commands {
    /// Start the MCP server on stdio.
    Mcp,
    /// Print the version.
    Version,
    /// Diagnose the environment.
    Doctor,
    /// Request the permissions Ghost needs.
    Setup,
}

/// A parsed command line.
#[derive(Debug)]
pub struct Cli {
    pub command: Commands,
}

/// Why a command line is refused.
#[derive(Debug)]
pub enum CliError {
    /// No subcommand was given.
    MissingSubcommand,
    /// The first argument names no subcommand.
    UnrecognizedSubcommand(String),
    /// An argument that is no subcommand and not accepted where it stands.
    UnexpectedArgument(String),
    /// Help was asked for (`help`, `-h`, `--help`).
    HelpRequested,
}

/// The mathematical content of a [`CliError`].
pub enum CliErrorView {
    MissingSubcommand,
    UnrecognizedSubcommand(Seq<char>),
    UnexpectedArgument(Seq<char>),
    HelpRequested,
}

impl View for CliError {
    type V = CliErrorView;

    open spec fn view(&self) -> CliErrorView {
        match self {
            CliError::MissingSubcommand => CliErrorView::MissingSubcommand,
            CliError::UnrecognizedSubcommand(s) => CliErrorView::UnrecognizedSubcommand(s@),
            CliError::UnexpectedArgument(s) => CliErrorView::UnexpectedArgument(s@),
            CliError::HelpRequested => CliErrorView::HelpRequested,
        }
    }
}

/// The subcommand an argument names; names are case-sensitive.
pub open spec fn subcommand_named(s: Seq<char>) -> Option<Commands> {
    if s == "mcp"@ {
        Some(Commands::Mcp)
    } else if s == "version"@ {
        Some(Commands::Version)
    } else if s == "doctor"@ {
        Some(Commands::Doctor)
    } else if s == "setup"@ {
        Some(Commands::Setup)
    } else {
        None
    }
}

/// Whether an argument asks for help.
pub open spec fn is_help_flag(s: Seq<char>) -> bool {
    s == "-h"@ || s == "--help"@
}

/// How a command line (program name first) is read: exactly one subcommand must
/// follow the program name, and nothing may follow it but a help flag.
pub open spec fn parse_spec(args: Seq<Seq<char>>) -> Result<Commands, CliErrorView> {
    if args.len() <= 1 {
        Err(CliErrorView::MissingSubcommand)
    } else {
        let first = args[1];
        if is_help_flag(first) || first == "help"@ {
            Err(CliErrorView::HelpRequested)
        } else {
            match subcommand_named(first) {
                None => if first.len() > 0 && first[0] == '-' {
                    Err(CliErrorView::UnexpectedArgument(first))
                } else {
                    Err(CliErrorView::UnrecognizedSubcommand(first))
                },
                Some(c) => if args.len() == 2 {
                    Ok(c)
                } else if is_help_flag(args[2]) {
                    Err(CliErrorView::HelpRequested)
                } else {
                    Err(CliErrorView::UnexpectedArgument(args[2]))
                },
            }
        }
    }
}

/// A command line is accepted exactly when the program name is followed by one
/// subcommand name (matched case-sensitively), and then it selects that subcommand.
pub proof fn lemma_accepts_exactly_one_subcommand(args: Seq<Seq<char>>)
    ensures
        parse_spec(args) is Ok <==> (args.len() == 2 && subcommand_named(args[1]) is Some),
        parse_spec(args) matches Ok(c) ==> subcommand_named(args[1]) == Some(c),
{
    reveal_strlit("mcp");
    reveal_strlit("version");
    reveal_strlit("doctor");
    reveal_strlit("setup");
    reveal_strlit("help");
    reveal_strlit("-h");
    reveal_strlit("--help");
    if args.len() > 1 {
        let first = args[1];
        if subcommand_named(first) is Some {
            assert(!is_help_flag(first) && first != "help"@) by {
                if first == "mcp"@ {
                    assert(first[0] == 'm');
                } else if first == "version"@ {
                    assert(first[0] == 'v');
                } else if first == "doctor"@ {
                    assert(first[0] == 'd');
                } else {
                    assert(first[0] == 's');
                }
            }
        }
    }
}

/// The texts of a list of arguments.
pub open spec fn args_view(args: Seq<&str>) -> Seq<Seq<char>> {
    args.map_values(|a: &str| a@)
}

fn subcommand(s: &str) -> (r: Option<Commands>)
    ensures
        r == subcommand_named(s@),
{
    if str_equals(s, "mcp") {
        Some(Commands::Mcp)
    } else if str_equals(s, "version") {
        Some(Commands::Version)
    } else if str_equals(s, "doctor") {
        Some(Commands::Doctor)
    } else if str_equals(s, "setup") {
        Some(Commands::Setup)
    } else {
        None
    }
}

fn help_flag(s: &str) -> (r: bool)
    ensures
        r == is_help_flag(s@),
{
    str_equals(s, "-h") || str_equals(s, "--help")
}

impl Cli {
    /// Parses a command line whose first item is the program name (see
    /// [`parse_spec`]).
    pub fn try_parse_from(args: &[&str]) -> (r: Result<Cli, CliError>)
        ensures
            match r {
                Ok(cli) => parse_spec(args_view(args@)) == Ok::<Commands, CliErrorView>(cli.command),
                Err(e) => parse_spec(args_view(args@)) == Err::<Commands, CliErrorView>(e@),
            },
    {
        let ghost a = args_view(args@);
        if args.len() <= 1 {
            return Err(CliError::MissingSubcommand);
        }
        let first = args[1];
        assert(a[1] == first@);
        if help_flag(first) || str_equals(first, "help") {
            return Err(CliError::HelpRequested);
        }
        match subcommand(first) {
            None => {
                let n = first.unicode_len();
                if n > 0 && first.get_char(0) == '-' {
                    Err(CliError::UnexpectedArgument(first.to_owned()))
                } else {
                    Err(CliError::UnrecognizedSubcommand(first.to_owned()))
                }
            },
            Some(c) => {
                if args.len() == 2 {
                    Ok(Cli { command: c })
                } else {
                    let next = args[2];
                    assert(a[2] == next@);
                    if help_flag(next) {
                        Err(CliError::HelpRequested)
                    } else {
                        Err(CliError::UnexpectedArgument(next.to_owned()))
                    }
                }
            },
        }
    }
}

/// The line `version` prints.
pub fn version_line(version: &str) -> (r: String)
    ensures
        r@ == "ghost "@ + version@,
{
    let mut out = "ghost ".to_owned();
    out.append(version);
    out
}

// ---------------------------------------------------------------------------
// Report lines
// ---------------------------------------------------------------------------

/// A report line: `[OK]` or a blank box, the label, and the verdict's text.
pub open spec fn status_line_spec(ok: bool, label: Seq<char>, good: Seq<char>, bad: Seq<char>) -> Seq<char> {
    "["@ + (if ok {
        "OK"@
    } else {
        "  "@
    }) + "] "@ + label + ": "@ + (if ok {
        good
    } else {
        bad
    })
}

/// Builds a report line (see [`status_line_spec`]).
pub fn status_line(ok: bool, label: &str, good: &str, bad: &str) -> (r: String)
    ensures
        r@ == status_line_spec(ok, label@, good@, bad@),
{
    let mut out = "[".to_owned();
    out.append(if ok {
        "OK"
    } else {
        "  "
    });
    out.append("] ");
    out.append(label);
    out.append(": ");
    out.append(if ok {
        good
    } else {
        bad
    });
    out
}

/// The permissions Ghost asks for.
#[derive(Debug, Clone, Copy, PartialEq, Eq, Structural)]
pub enum Permission {
    Accessibility,
    ScreenRecording,
    InputMonitoring,
}

/// The name of a permission as System Settings shows it.
pub open spec fn permission_name(p: Permission) -> Seq<char> {
    match p {
        Permission::Accessibility => "Accessibility"@,
        Permission::ScreenRecording => "Screen Recording"@,
        Permission::InputMonitoring => "Input Monitoring"@,
    }
}

fn permission_name_str(p: Permission) -> (r: &'static str)
    ensures
        r@ == permission_name(p),
{
    match p {
        Permission::Accessibility => "Accessibility",
        Permission::ScreenRecording => "Screen Recording",
        Permission::InputMonitoring => "Input Monitoring",
    }
}

/// The heading `setup` prints first (a blank line follows it).
pub const SETUP_HEADING: &'static str = "Ghost Setup — requesting permissions\n";

/// The line `setup` prints once a permission was requested.
pub open spec fn setup_line_spec(p: Permission, granted: bool) -> Seq<char> {
    status_line_spec(
        granted,
        permission_name(p),
        "granted"@,
        "prompt requested — enable Ghost in the pane that opened"@,
    )
}

/// The line `setup` prints once a permission was requested.
pub fn setup_line(p: Permission, granted: bool) -> (r: String)
    ensures
        r@ == setup_line_spec(p, granted),
{
    status_line(
        granted,
        permission_name_str(p),
        "granted",
        "prompt requested — enable Ghost in the pane that opened",
    )
}

/// The closing line of `setup`.
pub open spec fn setup_verdict_spec(ax: bool, screen: bool, input: bool) -> Seq<char> {
    if ax && screen && input {
        "All permissions granted. Ghost is ready."@
    } else {
        "Enable Ghost under System Settings > Privacy & Security for anything not yet granted, then fully restart Ghost (and the MCP client that launched it) for the grant to apply. Verify with: ghost doctor"@
    }
}

/// The closing line of `setup`.
pub fn setup_verdict(ax: bool, screen: bool, input: bool) -> (r: &'static str)
    ensures
        r@ == setup_verdict_spec(ax, screen, input),
{
    if ax && screen && input {
        "All permissions granted. Ghost is ready."
    } else {
        "Enable Ghost under System Settings > Privacy & Security for anything not yet granted, then fully restart Ghost (and the MCP client that launched it) for the grant to apply. Verify with: ghost doctor"
    }
}

/// The heading `doctor` prints first (a blank line follows it).
pub const DOCTOR_HEADING: &'static str = "Ghost Doctor — environment check\n";

/// The line `doctor` prints for the Chrome remote-debugging port.
pub open spec fn chrome_line_spec(ok: bool) -> Seq<char> {
    status_line_spec(
        ok,
        "Chrome remote debugging (port 9222)"@,
        "available"@,
        "not found — launch Chrome with --remote-debugging-port=9222"@,
    )
}

/// The line `doctor` prints for the Chrome remote-debugging port.
pub fn chrome_line(ok: bool) -> (r: String)
    ensures
        r@ == chrome_line_spec(ok),
{
    status_line(
        ok,
        "Chrome remote debugging (port 9222)",
        "available",
        "not found — launch Chrome with --remote-debugging-port=9222",
    )
}

/// The line `doctor` prints for a permission.
pub open spec fn permission_check_line_spec(p: Permission, granted: bool) -> Seq<char> {
    let label = match p {
        Permission::Accessibility => "Accessibility permissions"@,
        Permission::ScreenRecording => "Screen Recording permission"@,
        Permission::InputMonitoring => "Input Monitoring permission"@,
    };
    status_line_spec(
        granted,
        label,
        "granted"@,
        "denied — run `ghost setup`, or grant in System Settings > Privacy & Security > "@
            + permission_name(p),
    )
}

/// The line `doctor` prints for a permission.
pub fn permission_check_line(p: Permission, granted: bool) -> (r: String)
    ensures
        r@ == permission_check_line_spec(p, granted),
{
    let label = match p {
        Permission::Accessibility => "Accessibility permissions",
        Permission::ScreenRecording => "Screen Recording permission",
        Permission::InputMonitoring => "Input Monitoring permission",
    };
    let mut bad = "denied — run `ghost setup`, or grant in System Settings > Privacy & Security > ".to_owned();
    bad.append(permission_name_str(p));
    status_line(granted, label, "granted", bad.as_str())
}

/// The line `doctor` prints for the ShowUI-2B model file at `path`.
pub open spec fn model_line_spec(found: bool, path: Seq<char>) -> Seq<char> {
    status_line_spec(
        found,
        "ShowUI-2B model ("@ + path + ")"@,
        "found"@,
        "not found — download from https://huggingface.co/showlab/ShowUI-2B-ONNX"@,
    )
}

/// The line `doctor` prints for the ShowUI-2B model file at `path`.
pub fn model_line(found: bool, path: &str) -> (r: String)
    ensures
        r@ == model_line_spec(found, path@),
{
    let mut label = "ShowUI-2B model (".to_owned();
    label.append(path);
    label.append(")");
    status_line(
        found,
        label.as_str(),
        "found",
        "not found — download from https://huggingface.co/showlab/ShowUI-2B-ONNX",
    )
}

/// The line `doctor` prints for the recipe store (`count` recipes; 0 when the store
/// cannot be read).
pub open spec fn recipes_line_spec(count: nat) -> Seq<char> {
    "[OK] Recipes: "@ + decimal(count) + " loaded from ~/.ghost/recipes/"@
}

/// The line `doctor` prints for the recipe store.
pub fn recipes_line(count: usize) -> (r: String)
    ensures
        r@ == recipes_line_spec(count as nat),
{
    let mut out = "[OK] Recipes: ".to_owned();
    push_decimal(&mut out, count as u128);
    out.append(" loaded from ~/.ghost/recipes/");
    out
}

/// The closing line of `doctor`: only the three permissions are critical.
pub open spec fn doctor_verdict_spec(ax: bool, screen: bool, input: bool) -> Seq<char> {
    if ax && screen && input {
        "All critical checks passed."@
    } else {
        "Fix the issues above, then rerun: ghost doctor"@
    }
}

/// The closing line of `doctor`.
pub fn doctor_verdict(ax: bool, screen: bool, input: bool) -> (r: &'static str)
    ensures
        r@ == doctor_verdict_spec(ax, screen, input),
{
    if ax && screen && input {
        "All critical checks passed."
    } else {
        "Fix the issues above, then rerun: ghost doctor"
    }
}


/// The texts of a list of lines.
pub open spec fn lines_view(lines: Seq<String>) -> Seq<Seq<char>> {
    lines.map_values(|l: String| l@)
}

/// What `doctor` found: the Chrome debugging port, the three permissions, the model
/// file (and where it was looked for), and the number of recipes loaded.
pub struct DoctorFindings {
    pub chrome: bool,
    pub accessibility: bool,
    pub screen_recording: bool,
    pub input_monitoring: bool,
    pub model_found: bool,
    pub model_path: String,
    pub recipe_count: usize,
}

/// What `doctor` prints, line by line: the heading, the Chrome line, the line of each
/// permission, the model line, the recipes line, a blank line, and the verdict.
pub open spec fn doctor_report_spec(f: DoctorFindings) -> Seq<Seq<char>> {
    seq![
        DOCTOR_HEADING@,
        chrome_line_spec(f.chrome),
        permission_check_line_spec(Permission::Accessibility, f.accessibility),
        permission_check_line_spec(Permission::ScreenRecording, f.screen_recording),
        permission_check_line_spec(Permission::InputMonitoring, f.input_monitoring),
        model_line_spec(f.model_found, f.model_path@),
        recipes_line_spec(f.recipe_count as nat),
        Seq::empty(),
        doctor_verdict_spec(f.accessibility, f.screen_recording, f.input_monitoring),
    ]
}

/// The lines `doctor` prints (see [`doctor_report_spec`]).
pub fn doctor_report(f: &DoctorFindings) -> (lines: Vec<String>)
    ensures
        lines_view(lines@) == doctor_report_spec(*f),
{
    let mut lines: Vec<String> = Vec::new();
    lines.push(DOCTOR_HEADING.to_owned());
    lines.push(chrome_line(f.chrome));
    lines.push(permission_check_line(Permission::Accessibility, f.accessibility));
    lines.push(permission_check_line(Permission::ScreenRecording, f.screen_recording));
    lines.push(permission_check_line(Permission::InputMonitoring, f.input_monitoring));
    lines.push(model_line(f.model_found, f.model_path.as_str()));
    lines.push(recipes_line(f.recipe_count));
    lines.push(String::new());
    lines.push(doctor_verdict(f.accessibility, f.screen_recording, f.input_monitoring).to_owned());
    assert(lines_view(lines@) =~= doctor_report_spec(*f));
    lines
}

} // verus!
