//! The rules the hook scripts run under: which system commands they may
//! run, what the user is asked before, and how outcomes are reported.
use vstd::prelude::*;
use crate::absolute_path::{canon_segs, canonical, is_abs, join_path, join_path_spec, leads};
use crate::text::{join_strings, join_with, owned, texts, trim_text, trimmed};

verus! {

/// The directories a hook script sees.
pub struct Environment {
    /// The temp directory where the template repository is pre-processed.
    pub working_directory: String,
    /// The destination directory where the template repository is copied to.
    pub destination_directory: String,
}

/// A lock that guards the template variables was poisoned.
#[derive(Debug, Clone, Copy, PartialEq, Eq, Structural)]
pub struct PoisonError;

impl PoisonError {
    /// The text of the error.
    pub fn message(&self) -> (r: String)
        ensures
            r@ == "A lock was poisoned"@,
    {
        owned("A lock was poisoned")
    }
}

/// What a hook's request to run a system command leads to.
#[derive(Debug, Clone, Copy, PartialEq, Eq, Structural)]
pub enum CommandGate {
    /// Run it: `--allow-commands` was given.
    Run,
    /// Ask the user first.
    Ask,
    /// Refuse: asking is impossible in silent mode.
    Refuse,
}

/// Commands run when `--allow-commands` is given; otherwise the user must
/// agree first, which silent mode rules out.
pub open spec fn command_gate_spec(allow_commands: bool, silent: bool) -> CommandGate {
    if allow_commands {
        CommandGate::Run
    } else if silent {
        CommandGate::Refuse
    } else {
        CommandGate::Ask
    }
}

/// Decides whether a requested command runs, is asked about or is refused.
pub fn command_gate(allow_commands: bool, silent: bool) -> (r: CommandGate)
    ensures
        r == command_gate_spec(allow_commands, silent),
{
    if allow_commands {
        CommandGate::Run
    } else if silent {
        CommandGate::Refuse
    } else {
        CommandGate::Ask
    }
}

/// The refusal in silent mode.
pub open spec fn silent_refusal_message() -> Seq<char> {
    "Cannot prompt for system command confirmation in silent mode. Use --allow-commands if you want to allow the template to run system commands in silent mode."@
}

pub fn silent_refusal() -> (r: String)
    ensures
        r@ == silent_refusal_message(),
{
    owned(
        "Cannot prompt for system command confirmation in silent mode. Use --allow-commands if you want to allow the template to run system commands in silent mode.",
    )
}

/// The command line shown to the user: the name, then the arguments
/// separated by spaces.
pub open spec fn full_command_spec(name: Seq<char>, args: Seq<Seq<char>>) -> Seq<char> {
    if args.len() == 0 {
        name
    } else {
        name + " "@ + join_with(args, " "@)
    }
}

/// The command line of a requested command.
pub fn full_command(name: &str, args: &Vec<String>) -> (r: String)
    ensures
        r@ == full_command_spec(name@, texts(args@)),
{
    if args.len() == 0 {
        owned(name)
    } else {
        let mut s = owned(name);
        s.append(" ");
        let rest = join_strings(args, " ");
        s.append(rest.as_str());
        s
    }
}

/// The question put to the user before a command runs.
pub open spec fn confirmation_prompt_spec(full_command: Seq<char>) -> Seq<char> {
    "The template is requesting to run the following command. Do you agree?\n"@ + full_command
}

pub fn confirmation_prompt(full_command: &str) -> (r: String)
    ensures
        r@ == confirmation_prompt_spec(full_command@),
{
    let mut s = owned("The template is requesting to run the following command. Do you agree?\n");
    s.append(full_command);
    s
}

/// An answer that clearly agrees: `yes` or `y`, in any case, with white
/// space around it ignored.
pub open spec fn is_affirmative_spec(answer: Seq<char>) -> bool {
    crate::interactive::eq_ignore_ascii_case(trimmed(answer), "yes"@)
        || crate::interactive::eq_ignore_ascii_case(trimmed(answer), "y"@)
}

/// Whether the user's answer agrees to run the command.
pub fn is_affirmative(answer: &str) -> (r: bool)
    ensures
        r == is_affirmative_spec(answer@),
{
    let core = trim_text(answer);
    crate::interactive::eq_ignore_case(core.as_str(), "yes") || crate::interactive::eq_ignore_case(
        core.as_str(),
        "y",
    )
}

/// The error when the user refused a command.
pub open spec fn denied_message_spec(full_command: Seq<char>) -> Seq<char> {
    "User denied execution of system command `"@ + full_command + "`."@
}

pub fn denied_message(full_command: &str) -> (r: String)
    ensures
        r@ == denied_message_spec(full_command@),
{
    let mut s = owned("User denied execution of system command `");
    s.append(full_command);
    s.append("`.");
    s
}

/// The error when a command ran and failed.
pub open spec fn failed_status_spec(full_command: Seq<char>, status: Seq<char>, stderr: Seq<char>) -> Seq<
    char,
> {
    "System command `"@ + full_command + "` returned non-zero status: "@ + status + ", stderr: "@
        + stderr
}

pub fn failed_status_message(full_command: &str, status: &str, stderr: &str) -> (r: String)
    ensures
        r@ == failed_status_spec(full_command@, status@, stderr@),
{
    let mut s = owned("System command `");
    s.append(full_command);
    s.append("` returned non-zero status: ");
    s.append(status);
    s.append(", stderr: ");
    s.append(stderr);
    s
}

/// The error when a command could not be started.
pub open spec fn failed_to_run_spec(full_command: Seq<char>, error: Seq<char>) -> Seq<char> {
    "System command `"@ + full_command + "` failed to execute: "@ + error
}

pub fn failed_to_run_message(full_command: &str, error: &str) -> (r: String)
    ensures
        r@ == failed_to_run_spec(full_command@, error@),
{
    let mut s = owned("System command `");
    s.append(full_command);
    s.append("` failed to execute: ");
    s.append(error);
    s
}

/// The report after a hook script ran: its output when it returned some.
pub open spec fn script_report_spec(script: Seq<char>, output: Seq<char>) -> Seq<char> {
    if output.len() == 0 {
        "Script `"@ + script + "` executed successfully with no output."@
    } else {
        "Script `"@ + script + "` executed successfully and returned output: "@ + output
    }
}

pub fn script_report(script: &str, output: &str) -> (r: String)
    ensures
        r@ == script_report_spec(script@, output@),
{
    let mut s = owned("Script `");
    s.append(script);
    if output.unicode_len() == 0 {
        s.append("` executed successfully with no output.");
    } else {
        s.append("` executed successfully and returned output: ");
        s.append(output);
    }
    s
}

/// The refusal for a path outside the template directory.
pub open spec fn invalid_path_spec(path: Seq<char>) -> Seq<char> {
    "Path must be inside template dir: "@ + path
}

pub fn invalid_path(path: &str) -> (r: String)
    ensures
        r@ == invalid_path_spec(path@),
{
    let mut s = owned("Path must be inside template dir: ");
    s.append(path);
    s
}

/// What a template variable holds, as a hook script sees it.
#[derive(Debug, Clone, Copy, PartialEq, Eq, Structural)]
pub enum ValueKind {
    /// The variable is not set.
    Absent,
    /// A string.
    Text,
    /// A boolean.
    Flag,
    /// A list.
    List,
}

/// How the refusal names the kind of the value a script tried to set.
pub open spec fn kind_phrase(kind: ValueKind) -> Seq<char> {
    match kind {
        ValueKind::Text => "a String"@,
        ValueKind::Flag => "a bool"@,
        ValueKind::List => "an array"@,
        ValueKind::Absent => "set"@,
    }
}

/// The refusal when a script sets `name` to a value of another kind than
/// it holds.
pub open spec fn set_refusal(name: Seq<char>, new: ValueKind) -> Seq<char> {
    "Variable "@ + name + " not "@ + kind_phrase(new)
}

/// Whether a hook script may set the variable `name`, which holds a value
/// of kind `existing`, to a value of kind `new`: only a variable that is
/// unset or holds the same kind may be set.
pub fn variable_set_check(name: &str, existing: ValueKind, new: ValueKind) -> (r: Result<(), String>)
    ensures
        (existing == ValueKind::Absent || existing == new) <==> r is Ok,
        r matches Err(e) ==> e@ == set_refusal(name@, new),
{
    if existing == ValueKind::Absent || existing == new {
        return Ok(());
    }
    let mut s = owned("Variable ");
    s.append(name);
    s.append(" not ");
    match new {
        ValueKind::Text => s.append("a String"),
        ValueKind::Flag => s.append("a bool"),
        ValueKind::List => s.append("an array"),
        ValueKind::Absent => s.append("set"),
    }
    Err(s)
}

/// `path_absolutize::Absolutize::absolutize_virtually`: `path` with `.`
/// and `..` resolved, refused when it leaves the virtual root `root`.
/// The outside function reads the current directory (and fails when that
/// cannot be read), so when it succeeds is not stated. Of an absolute
/// `path` and `root`, the contract claims that a result names the same
/// path as `path`, component by component, and lies under `root`.
#[verifier::external_body]
fn absolutize_virtually(path: &str, root: &str) -> (r: Option<String>)
    ensures
        is_abs(path@) && is_abs(root@) ==> (r matches Some(p) ==> canonical(p@) == canonical(path@)
            && leads(true, canon_segs(root@), true, canon_segs(p@))),
{
    path_absolutize::Absolutize::absolutize_virtually(std::path::Path::new(path), root).ok().and_then(
        |p| p.to_str().map(|s| s.to_string()),
    )
}

/// The absolute path a hook script names: `relative_path` taken inside
/// `base_dir`, which it may not leave. A refusal names the path that was
/// asked for; a result (for an absolute `base_dir`) is the joined path
/// with `.` and `..` resolved, under `base_dir`.
pub fn to_absolute_path(base_dir: &str, relative_path: &str) -> (r: Result<String, String>)
    ensures
        is_abs(base_dir@) ==> (r matches Ok(p) ==> canonical(p@) == canonical(
            join_path_spec(base_dir@, relative_path@),
        ) && leads(true, canon_segs(base_dir@), true, canon_segs(p@))),
        r matches Err(e) ==> e@ == invalid_path_spec(relative_path@),
{
    let joined = join_path(base_dir, relative_path);
    proof {
        if is_abs(base_dir@) {
            assert(is_abs(join_path_spec(base_dir@, relative_path@)));
        }
    }
    match absolutize_virtually(joined.as_str(), base_dir) {
        Some(p) => Ok(p),
        None => Err(invalid_path(relative_path)),
    }
}

} // verus!
