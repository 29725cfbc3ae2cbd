//! What the workflows share: how the answers of git are read, which
//! questions are put to it, how the lines of a report are worded, and what a
//! prompt accepts.

use crate::text::{blank, join, push_word, trim, trimmed};
use crate::workflow::{
    result_view, Action, ActionView, CommandOutput, CommandOutputView, Mode, Style,
};
use colored::Colorize;
use vstd::prelude::*;

pub mod doctor;
pub mod merge;
pub mod rebase;
pub mod reset;
pub mod squash;

verus! {

/// The message for a git that could not be started, for whatever `reason`.
pub open spec fn spawn_failure(reason: Seq<char>) -> Seq<char> {
    "❌ Failed to execute git command: "@ + reason
}

/// What a captured run of git gives: its output, whatever its exit status,
/// or the message that it could not be started.
pub open spec fn git_output(outcome: Result<CommandOutputView, Seq<char>>) -> Result<
    CommandOutputView,
    Seq<char>,
> {
    match outcome {
        Ok(output) => Ok(output),
        Err(reason) => Err(spawn_failure(reason)),
    }
}

/// What a run of git on the terminal gives: nothing, or the message that it
/// could not be started or that it failed.
pub open spec fn git_success(outcome: Result<CommandOutputView, Seq<char>>) -> Result<
    (),
    Seq<char>,
> {
    match outcome {
        Ok(output) => if output.success {
            Ok(())
        } else {
            Err("❌ Git command failed"@)
        },
        Err(reason) => Err(spawn_failure(reason)),
    }
}

/// What the status query says of the working tree: clean exactly when its
/// output is empty once trimmed.
pub open spec fn tree_is_clean(outcome: Result<CommandOutputView, Seq<char>>) -> Result<
    bool,
    Seq<char>,
> {
    match outcome {
        Ok(output) => Ok(trimmed(output.stdout).len() == 0),
        Err(reason) => Err(spawn_failure(reason)),
    }
}

/// What the query for the symbolic HEAD says: the branch's short name, or a
/// failure where HEAD is detached or cannot be resolved.
pub open spec fn current_branch(outcome: Result<CommandOutputView, Seq<char>>) -> Result<
    Seq<char>,
    Seq<char>,
> {
    match outcome {
        Ok(output) => if output.success {
            Ok(trimmed(output.stdout))
        } else {
            Err("❌ Failed to get current branch"@)
        },
        Err(reason) => Err(spawn_failure(reason)),
    }
}

/// What the query for a branch's upstream says: whether it resolved.
pub open spec fn upstream_known(outcome: Result<CommandOutputView, Seq<char>>) -> bool {
    outcome matches Ok(output) && output.success
}

/// The request to run git with `args` and capture what it says.
pub open spec fn git_query(args: Seq<Seq<char>>) -> ActionView {
    ActionView::Run { program: "git"@, args, mode: Mode::Capture }
}

/// The request to run git with `args` on the user's terminal.
pub open spec fn git_command(args: Seq<Seq<char>>) -> ActionView {
    ActionView::Run { program: "git"@, args, mode: Mode::Inherit }
}

/// The arguments of the status query.
pub open spec fn status_args() -> Seq<Seq<char>> {
    seq!["status"@, "--porcelain"@]
}

/// The arguments of the query for the current branch.
pub open spec fn branch_args() -> Seq<Seq<char>> {
    seq!["symbolic-ref"@, "--short"@, "HEAD"@]
}

/// The arguments of the query for the upstream of `branch`.
pub open spec fn upstream_args(branch: Seq<char>) -> Seq<Seq<char>> {
    seq!["rev-parse"@, "--abbrev-ref"@, branch + "@{u}"@]
}

/// The message for a working tree that is not clean, when about to do
/// `doing`.
pub open spec fn dirty_tree(doing: Seq<char>) -> Seq<char> {
    "❌ Your working directory is not clean. Please commit, stash, or reset changes before "@
        + doing + "."@
}

/// The message for a prompt for text that gave no answer.
pub open spec fn input_failure(reason: Seq<char>) -> Seq<char> {
    "❌ Failed to get input: "@ + reason
}

/// The message for a prompt for a decision that gave no answer.
pub open spec fn confirmation_failure(reason: Seq<char>) -> Seq<char> {
    "❌ Failed to get confirmation: "@ + reason
}

/// The line that reports the success `msg`.
pub open spec fn success_line(msg: Seq<char>) -> Seq<char> {
    "✅ "@ + msg
}

/// The line that reports the error `msg`.
pub open spec fn error_line(msg: Seq<char>) -> Seq<char> {
    "❌ "@ + msg
}

/// The line that gives the warning `msg`.
pub open spec fn warning_line(msg: Seq<char>) -> Seq<char> {
    "⚠️  "@ + msg
}

/// The line that gives the information `msg`.
pub open spec fn info_line(msg: Seq<char>) -> Seq<char> {
    "🔧 "@ + msg
}

/// The escape character, with which every control sequence begins.
pub open spec fn escape() -> char {
    '\u{1b}'
}

/// `line` between the control sequence that selects the graphic rendition
/// `code` and the one that resets it.
pub open spec fn painted(code: Seq<char>, line: Seq<char>) -> Seq<char> {
    seq![escape(), '['] + code + seq!['m'] + line + seq![escape(), '[', '0', 'm']
}

/// Whether `shown` is `line` as a terminal is given it: in the colour of
/// `code` where colours are in use, bare where they are not. Of a line that
/// holds an escape character nothing is said.
pub open spec fn shows(shown: Seq<char>, code: Seq<char>, line: Seq<char>) -> bool {
    !line.contains(escape()) ==> shown == line || shown == painted(code, line)
}

/// The line that `style` makes of `text`, before any colour.
pub open spec fn styled_line(style: Style, text: Seq<char>) -> Seq<char> {
    match style {
        Style::Plain => text,
        Style::Alert => text,
        Style::Success => success_line(text),
        Style::Error => error_line(text),
        Style::Warning => warning_line(text),
        Style::Info => info_line(text),
    }
}

/// What a prompt makes of an answer.
#[derive(Debug, PartialEq, Eq)]
pub enum Validation {
    /// The answer is taken.
    Valid,
    /// The answer is refused, and the user is told why.
    Invalid(String),
}

/// Reads the outcome of a captured run of git.
pub fn exec_git(outcome: Result<CommandOutput, String>) -> (r: Result<CommandOutput, String>)
    ensures
        result_view(r) == git_output(result_view(outcome)),
{
    match outcome {
        Ok(output) => Ok(output),
        Err(reason) => Err(join("❌ Failed to execute git command: ", reason.as_str())),
    }
}

/// Reads the outcome of a run of git on the terminal.
pub fn exec_git_interactive(outcome: Result<CommandOutput, String>) -> (r: Result<(), String>)
    ensures
        result_view(r) == git_success(result_view(outcome)),
{
    match outcome {
        Ok(output) => if output.success {
            Ok(())
        } else {
            Err(String::from_str("❌ Git command failed"))
        },
        Err(reason) => Err(join("❌ Failed to execute git command: ", reason.as_str())),
    }
}

/// Reads the outcome of the status query: whether the working tree is clean.
pub fn is_working_directory_clean(outcome: Result<CommandOutput, String>) -> (r: Result<
    bool,
    String,
>)
    ensures
        result_view(r) == tree_is_clean(result_view(outcome)),
{
    match exec_git(outcome) {
        Ok(output) => Ok(blank(output.stdout.as_str())),
        Err(failure) => Err(failure),
    }
}

/// Reads the outcome of the query for the symbolic HEAD: the current branch.
pub fn get_current_branch(outcome: Result<CommandOutput, String>) -> (r: Result<String, String>)
    ensures
        result_view(r) == current_branch(result_view(outcome)),
{
    match exec_git(outcome) {
        Ok(output) => if output.success {
            Ok(trim(output.stdout.as_str()))
        } else {
            Err(String::from_str("❌ Failed to get current branch"))
        },
        Err(failure) => Err(failure),
    }
}

/// Reads the outcome of the query for a branch's upstream: whether it has
/// one. A git that could not be started counts as none.
pub fn has_upstream(outcome: Result<CommandOutput, String>) -> (r: bool)
    ensures
        r == upstream_known(result_view(outcome)),
{
    match outcome {
        Ok(output) => output.success,
        Err(_) => false,
    }
}

/// The request to run git with `args` and capture what it says.
pub fn query(args: Vec<String>) -> (action: Action)
    ensures
        action@ == git_query(args.deep_view()),
{
    Action::Run { program: String::from_str("git"), args, mode: Mode::Capture }
}

/// The request to run git with `args` on the user's terminal.
pub fn command(args: Vec<String>) -> (action: Action)
    ensures
        action@ == git_command(args.deep_view()),
{
    Action::Run { program: String::from_str("git"), args, mode: Mode::Inherit }
}

/// The status query.
pub fn status_query() -> (action: Action)
    ensures
        action@ == git_query(status_args()),
{
    let mut args: Vec<String> = Vec::new();
    push_word(&mut args, "status");
    push_word(&mut args, "--porcelain");
    assert(args.deep_view() =~= status_args());
    query(args)
}

/// The query for the current branch.
pub fn branch_query() -> (action: Action)
    ensures
        action@ == git_query(branch_args()),
{
    let mut args: Vec<String> = Vec::new();
    push_word(&mut args, "symbolic-ref");
    push_word(&mut args, "--short");
    push_word(&mut args, "HEAD");
    assert(args.deep_view() =~= branch_args());
    query(args)
}

/// The query for the upstream of `branch`.
pub fn upstream_query(branch: &str) -> (action: Action)
    ensures
        action@ == git_query(upstream_args(branch@)),
{
    let mut args: Vec<String> = Vec::new();
    push_word(&mut args, "rev-parse");
    push_word(&mut args, "--abbrev-ref");
    push_word(&mut args, join(branch, "@{u}").as_str());
    assert(args.deep_view() =~= upstream_args(branch@));
    query(args)
}

/// The message for a working tree that is not clean, when about to do
/// `doing`.
pub fn dirty_tree_failure(doing: &str) -> (r: String)
    ensures
        r@ == dirty_tree(doing@),
{
    let mut r = String::from_str(
        "❌ Your working directory is not clean. Please commit, stash, or reset changes before ",
    );
    r.append(doing);
    r.append(".");
    r
}

/// `Colorize::green` of the crate colored, written out by the `Display` of
/// what it returns: `line` in green where colours are in use (which the
/// process's surroundings and the crate's override decide), bare where they
/// are not.
#[verifier::external_body]
fn green(line: &str) -> (shown: String)
    ensures
        shows(shown@, "32"@, line@),
{
    line.green().to_string()
}

/// `Colorize::red` of the crate colored, written out by the `Display` of
/// what it returns: `line` in red where colours are in use, bare where they
/// are not.
#[verifier::external_body]
fn red(line: &str) -> (shown: String)
    ensures
        shows(shown@, "31"@, line@),
{
    line.red().to_string()
}

/// `Colorize::yellow` of the crate colored, written out by the `Display` of
/// what it returns: `line` in yellow where colours are in use, bare where
/// they are not.
#[verifier::external_body]
fn yellow(line: &str) -> (shown: String)
    ensures
        shows(shown@, "33"@, line@),
{
    line.yellow().to_string()
}

/// `Colorize::cyan` of the crate colored, written out by the `Display` of
/// what it returns: `line` in cyan where colours are in use, bare where they
/// are not.
#[verifier::external_body]
fn cyan(line: &str) -> (shown: String)
    ensures
        shows(shown@, "36"@, line@),
{
    line.cyan().to_string()
}

/// The line that reports the success `msg`, as the terminal is to show it.
pub fn print_success(msg: &str) -> (shown: String)
    ensures
        shows(shown@, "32"@, success_line(msg@)),
{
    green(join("✅ ", msg).as_str())
}

/// The line that reports the error `msg`, as the terminal is to show it.
pub fn print_error(msg: &str) -> (shown: String)
    ensures
        shows(shown@, "31"@, error_line(msg@)),
{
    red(join("❌ ", msg).as_str())
}

/// The line that gives the warning `msg`, as the terminal is to show it.
pub fn print_warning(msg: &str) -> (shown: String)
    ensures
        shows(shown@, "33"@, warning_line(msg@)),
{
    yellow(join("⚠️  ", msg).as_str())
}

/// The line that gives the information `msg`, as the terminal is to show it.
pub fn print_info(msg: &str) -> (shown: String)
    ensures
        shows(shown@, "36"@, info_line(msg@)),
{
    cyan(join("🔧 ", msg).as_str())
}

/// The colour code of `style`, if it has a colour.
pub open spec fn style_code(style: Style) -> Option<Seq<char>> {
    match style {
        Style::Plain => None,
        Style::Alert => None,
        Style::Success => Some("32"@),
        Style::Error => Some("31"@),
        Style::Warning => Some("33"@),
        Style::Info => Some("36"@),
    }
}

/// `text` in `style`, as the terminal is to show it.
pub fn render(style: Style, text: &str) -> (shown: String)
    ensures
        match style_code(style) {
            Some(code) => shows(shown@, code, styled_line(style, text@)),
            None => shown@ == text@,
        },
{
    match style {
        Style::Plain => String::from_str(text),
        Style::Alert => String::from_str(text),
        Style::Success => print_success(text),
        Style::Error => print_error(text),
        Style::Warning => print_warning(text),
        Style::Info => print_info(text),
    }
}

/// Whether a line in `style` goes to standard error: the alerts and the
/// errors do, the rest goes to standard output.
pub fn on_stderr(style: Style) -> (r: bool)
    ensures
        r == (style == Style::Alert || style == Style::Error),
{
    match style {
        Style::Alert => true,
        Style::Error => true,
        _ => false,
    }
}

/// Accepts `input` unless trimming leaves nothing of it; refuses it with
/// `complaint` otherwise.
pub fn validate_required(input: &str, complaint: &str) -> (verdict: Validation)
    ensures
        match verdict {
            Validation::Valid => trimmed(input@).len() > 0,
            Validation::Invalid(said) => trimmed(input@).len() == 0 && said@ == complaint@,
        },
{
    if blank(input) {
        Validation::Invalid(String::from_str(complaint))
    } else {
        Validation::Valid
    }
}

} // verus!
