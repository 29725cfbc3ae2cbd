//! Doctor: a health check of what gix leans on, one check after the other.
//!
//! Two checks are gates: without git, and outside a repository, the doctor
//! stops with a failure. What the other checks find is reported and the
//! doctor goes on.

use crate::commands::{
    branch_args, branch_query, current_branch, error_line, get_current_branch, git_query,
    is_working_directory_clean, query, status_args, status_query, tree_is_clean,
};
use crate::text::{join, push_word, trim, trimmed};
use crate::workflow::{
    finish, lemma_finished_for_good, mutates, result_view, say, state_at, Action, ActionView,
    CommandOutputView, Event, EventView, Machine, Mode, Style, Workflow,
};
use vstd::prelude::*;

verus! {

/// Where the doctor stands.
#[derive(Debug, PartialEq, Eq)]
pub enum DoctorState {
    /// Telling the user that the checks begin.
    Greet,
    /// Asking the Rust compiler for its version.
    CheckRust,
    /// Reporting the compiler's version.
    RustFound { version: String },
    /// Reporting that there is no compiler.
    RustMissing,
    /// Asking git for its version: the first gate.
    CheckGit,
    /// Reporting git's version.
    GitFound { version: String },
    /// Asking git whether this is a work tree: the second gate.
    CheckRepo,
    /// Reporting that this is a repository.
    RepoFound,
    /// Asking git whether the working tree is clean.
    CheckTree,
    /// Reporting a clean working tree.
    TreeClean,
    /// Reporting a working tree with changes.
    TreeDirty,
    /// Asking git for the remotes.
    CheckRemotes,
    /// Reporting the remotes.
    RemotesFound { remotes: String },
    /// Reporting that there is no remote.
    RemotesNone,
    /// Reporting that the remotes could not be asked for.
    RemotesUnknown,
    /// Asking git for the current branch.
    FindBranch,
    /// Reporting the branch.
    BranchFound { branch: String },
    /// Reporting that the branch could not be found.
    BranchUnknown,
    /// Telling the user that the checks are over.
    Farewell,
    /// Over.
    Done { result: Result<(), String> },
}

/// The view of a [`DoctorState`].
pub enum DoctorStateView {
    Greet,
    CheckRust,
    RustFound { version: Seq<char> },
    RustMissing,
    CheckGit,
    GitFound { version: Seq<char> },
    CheckRepo,
    RepoFound,
    CheckTree,
    TreeClean,
    TreeDirty,
    CheckRemotes,
    RemotesFound { remotes: Seq<char> },
    RemotesNone,
    RemotesUnknown,
    FindBranch,
    BranchFound { branch: Seq<char> },
    BranchUnknown,
    Farewell,
    Done { result: Result<(), Seq<char>> },
}

impl View for DoctorState {
    type V = DoctorStateView;

    open spec fn view(&self) -> DoctorStateView {
        match *self {
            DoctorState::Greet => DoctorStateView::Greet,
            DoctorState::CheckRust => DoctorStateView::CheckRust,
            DoctorState::RustFound { version } => DoctorStateView::RustFound { version: version@ },
            DoctorState::RustMissing => DoctorStateView::RustMissing,
            DoctorState::CheckGit => DoctorStateView::CheckGit,
            DoctorState::GitFound { version } => DoctorStateView::GitFound { version: version@ },
            DoctorState::CheckRepo => DoctorStateView::CheckRepo,
            DoctorState::RepoFound => DoctorStateView::RepoFound,
            DoctorState::CheckTree => DoctorStateView::CheckTree,
            DoctorState::TreeClean => DoctorStateView::TreeClean,
            DoctorState::TreeDirty => DoctorStateView::TreeDirty,
            DoctorState::CheckRemotes => DoctorStateView::CheckRemotes,
            DoctorState::RemotesFound { remotes } => DoctorStateView::RemotesFound {
                remotes: remotes@,
            },
            DoctorState::RemotesNone => DoctorStateView::RemotesNone,
            DoctorState::RemotesUnknown => DoctorStateView::RemotesUnknown,
            DoctorState::FindBranch => DoctorStateView::FindBranch,
            DoctorState::BranchFound { branch } => DoctorStateView::BranchFound { branch: branch@ },
            DoctorState::BranchUnknown => DoctorStateView::BranchUnknown,
            DoctorState::Farewell => DoctorStateView::Farewell,
            DoctorState::Done { result } => DoctorStateView::Done { result: result_view(result) },
        }
    }
}

/// The failure of the first gate: there is no git to run.
pub open spec fn git_missing() -> Seq<char> {
    error_line("Git not found in PATH"@)
}

/// The failure of the second gate: this is no repository.
pub open spec fn repo_missing() -> Seq<char> {
    error_line("Not inside a Git repository"@)
}

/// The arguments that ask a program for its version.
pub open spec fn version_args() -> Seq<Seq<char>> {
    seq!["--version"@]
}

/// The arguments of the query whether this is a work tree.
pub open spec fn work_tree_args() -> Seq<Seq<char>> {
    seq!["rev-parse"@, "--is-inside-work-tree"@]
}

/// The arguments of the query for the remotes.
pub open spec fn remotes_args() -> Seq<Seq<char>> {
    seq!["remote"@]
}

/// The state in which the doctor begins.
pub open spec fn doctor_start() -> DoctorStateView {
    DoctorStateView::Greet
}

/// The state of a doctor that stopped with `failure`.
pub open spec fn doctor_failed(failure: Seq<char>) -> DoctorStateView {
    DoctorStateView::Done { result: Err(failure) }
}

/// The request to print the success `text`.
pub open spec fn success(text: Seq<char>) -> ActionView {
    ActionView::Print { style: Style::Success, text }
}

/// The request to print the warning `text`.
pub open spec fn warning(text: Seq<char>) -> ActionView {
    ActionView::Print { style: Style::Warning, text }
}

/// The request to print `text` as it is.
pub open spec fn plain(text: Seq<char>) -> ActionView {
    ActionView::Print { style: Style::Plain, text }
}

impl Workflow for DoctorStateView {
    open spec fn request(self) -> ActionView {
        match self {
            DoctorStateView::Greet => plain("🩺 Running gix health check...\n"@),
            DoctorStateView::CheckRust => ActionView::Run {
                program: "rustc"@,
                args: version_args(),
                mode: Mode::Capture,
            },
            DoctorStateView::RustFound { version } => success("Rust version: "@ + version),
            DoctorStateView::RustMissing => warning(
                "Rust compiler not found (but gix is running)"@,
            ),
            DoctorStateView::CheckGit => git_query(version_args()),
            DoctorStateView::GitFound { version } => success("Git installed: "@ + version),
            DoctorStateView::CheckRepo => git_query(work_tree_args()),
            DoctorStateView::RepoFound => success("Inside a Git repository"@),
            DoctorStateView::CheckTree => git_query(status_args()),
            DoctorStateView::TreeClean => success("Working directory is clean"@),
            DoctorStateView::TreeDirty => warning("Working directory has uncommitted changes"@),
            DoctorStateView::CheckRemotes => git_query(remotes_args()),
            DoctorStateView::RemotesFound { remotes } => success(
                "Remote(s) configured: "@ + remotes,
            ),
            DoctorStateView::RemotesNone => warning("No Git remotes configured"@),
            DoctorStateView::RemotesUnknown => warning("Failed to check remotes"@),
            DoctorStateView::FindBranch => git_query(branch_args()),
            DoctorStateView::BranchFound { branch } => plain("📍 Current branch: "@ + branch),
            DoctorStateView::BranchUnknown => warning("Failed to get current branch"@),
            DoctorStateView::Farewell => plain("\n🧩 Done."@),
            DoctorStateView::Done { result } => ActionView::Finish { result },
        }
    }

    open spec fn next(self, event: EventView) -> DoctorStateView {
        match self {
            DoctorStateView::Greet => match event {
                EventView::Printed => DoctorStateView::CheckRust,
                _ => self,
            },
            DoctorStateView::CheckRust => match event {
                EventView::Ran(Ok(output)) => DoctorStateView::RustFound {
                    version: trimmed(output.stdout),
                },
                EventView::Ran(Err(_)) => DoctorStateView::RustMissing,
                _ => self,
            },
            DoctorStateView::RustFound { .. } => match event {
                EventView::Printed => DoctorStateView::CheckGit,
                _ => self,
            },
            DoctorStateView::RustMissing => match event {
                EventView::Printed => DoctorStateView::CheckGit,
                _ => self,
            },
            DoctorStateView::CheckGit => match event {
                EventView::Ran(Ok(output)) => DoctorStateView::GitFound {
                    version: trimmed(output.stdout),
                },
                EventView::Ran(Err(_)) => doctor_failed(git_missing()),
                _ => self,
            },
            DoctorStateView::GitFound { .. } => match event {
                EventView::Printed => DoctorStateView::CheckRepo,
                _ => self,
            },
            DoctorStateView::CheckRepo => match event {
                EventView::Ran(Ok(output)) => if output.success {
                    DoctorStateView::RepoFound
                } else {
                    doctor_failed(repo_missing())
                },
                EventView::Ran(Err(_)) => doctor_failed(repo_missing()),
                _ => self,
            },
            DoctorStateView::RepoFound => match event {
                EventView::Printed => DoctorStateView::CheckTree,
                _ => self,
            },
            DoctorStateView::CheckTree => match event {
                EventView::Ran(outcome) => match tree_is_clean(outcome) {
                    Ok(true) => DoctorStateView::TreeClean,
                    Ok(false) => DoctorStateView::TreeDirty,
                    Err(failure) => doctor_failed(failure),
                },
                _ => self,
            },
            DoctorStateView::TreeClean => match event {
                EventView::Printed => DoctorStateView::CheckRemotes,
                _ => self,
            },
            DoctorStateView::TreeDirty => match event {
                EventView::Printed => DoctorStateView::CheckRemotes,
                _ => self,
            },
            DoctorStateView::CheckRemotes => match event {
                EventView::Ran(Ok(output)) => if trimmed(output.stdout).len() > 0 {
                    DoctorStateView::RemotesFound { remotes: trimmed(output.stdout) }
                } else {
                    DoctorStateView::RemotesNone
                },
                EventView::Ran(Err(_)) => DoctorStateView::RemotesUnknown,
                _ => self,
            },
            DoctorStateView::RemotesFound { .. } => match event {
                EventView::Printed => DoctorStateView::FindBranch,
                _ => self,
            },
            DoctorStateView::RemotesNone => match event {
                EventView::Printed => DoctorStateView::FindBranch,
                _ => self,
            },
            DoctorStateView::RemotesUnknown => match event {
                EventView::Printed => DoctorStateView::FindBranch,
                _ => self,
            },
            DoctorStateView::FindBranch => match event {
                EventView::Ran(outcome) => match current_branch(outcome) {
                    Ok(branch) => DoctorStateView::BranchFound { branch },
                    Err(_) => DoctorStateView::BranchUnknown,
                },
                _ => self,
            },
            DoctorStateView::BranchFound { .. } => match event {
                EventView::Printed => DoctorStateView::Farewell,
                _ => self,
            },
            DoctorStateView::BranchUnknown => match event {
                EventView::Printed => DoctorStateView::Farewell,
                _ => self,
            },
            DoctorStateView::Farewell => match event {
                EventView::Printed => DoctorStateView::Done { result: Ok(()) },
                _ => self,
            },
            DoctorStateView::Done { .. } => self,
        }
    }

    open spec fn progress(self) -> nat {
        match self {
            DoctorStateView::Greet => 0,
            DoctorStateView::CheckRust => 1,
            DoctorStateView::RustFound { .. } => 2,
            DoctorStateView::RustMissing => 2,
            DoctorStateView::CheckGit => 3,
            DoctorStateView::GitFound { .. } => 4,
            DoctorStateView::CheckRepo => 5,
            DoctorStateView::RepoFound => 6,
            DoctorStateView::CheckTree => 7,
            DoctorStateView::TreeClean => 8,
            DoctorStateView::TreeDirty => 8,
            DoctorStateView::CheckRemotes => 9,
            DoctorStateView::RemotesFound { .. } => 10,
            DoctorStateView::RemotesNone => 10,
            DoctorStateView::RemotesUnknown => 10,
            DoctorStateView::FindBranch => 11,
            DoctorStateView::BranchFound { .. } => 12,
            DoctorStateView::BranchUnknown => 12,
            DoctorStateView::Farewell => 13,
            DoctorStateView::Done { .. } => 14,
        }
    }

    proof fn lemma_never_back(self, event: EventView) {
    }

    proof fn lemma_finish_is_final(self, event: EventView) {
    }
}

/// The doctor only looks: no state of it asks for a command on the
/// terminal.
pub proof fn lemma_doctor_only_looks(state: DoctorStateView)
    ensures
        !mutates(state.request()),
{
}

/// Without git the doctor stops at the first gate. Where git cannot be
/// started, the doctor ends at once with the failure that says so: no check
/// comes after it.
pub proof fn lemma_doctor_stops_without_git(
    events: Seq<EventView>,
    k: nat,
    reason: Seq<char>,
    n: nat,
)
    requires
        k < events.len(),
        state_at(doctor_start(), events, k) == DoctorStateView::CheckGit,
        events[k as int] == EventView::Ran(Err(reason)),
        k < n <= events.len(),
    ensures
        state_at(doctor_start(), events, n) == doctor_failed(git_missing()),
        state_at(doctor_start(), events, n).request() == (ActionView::Finish {
            result: Err(git_missing()),
        }),
{
    assert(state_at(doctor_start(), events, k + 1) == doctor_failed(git_missing()));
    lemma_finished_for_good(doctor_start(), events, k + 1, n);
}

/// Outside a repository the doctor stops at the second gate. Where git
/// does not confirm a work tree, be it that it says no or that it cannot be
/// started, the doctor ends at once with the failure that says so.
pub proof fn lemma_doctor_stops_outside_repository(
    events: Seq<EventView>,
    k: nat,
    outcome: Result<CommandOutputView, Seq<char>>,
    n: nat,
)
    requires
        k < events.len(),
        state_at(doctor_start(), events, k) == DoctorStateView::CheckRepo,
        events[k as int] == EventView::Ran(outcome),
        !(outcome matches Ok(output) && output.success),
        k < n <= events.len(),
    ensures
        state_at(doctor_start(), events, n) == doctor_failed(repo_missing()),
{
    assert(state_at(doctor_start(), events, k + 1) == doctor_failed(repo_missing()));
    lemma_finished_for_good(doctor_start(), events, k + 1, n);
}

/// A repository without remotes is worth a warning and no more. Where git
/// names no remote, the doctor asks for the warning to be printed, and once
/// it is, goes on to the next check.
pub proof fn lemma_doctor_warns_without_remotes(
    events: Seq<EventView>,
    k: nat,
    output: CommandOutputView,
)
    requires
        k < events.len(),
        state_at(doctor_start(), events, k) == DoctorStateView::CheckRemotes,
        events[k as int] == EventView::Ran(Ok(output)),
        trimmed(output.stdout).len() == 0,
    ensures
        state_at(doctor_start(), events, k + 1).request() == warning("No Git remotes configured"@),
        state_at(doctor_start(), events, k + 1).next(EventView::Printed).request() == git_query(
            branch_args(),
        ),
{
}

/// Begins the checks.
pub fn execute() -> (state: DoctorState)
    ensures
        state@ == doctor_start(),
{
    DoctorState::Greet
}

/// The state of a doctor that stopped with `failure`.
fn failed(failure: String) -> (state: DoctorState)
    ensures
        state@ == doctor_failed(failure@),
{
    DoctorState::Done { result: Err(failure) }
}

/// The request to ask `program` for its version.
fn version_query(program: &str) -> (action: Action)
    ensures
        action@ == (ActionView::Run {
            program: program@,
            args: version_args(),
            mode: Mode::Capture,
        }),
{
    let mut args: Vec<String> = Vec::new();
    push_word(&mut args, "--version");
    assert(args.deep_view() =~= version_args());
    Action::Run { program: String::from_str(program), args, mode: Mode::Capture }
}

impl Machine for DoctorState {
    fn action(&self) -> (action: Action)
        ensures
            action@ == self@.request(),
    {
        match self {
            DoctorState::Greet => say(Style::Plain, "🩺 Running gix health check...\n"),
            DoctorState::CheckRust => version_query("rustc"),
            DoctorState::RustFound { version } => say(
                Style::Success,
                join("Rust version: ", version.as_str()).as_str(),
            ),
            DoctorState::RustMissing => say(
                Style::Warning,
                "Rust compiler not found (but gix is running)",
            ),
            DoctorState::CheckGit => version_query("git"),
            DoctorState::GitFound { version } => say(
                Style::Success,
                join("Git installed: ", version.as_str()).as_str(),
            ),
            DoctorState::CheckRepo => {
                let mut words: Vec<String> = Vec::new();
                push_word(&mut words, "rev-parse");
                push_word(&mut words, "--is-inside-work-tree");
                assert(words.deep_view() =~= work_tree_args());
                query(words)
            },
            DoctorState::RepoFound => say(Style::Success, "Inside a Git repository"),
            DoctorState::CheckTree => status_query(),
            DoctorState::TreeClean => say(Style::Success, "Working directory is clean"),
            DoctorState::TreeDirty => say(
                Style::Warning,
                "Working directory has uncommitted changes",
            ),
            DoctorState::CheckRemotes => {
                let mut words: Vec<String> = Vec::new();
                push_word(&mut words, "remote");
                assert(words.deep_view() =~= remotes_args());
                query(words)
            },
            DoctorState::RemotesFound { remotes } => say(
                Style::Success,
                join("Remote(s) configured: ", remotes.as_str()).as_str(),
            ),
            DoctorState::RemotesNone => say(Style::Warning, "No Git remotes configured"),
            DoctorState::RemotesUnknown => say(Style::Warning, "Failed to check remotes"),
            DoctorState::FindBranch => branch_query(),
            DoctorState::BranchFound { branch } => say(
                Style::Plain,
                join("📍 Current branch: ", branch.as_str()).as_str(),
            ),
            DoctorState::BranchUnknown => say(Style::Warning, "Failed to get current branch"),
            DoctorState::Farewell => say(Style::Plain, "\n🧩 Done."),
            DoctorState::Done { result } => finish(result),
        }
    }

    fn advance(self, event: Event) -> (state: DoctorState)
        ensures
            state@ == self@.next(event@),
    {
        match self {
            DoctorState::Greet => match event {
                Event::Printed => DoctorState::CheckRust,
                _ => DoctorState::Greet,
            },
            DoctorState::CheckRust => match event {
                Event::Ran(Ok(output)) => DoctorState::RustFound {
                    version: trim(output.stdout.as_str()),
                },
                Event::Ran(Err(_)) => DoctorState::RustMissing,
                _ => DoctorState::CheckRust,
            },
            DoctorState::RustFound { version } => match event {
                Event::Printed => DoctorState::CheckGit,
                _ => DoctorState::RustFound { version },
            },
            DoctorState::RustMissing => match event {
                Event::Printed => DoctorState::CheckGit,
                _ => DoctorState::RustMissing,
            },
            DoctorState::CheckGit => match event {
                Event::Ran(Ok(output)) => DoctorState::GitFound {
                    version: trim(output.stdout.as_str()),
                },
                Event::Ran(Err(_)) => failed(join("❌ ", "Git not found in PATH")),
                _ => DoctorState::CheckGit,
            },
            DoctorState::GitFound { version } => match event {
                Event::Printed => DoctorState::CheckRepo,
                _ => DoctorState::GitFound { version },
            },
            DoctorState::CheckRepo => match event {
                Event::Ran(Ok(output)) => if output.success {
                    DoctorState::RepoFound
                } else {
                    failed(join("❌ ", "Not inside a Git repository"))
                },
                Event::Ran(Err(_)) => failed(join("❌ ", "Not inside a Git repository")),
                _ => DoctorState::CheckRepo,
            },
            DoctorState::RepoFound => match event {
                Event::Printed => DoctorState::CheckTree,
                _ => DoctorState::RepoFound,
            },
            DoctorState::CheckTree => match event {
                Event::Ran(outcome) => match is_working_directory_clean(outcome) {
                    Ok(true) => DoctorState::TreeClean,
                    Ok(false) => DoctorState::TreeDirty,
                    Err(failure) => failed(failure),
                },
                _ => DoctorState::CheckTree,
            },
            DoctorState::TreeClean => match event {
                Event::Printed => DoctorState::CheckRemotes,
                _ => DoctorState::TreeClean,
            },
            DoctorState::TreeDirty => match event {
                Event::Printed => DoctorState::CheckRemotes,
                _ => DoctorState::TreeDirty,
            },
            DoctorState::CheckRemotes => match event {
                Event::Ran(Ok(output)) => {
                    let remotes = trim(output.stdout.as_str());
                    if remotes.as_str().is_empty() {
                        DoctorState::RemotesNone
                    } else {
                        DoctorState::RemotesFound { remotes }
                    }
                },
                Event::Ran(Err(_)) => DoctorState::RemotesUnknown,
                _ => DoctorState::CheckRemotes,
            },
            DoctorState::RemotesFound { remotes } => match event {
                Event::Printed => DoctorState::FindBranch,
                _ => DoctorState::RemotesFound { remotes },
            },
            DoctorState::RemotesNone => match event {
                Event::Printed => DoctorState::FindBranch,
                _ => DoctorState::RemotesNone,
            },
            DoctorState::RemotesUnknown => match event {
                Event::Printed => DoctorState::FindBranch,
                _ => DoctorState::RemotesUnknown,
            },
            DoctorState::FindBranch => match event {
                Event::Ran(outcome) => match get_current_branch(outcome) {
                    Ok(branch) => DoctorState::BranchFound { branch },
                    Err(_) => DoctorState::BranchUnknown,
                },
                _ => DoctorState::FindBranch,
            },
            DoctorState::BranchFound { branch } => match event {
                Event::Printed => DoctorState::Farewell,
                _ => DoctorState::BranchFound { branch },
            },
            DoctorState::BranchUnknown => match event {
                Event::Printed => DoctorState::Farewell,
                _ => DoctorState::BranchUnknown,
            },
            DoctorState::Farewell => match event {
                Event::Printed => DoctorState::Done { result: Ok(()) },
                _ => DoctorState::Farewell,
            },
            DoctorState::Done { result } => DoctorState::Done { result },
        }
    }
}

} // verus!
