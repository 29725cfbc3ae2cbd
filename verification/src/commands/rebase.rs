//! Rebase: the remote is fetched, and the current branch is rebased onto
//! its upstream.

use crate::commands::{
    branch_args, branch_query, command, current_branch, dirty_tree, dirty_tree_failure, exec_git,
    exec_git_interactive, get_current_branch, git_command, git_output, git_query, git_success,
    is_working_directory_clean, status_args, status_query, tree_is_clean, upstream_args,
    upstream_query,
};
use crate::text::{join, push_word, trim, trimmed};
use crate::workflow::{
    finish, lemma_finished_for_good, lemma_progress_grows, mutates, result_view, say, state_at,
    Action, ActionView, CommandOutputView, Event, EventView, Machine, Style, Workflow,
};
use vstd::prelude::*;

verus! {

/// What a rebase is given on the command line.
#[derive(Debug, PartialEq, Eq)]
pub struct RebaseArgs {
    /// The upstream to rebase onto, such as `origin/main`. Where it is
    /// absent, the upstream that the current branch is configured with is
    /// taken.
    pub upstream: Option<String>,
}

/// The view of [`RebaseArgs`].
pub struct RebaseArgsView {
    pub upstream: Option<Seq<char>>,
}

impl View for RebaseArgs {
    type V = RebaseArgsView;

    open spec fn view(&self) -> RebaseArgsView {
        RebaseArgsView { upstream: self.upstream.deep_view() }
    }
}

/// Where a rebase stands.
#[derive(Debug, PartialEq, Eq)]
pub enum RebaseState {
    /// Asking git whether the working tree is clean.
    CheckTree { given: Option<String> },
    /// Asking git for the current branch.
    FindBranch,
    /// Asking git for the upstream of the branch.
    FindUpstream { branch: String },
    /// Telling the user the upstream.
    ShowTarget { upstream: String },
    /// Telling the user that the fetch begins.
    ShowFetch { upstream: String },
    /// Fetching.
    Fetch { upstream: String },
    /// Telling the user that the rebase begins.
    ShowRebase { upstream: String },
    /// Rebasing.
    Rebase { upstream: String },
    /// Reporting the rebase.
    Succeeded,
    /// Telling the user that the rebase stopped.
    Stopped,
    /// Telling the user to resolve the conflicts.
    Advise,
    /// Telling the user how to go on.
    AdviseContinue,
    /// Telling the user how to give up.
    AdviseAbort,
    /// Over.
    Done { result: Result<(), String> },
}

/// The view of a [`RebaseState`].
pub enum RebaseStateView {
    CheckTree { given: Option<Seq<char>> },
    FindBranch,
    FindUpstream { branch: Seq<char> },
    ShowTarget { upstream: Seq<char> },
    ShowFetch { upstream: Seq<char> },
    Fetch { upstream: Seq<char> },
    ShowRebase { upstream: Seq<char> },
    Rebase { upstream: Seq<char> },
    Succeeded,
    Stopped,
    Advise,
    AdviseContinue,
    AdviseAbort,
    Done { result: Result<(), Seq<char>> },
}

impl View for RebaseState {
    type V = RebaseStateView;

    open spec fn view(&self) -> RebaseStateView {
        match *self {
            RebaseState::CheckTree { given } => RebaseStateView::CheckTree {
                given: given.deep_view(),
            },
            RebaseState::FindBranch => RebaseStateView::FindBranch,
            RebaseState::FindUpstream { branch } => RebaseStateView::FindUpstream {
                branch: branch@,
            },
            RebaseState::ShowTarget { upstream } => RebaseStateView::ShowTarget {
                upstream: upstream@,
            },
            RebaseState::ShowFetch { upstream } => RebaseStateView::ShowFetch {
                upstream: upstream@,
            },
            RebaseState::Fetch { upstream } => RebaseStateView::Fetch { upstream: upstream@ },
            RebaseState::ShowRebase { upstream } => RebaseStateView::ShowRebase {
                upstream: upstream@,
            },
            RebaseState::Rebase { upstream } => RebaseStateView::Rebase { upstream: upstream@ },
            RebaseState::Succeeded => RebaseStateView::Succeeded,
            RebaseState::Stopped => RebaseStateView::Stopped,
            RebaseState::Advise => RebaseStateView::Advise,
            RebaseState::AdviseContinue => RebaseStateView::AdviseContinue,
            RebaseState::AdviseAbort => RebaseStateView::AdviseAbort,
            RebaseState::Done { result } => RebaseStateView::Done { result: result_view(result) },
        }
    }
}

/// The message for `branch` when it has no upstream and none was given.
pub open spec fn no_upstream(branch: Seq<char>) -> Seq<char> {
    "❌ No upstream configured for branch '"@ + branch
        + "'.\n👉 Please specify one with --upstream or set it via `git branch --set-upstream-to <remote>/<branch>`"@
}

/// The message for a fetch that failed with `failure`.
pub open spec fn fetch_failure(failure: Seq<char>) -> Seq<char> {
    "❌ Failed to fetch: "@ + failure
}

/// The message with which a rebase that stopped ends.
pub open spec fn rebase_failure() -> Seq<char> {
    "Rebase failed. See instructions above."@
}

/// The line that tells the upstream.
pub open spec fn target_line(upstream: Seq<char>) -> Seq<char> {
    "🔧 Target upstream: "@ + upstream
}

/// The line that tells that the rebase onto `upstream` begins.
pub open spec fn rebase_line(upstream: Seq<char>) -> Seq<char> {
    "🚀 Rebasing onto "@ + upstream + "..."@
}

/// The arguments of the fetch.
pub open spec fn fetch_args() -> Seq<Seq<char>> {
    seq!["fetch"@]
}

/// The arguments of the rebase onto `upstream`.
pub open spec fn rebase_args(upstream: Seq<char>) -> Seq<Seq<char>> {
    seq!["rebase"@, upstream]
}

/// The state in which a rebase begins.
pub open spec fn rebase_start(args: RebaseArgsView) -> RebaseStateView {
    RebaseStateView::CheckTree { given: args.upstream }
}

/// The state of a rebase that failed with `failure`.
pub open spec fn rebase_failed(failure: Seq<char>) -> RebaseStateView {
    RebaseStateView::Done { result: Err(failure) }
}

impl Workflow for RebaseStateView {
    open spec fn request(self) -> ActionView {
        match self {
            RebaseStateView::CheckTree { .. } => git_query(status_args()),
            RebaseStateView::FindBranch => git_query(branch_args()),
            RebaseStateView::FindUpstream { branch } => git_query(upstream_args(branch)),
            RebaseStateView::ShowTarget { upstream } => ActionView::Print {
                style: Style::Plain,
                text: target_line(upstream),
            },
            RebaseStateView::ShowFetch { .. } => ActionView::Print {
                style: Style::Plain,
                text: "🔄 Fetching latest changes..."@,
            },
            RebaseStateView::Fetch { .. } => git_command(fetch_args()),
            RebaseStateView::ShowRebase { upstream } => ActionView::Print {
                style: Style::Plain,
                text: rebase_line(upstream),
            },
            RebaseStateView::Rebase { upstream } => git_command(rebase_args(upstream)),
            RebaseStateView::Succeeded => ActionView::Print {
                style: Style::Success,
                text: "Rebase successful!"@,
            },
            RebaseStateView::Stopped => ActionView::Print {
                style: Style::Alert,
                text: "\n❌ Rebase encountered conflicts or failed."@,
            },
            RebaseStateView::Advise => ActionView::Print {
                style: Style::Warning,
                text: "Please resolve conflicts manually."@,
            },
            RebaseStateView::AdviseContinue => ActionView::Print {
                style: Style::Plain,
                text: "👉 After resolving:\n   1. git add <files>\n   2. git rebase --continue"@,
            },
            RebaseStateView::AdviseAbort => ActionView::Print {
                style: Style::Plain,
                text: "👉 To abort:\n   git rebase --abort"@,
            },
            RebaseStateView::Done { result } => ActionView::Finish { result },
        }
    }

    open spec fn next(self, event: EventView) -> RebaseStateView {
        match self {
            RebaseStateView::CheckTree { given } => match event {
                EventView::Ran(outcome) => match tree_is_clean(outcome) {
                    Ok(true) => match given {
                        Some(upstream) => RebaseStateView::ShowTarget { upstream },
                        None => RebaseStateView::FindBranch,
                    },
                    Ok(false) => rebase_failed(dirty_tree("rebasing"@)),
                    Err(failure) => rebase_failed(failure),
                },
                _ => self,
            },
            RebaseStateView::FindBranch => match event {
                EventView::Ran(outcome) => match current_branch(outcome) {
                    Ok(branch) => RebaseStateView::FindUpstream { branch },
                    Err(failure) => rebase_failed(failure),
                },
                _ => self,
            },
            RebaseStateView::FindUpstream { branch } => match event {
                EventView::Ran(outcome) => match git_output(outcome) {
                    Ok(output) => if output.success {
                        RebaseStateView::ShowTarget { upstream: trimmed(output.stdout) }
                    } else {
                        rebase_failed(no_upstream(branch))
                    },
                    Err(failure) => rebase_failed(failure),
                },
                _ => self,
            },
            RebaseStateView::ShowTarget { upstream } => match event {
                EventView::Printed => RebaseStateView::ShowFetch { upstream },
                _ => self,
            },
            RebaseStateView::ShowFetch { upstream } => match event {
                EventView::Printed => RebaseStateView::Fetch { upstream },
                _ => self,
            },
            RebaseStateView::Fetch { upstream } => match event {
                EventView::Ran(outcome) => match git_success(outcome) {
                    Ok(()) => RebaseStateView::ShowRebase { upstream },
                    Err(failure) => rebase_failed(fetch_failure(failure)),
                },
                _ => self,
            },
            RebaseStateView::ShowRebase { upstream } => match event {
                EventView::Printed => RebaseStateView::Rebase { upstream },
                _ => self,
            },
            RebaseStateView::Rebase { .. } => match event {
                EventView::Ran(outcome) => match git_success(outcome) {
                    Ok(()) => RebaseStateView::Succeeded,
                    Err(_) => RebaseStateView::Stopped,
                },
                _ => self,
            },
            RebaseStateView::Succeeded => match event {
                EventView::Printed => RebaseStateView::Done { result: Ok(()) },
                _ => self,
            },
            RebaseStateView::Stopped => match event {
                EventView::Printed => RebaseStateView::Advise,
                _ => self,
            },
            RebaseStateView::Advise => match event {
                EventView::Printed => RebaseStateView::AdviseContinue,
                _ => self,
            },
            RebaseStateView::AdviseContinue => match event {
                EventView::Printed => RebaseStateView::AdviseAbort,
                _ => self,
            },
            RebaseStateView::AdviseAbort => match event {
                EventView::Printed => rebase_failed(rebase_failure()),
                _ => self,
            },
            RebaseStateView::Done { .. } => self,
        }
    }

    open spec fn progress(self) -> nat {
        match self {
            RebaseStateView::CheckTree { .. } => 0,
            RebaseStateView::FindBranch => 1,
            RebaseStateView::FindUpstream { .. } => 2,
            RebaseStateView::ShowTarget { .. } => 3,
            RebaseStateView::ShowFetch { .. } => 4,
            RebaseStateView::Fetch { .. } => 5,
            RebaseStateView::ShowRebase { .. } => 6,
            RebaseStateView::Rebase { .. } => 7,
            RebaseStateView::Succeeded => 8,
            RebaseStateView::Stopped => 8,
            RebaseStateView::Advise => 9,
            RebaseStateView::AdviseContinue => 10,
            RebaseStateView::AdviseAbort => 11,
            RebaseStateView::Done { .. } => 12,
        }
    }

    proof fn lemma_never_back(self, event: EventView) {
    }

    proof fn lemma_finish_is_final(self, event: EventView) {
    }
}

/// A rebase is refused while the working tree is not clean. Where the
/// status query has anything but white space to say, the rebase ends at once
/// with the failure that says so, and at no point of the run does it ask
/// for a command on the terminal.
pub proof fn lemma_rebase_refuses_dirty_tree(
    args: RebaseArgsView,
    events: Seq<EventView>,
    output: CommandOutputView,
    n: nat,
)
    requires
        0 < events.len(),
        events[0] == EventView::Ran(Ok(output)),
        trimmed(output.stdout).len() > 0,
        n <= events.len(),
    ensures
        !mutates(state_at(rebase_start(args), events, n).request()),
        n > 0 ==> state_at(rebase_start(args), events, n) == rebase_failed(
            dirty_tree("rebasing"@),
        ),
{
    reveal_with_fuel(state_at, 2);
    if n > 0 {
        lemma_finished_for_good(rebase_start(args), events, 1, n);
    }
}

/// Without an upstream there is no rebase. Where none was given and git
/// resolves none for the current branch, the rebase ends at once with the
/// failure that names the branch, and at no point of the run does it ask for
/// a command on the terminal: it neither fetches nor rebases.
pub proof fn lemma_rebase_needs_upstream(
    args: RebaseArgsView,
    events: Seq<EventView>,
    k: nat,
    branch: Seq<char>,
    output: CommandOutputView,
    n: nat,
)
    requires
        k < events.len(),
        state_at(rebase_start(args), events, k) == (RebaseStateView::FindUpstream { branch }),
        events[k as int] == EventView::Ran(Ok(output)),
        !output.success,
        n <= events.len(),
    ensures
        !mutates(state_at(rebase_start(args), events, n).request()),
        n > k ==> state_at(rebase_start(args), events, n) == rebase_failed(no_upstream(branch)),
{
    let start = rebase_start(args);
    if n <= k {
        lemma_progress_grows(start, events, n, k);
    } else {
        assert(state_at(start, events, k + 1) == rebase_failed(no_upstream(branch)));
        lemma_finished_for_good(start, events, k + 1, n);
    }
}

/// A rebase asks git for the upstream only where none was given: a run that
/// comes to that query began without one.
pub proof fn lemma_rebase_asks_when_not_given(
    args: RebaseArgsView,
    events: Seq<EventView>,
    n: nat,
)
    requires
        n <= events.len(),
        state_at(rebase_start(args), events, n) is FindUpstream || state_at(
            rebase_start(args),
            events,
            n,
        ) is FindBranch,
    ensures
        args.upstream is None,
    decreases n,
{
    if n > 0 {
        let before = state_at(rebase_start(args), events, (n - 1) as nat);
        if before is FindUpstream || before is FindBranch {
            lemma_rebase_asks_when_not_given(args, events, (n - 1) as nat);
        } else {
            lemma_rebase_keeps_given(args, events, (n - 1) as nat);
        }
    }
}

/// While a rebase checks the working tree, it holds the upstream that it
/// was given.
proof fn lemma_rebase_keeps_given(args: RebaseArgsView, events: Seq<EventView>, n: nat)
    requires
        state_at(rebase_start(args), events, n) is CheckTree,
    ensures
        state_at(rebase_start(args), events, n) == rebase_start(args),
    decreases n,
{
    if n > 0 {
        lemma_rebase_keeps_given(args, events, (n - 1) as nat);
    }
}

/// Begins the rebase that `args` describes.
pub fn execute(args: RebaseArgs) -> (state: RebaseState)
    ensures
        state@ == rebase_start(args@),
{
    RebaseState::CheckTree { given: args.upstream }
}

/// The state of a rebase that failed with `failure`.
fn failed(failure: String) -> (state: RebaseState)
    ensures
        state@ == rebase_failed(failure@),
{
    RebaseState::Done { result: Err(failure) }
}

impl Machine for RebaseState {
    fn action(&self) -> (action: Action)
        ensures
            action@ == self@.request(),
    {
        match self {
            RebaseState::CheckTree { .. } => status_query(),
            RebaseState::FindBranch => branch_query(),
            RebaseState::FindUpstream { branch } => upstream_query(branch.as_str()),
            RebaseState::ShowTarget { upstream } => say(
                Style::Plain,
                join("🔧 Target upstream: ", upstream.as_str()).as_str(),
            ),
            RebaseState::ShowFetch { .. } => say(Style::Plain, "🔄 Fetching latest changes..."),
            RebaseState::Fetch { .. } => {
                let mut words: Vec<String> = Vec::new();
                push_word(&mut words, "fetch");
                assert(words.deep_view() =~= fetch_args());
                command(words)
            },
            RebaseState::ShowRebase { upstream } => {
                let mut line = String::from_str("🚀 Rebasing onto ");
                line.append(upstream.as_str());
                line.append("...");
                say(Style::Plain, line.as_str())
            },
            RebaseState::Rebase { upstream } => {
                let mut words: Vec<String> = Vec::new();
                push_word(&mut words, "rebase");
                push_word(&mut words, upstream.as_str());
                assert(words.deep_view() =~= rebase_args(upstream@));
                command(words)
            },
            RebaseState::Succeeded => say(Style::Success, "Rebase successful!"),
            RebaseState::Stopped => say(
                Style::Alert,
                "\n❌ Rebase encountered conflicts or failed.",
            ),
            RebaseState::Advise => say(Style::Warning, "Please resolve conflicts manually."),
            RebaseState::AdviseContinue => say(
                Style::Plain,
                "👉 After resolving:\n   1. git add <files>\n   2. git rebase --continue",
            ),
            RebaseState::AdviseAbort => say(Style::Plain, "👉 To abort:\n   git rebase --abort"),
            RebaseState::Done { result } => finish(result),
        }
    }

    fn advance(self, event: Event) -> (state: RebaseState)
        ensures
            state@ == self@.next(event@),
    {
        match self {
            RebaseState::CheckTree { given } => match event {
                Event::Ran(outcome) => match is_working_directory_clean(outcome) {
                    Ok(true) => match given {
                        Some(upstream) => RebaseState::ShowTarget { upstream },
                        None => RebaseState::FindBranch,
                    },
                    Ok(false) => failed(dirty_tree_failure("rebasing")),
                    Err(failure) => failed(failure),
                },
                _ => RebaseState::CheckTree { given },
            },
            RebaseState::FindBranch => match event {
                Event::Ran(outcome) => match get_current_branch(outcome) {
                    Ok(branch) => RebaseState::FindUpstream { branch },
                    Err(failure) => failed(failure),
                },
                _ => RebaseState::FindBranch,
            },
            RebaseState::FindUpstream { branch } => match event {
                Event::Ran(outcome) => match exec_git(outcome) {
                    Ok(output) => if output.success {
                        RebaseState::ShowTarget { upstream: trim(output.stdout.as_str()) }
                    } else {
                        let mut failure = String::from_str(
                            "❌ No upstream configured for branch '",
                        );
                        failure.append(branch.as_str());
                        failure.append(
                            "'.\n👉 Please specify one with --upstream or set it via `git branch --set-upstream-to <remote>/<branch>`",
                        );
                        failed(failure)
                    },
                    Err(failure) => failed(failure),
                },
                _ => RebaseState::FindUpstream { branch },
            },
            RebaseState::ShowTarget { upstream } => match event {
                Event::Printed => RebaseState::ShowFetch { upstream },
                _ => RebaseState::ShowTarget { upstream },
            },
            RebaseState::ShowFetch { upstream } => match event {
                Event::Printed => RebaseState::Fetch { upstream },
                _ => RebaseState::ShowFetch { upstream },
            },
            RebaseState::Fetch { upstream } => match event {
                Event::Ran(outcome) => match exec_git_interactive(outcome) {
                    Ok(()) => RebaseState::ShowRebase { upstream },
                    Err(failure) => failed(join("❌ Failed to fetch: ", failure.as_str())),
                },
                _ => RebaseState::Fetch { upstream },
            },
            RebaseState::ShowRebase { upstream } => match event {
                Event::Printed => RebaseState::Rebase { upstream },
                _ => RebaseState::ShowRebase { upstream },
            },
            RebaseState::Rebase { upstream } => match event {
                Event::Ran(outcome) => match exec_git_interactive(outcome) {
                    Ok(()) => RebaseState::Succeeded,
                    Err(_) => RebaseState::Stopped,
                },
                _ => RebaseState::Rebase { upstream },
            },
            RebaseState::Succeeded => match event {
                Event::Printed => RebaseState::Done { result: Ok(()) },
                _ => RebaseState::Succeeded,
            },
            RebaseState::Stopped => match event {
                Event::Printed => RebaseState::Advise,
                _ => RebaseState::Stopped,
            },
            RebaseState::Advise => match event {
                Event::Printed => RebaseState::AdviseContinue,
                _ => RebaseState::Advise,
            },
            RebaseState::AdviseContinue => match event {
                Event::Printed => RebaseState::AdviseAbort,
                _ => RebaseState::AdviseContinue,
            },
            RebaseState::AdviseAbort => match event {
                Event::Printed => failed(String::from_str("Rebase failed. See instructions above.")),
                _ => RebaseState::AdviseAbort,
            },
            RebaseState::Done { result } => RebaseState::Done { result },
        }
    }
}

} // verus!
