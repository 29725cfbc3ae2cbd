//! Reset: the local commits that were never pushed are given up, by a soft
//! reset onto the remote branch.

use crate::commands::{
    branch_args, branch_query, command, confirmation_failure, current_branch, exec_git,
    exec_git_interactive, get_current_branch, git_command, git_output, git_query, git_success,
    query,
};
use crate::text::{join, push_word, trim, trimmed};
use crate::workflow::{
    ask_confirm, finish, lemma_finished_for_good, lemma_progress_grows, mutates, result_view, say,
    state_at, Action, ActionView, Event, EventView, Machine, Style, Workflow,
};
use vstd::prelude::*;

verus! {

/// Where a reset stands.
#[derive(Debug, PartialEq, Eq)]
pub enum ResetState {
    /// Asking git for the current branch.
    FindBranch,
    /// Asking git for the remote that the branch is configured with.
    FindRemote { branch: String },
    /// Asking the user whether to go on.
    Confirm { target: String },
    /// Telling the user that nothing was done.
    Cancelled,
    /// Telling the user what is about to run.
    Announce { target: String },
    /// Resetting softly onto the remote branch.
    Reset { target: String },
    /// Reporting the reset.
    ResetDone,
    /// Over.
    Done { result: Result<(), String> },
}

/// The view of a [`ResetState`].
pub enum ResetStateView {
    FindBranch,
    FindRemote { branch: Seq<char> },
    Confirm { target: Seq<char> },
    Cancelled,
    Announce { target: Seq<char> },
    Reset { target: Seq<char> },
    ResetDone,
    Done { result: Result<(), Seq<char>> },
}

impl View for ResetState {
    type V = ResetStateView;

    open spec fn view(&self) -> ResetStateView {
        match *self {
            ResetState::FindBranch => ResetStateView::FindBranch,
            ResetState::FindRemote { branch } => ResetStateView::FindRemote { branch: branch@ },
            ResetState::Confirm { target } => ResetStateView::Confirm { target: target@ },
            ResetState::Cancelled => ResetStateView::Cancelled,
            ResetState::Announce { target } => ResetStateView::Announce { target: target@ },
            ResetState::Reset { target } => ResetStateView::Reset { target: target@ },
            ResetState::ResetDone => ResetStateView::ResetDone,
            ResetState::Done { result } => ResetStateView::Done { result: result_view(result) },
        }
    }
}

/// The arguments of the query for the remote of `branch`.
pub open spec fn remote_args(branch: Seq<char>) -> Seq<Seq<char>> {
    seq!["config"@, "branch."@ + branch + ".remote"@]
}

/// The message for a branch that is configured with no remote.
pub open spec fn remote_failure(branch: Seq<char>) -> Seq<char> {
    "❌ Failed to get remote for branch '"@ + branch + "'"@
}

/// The name of `branch` on `remote`.
pub open spec fn remote_branch(remote: Seq<char>, branch: Seq<char>) -> Seq<char> {
    remote + "/"@ + branch
}

/// The question put before the reset onto `target`.
pub open spec fn reset_question(target: Seq<char>) -> Seq<char> {
    "⚠️  This will remove all local commits not pushed to "@ + target + ". Proceed?"@
}

/// The line that tells of the reset onto `target`.
pub open spec fn reset_announcement(target: Seq<char>) -> Seq<char> {
    "\n🧨 Running: git reset --soft "@ + target
}

/// The arguments of the soft reset onto `target`.
pub open spec fn reset_args(target: Seq<char>) -> Seq<Seq<char>> {
    seq!["reset"@, "--soft"@, target]
}

/// The state in which a reset begins.
pub open spec fn reset_start() -> ResetStateView {
    ResetStateView::FindBranch
}

/// The state of a reset that failed with `failure`.
pub open spec fn reset_failed(failure: Seq<char>) -> ResetStateView {
    ResetStateView::Done { result: Err(failure) }
}

/// The state of a reset that ended well.
pub open spec fn reset_succeeded() -> ResetStateView {
    ResetStateView::Done { result: Ok(()) }
}

impl Workflow for ResetStateView {
    open spec fn request(self) -> ActionView {
        match self {
            ResetStateView::FindBranch => git_query(branch_args()),
            ResetStateView::FindRemote { branch } => git_query(remote_args(branch)),
            ResetStateView::Confirm { target } => ActionView::AskConfirm {
                message: reset_question(target),
                default_yes: false,
            },
            ResetStateView::Cancelled => ActionView::Print {
                style: Style::Plain,
                text: "❌ Cancelled."@,
            },
            ResetStateView::Announce { target } => ActionView::Print {
                style: Style::Plain,
                text: reset_announcement(target),
            },
            ResetStateView::Reset { target } => git_command(reset_args(target)),
            ResetStateView::ResetDone => ActionView::Print {
                style: Style::Success,
                text: "Local commits have been discarded (soft reset)"@,
            },
            ResetStateView::Done { result } => ActionView::Finish { result },
        }
    }

    open spec fn next(self, event: EventView) -> ResetStateView {
        match self {
            ResetStateView::FindBranch => match event {
                EventView::Ran(outcome) => match current_branch(outcome) {
                    Ok(branch) => ResetStateView::FindRemote { branch },
                    Err(failure) => reset_failed(failure),
                },
                _ => self,
            },
            ResetStateView::FindRemote { branch } => match event {
                EventView::Ran(outcome) => match git_output(outcome) {
                    Ok(output) => if output.success {
                        ResetStateView::Confirm {
                            target: remote_branch(trimmed(output.stdout), branch),
                        }
                    } else {
                        reset_failed(remote_failure(branch))
                    },
                    Err(failure) => reset_failed(failure),
                },
                _ => self,
            },
            ResetStateView::Confirm { target } => match event {
                EventView::Confirmed(Ok(yes)) => if yes {
                    ResetStateView::Announce { target }
                } else {
                    ResetStateView::Cancelled
                },
                EventView::Confirmed(Err(reason)) => reset_failed(confirmation_failure(reason)),
                _ => self,
            },
            ResetStateView::Cancelled => match event {
                EventView::Printed => reset_succeeded(),
                _ => self,
            },
            ResetStateView::Announce { target } => match event {
                EventView::Printed => ResetStateView::Reset { target },
                _ => self,
            },
            ResetStateView::Reset { .. } => match event {
                EventView::Ran(outcome) => match git_success(outcome) {
                    Ok(()) => ResetStateView::ResetDone,
                    Err(failure) => reset_failed(failure),
                },
                _ => self,
            },
            ResetStateView::ResetDone => match event {
                EventView::Printed => reset_succeeded(),
                _ => self,
            },
            ResetStateView::Done { .. } => self,
        }
    }

    open spec fn progress(self) -> nat {
        match self {
            ResetStateView::FindBranch => 0,
            ResetStateView::FindRemote { .. } => 1,
            ResetStateView::Confirm { .. } => 2,
            ResetStateView::Cancelled => 3,
            ResetStateView::Announce { .. } => 3,
            ResetStateView::Reset { .. } => 4,
            ResetStateView::ResetDone => 5,
            ResetStateView::Done { .. } => 6,
        }
    }

    proof fn lemma_never_back(self, event: EventView) {
    }

    proof fn lemma_finish_is_final(self, event: EventView) {
    }
}

/// Whether `state` is what is left of a reset that the user declined: the
/// line that says so, or the good end.
pub open spec fn declined(state: ResetStateView) -> bool {
    state == ResetStateView::Cancelled || state == reset_succeeded()
}

/// A reset that the user declines changes nothing and ends well. Where the
/// answer to the question is no, at no point of the run does the reset ask
/// for a command on the terminal; what is left of it is the line that
/// nothing was done and then the good end, so it never ends in a failure.
pub proof fn lemma_reset_declined(events: Seq<EventView>, k: nat, target: Seq<char>, n: nat)
    requires
        k < events.len(),
        state_at(reset_start(), events, k) == (ResetStateView::Confirm { target }),
        events[k as int] == EventView::Confirmed(Ok(false)),
        n <= events.len(),
    ensures
        !mutates(state_at(reset_start(), events, n).request()),
        n > k ==> declined(state_at(reset_start(), events, n)),
        n > k + 1 && events[k as int + 1] == EventView::Printed ==> state_at(reset_start(), events, n)
            == reset_succeeded(),
    decreases n,
{
    let start = reset_start();
    if n <= k {
        lemma_progress_grows(start, events, n, k);
    } else if n == k + 1 {
        assert(state_at(start, events, n) == ResetStateView::Cancelled);
    } else {
        lemma_reset_declined(events, k, target, (n - 1) as nat);
        if events[k as int + 1] == EventView::Printed {
            assert(state_at(start, events, k + 2) == reset_succeeded()) by {
                lemma_reset_declined(events, k, target, k + 1);
            }
            lemma_finished_for_good(start, events, k + 2, n);
        }
    }
}

/// Begins a reset.
pub fn execute() -> (state: ResetState)
    ensures
        state@ == reset_start(),
{
    ResetState::FindBranch
}

/// The state of a reset that failed with `failure`.
fn failed(failure: String) -> (state: ResetState)
    ensures
        state@ == reset_failed(failure@),
{
    ResetState::Done { result: Err(failure) }
}

impl Machine for ResetState {
    fn action(&self) -> (action: Action)
        ensures
            action@ == self@.request(),
    {
        match self {
            ResetState::FindBranch => branch_query(),
            ResetState::FindRemote { branch } => {
                let mut key = String::from_str("branch.");
                key.append(branch.as_str());
                key.append(".remote");
                let mut words: Vec<String> = Vec::new();
                push_word(&mut words, "config");
                push_word(&mut words, key.as_str());
                assert(words.deep_view() =~= remote_args(branch@));
                query(words)
            },
            ResetState::Confirm { target } => {
                let mut question = String::from_str(
                    "⚠️  This will remove all local commits not pushed to ",
                );
                question.append(target.as_str());
                question.append(". Proceed?");
                ask_confirm(question.as_str(), false)
            },
            ResetState::Cancelled => say(Style::Plain, "❌ Cancelled."),
            ResetState::Announce { target } => say(
                Style::Plain,
                join("\n🧨 Running: git reset --soft ", target.as_str()).as_str(),
            ),
            ResetState::Reset { target } => {
                let mut words: Vec<String> = Vec::new();
                push_word(&mut words, "reset");
                push_word(&mut words, "--soft");
                push_word(&mut words, target.as_str());
                assert(words.deep_view() =~= reset_args(target@));
                command(words)
            },
            ResetState::ResetDone => say(
                Style::Success,
                "Local commits have been discarded (soft reset)",
            ),
            ResetState::Done { result } => finish(result),
        }
    }

    fn advance(self, event: Event) -> (state: ResetState)
        ensures
            state@ == self@.next(event@),
    {
        match self {
            ResetState::FindBranch => match event {
                Event::Ran(outcome) => match get_current_branch(outcome) {
                    Ok(branch) => ResetState::FindRemote { branch },
                    Err(failure) => failed(failure),
                },
                _ => ResetState::FindBranch,
            },
            ResetState::FindRemote { branch } => match event {
                Event::Ran(outcome) => match exec_git(outcome) {
                    Ok(output) => if output.success {
                        let mut target = trim(output.stdout.as_str());
                        target.append("/");
                        target.append(branch.as_str());
                        ResetState::Confirm { target }
                    } else {
                        let mut failure = String::from_str("❌ Failed to get remote for branch '");
                        failure.append(branch.as_str());
                        failure.append("'");
                        failed(failure)
                    },
                    Err(failure) => failed(failure),
                },
                _ => ResetState::FindRemote { branch },
            },
            ResetState::Confirm { target } => match event {
                Event::Confirmed(Ok(yes)) => if yes {
                    ResetState::Announce { target }
                } else {
                    ResetState::Cancelled
                },
                Event::Confirmed(Err(reason)) => failed(
                    join("❌ Failed to get confirmation: ", reason.as_str()),
                ),
                _ => ResetState::Confirm { target },
            },
            ResetState::Cancelled => match event {
                Event::Printed => ResetState::Done { result: Ok(()) },
                _ => ResetState::Cancelled,
            },
            ResetState::Announce { target } => match event {
                Event::Printed => ResetState::Reset { target },
                _ => ResetState::Announce { target },
            },
            ResetState::Reset { target } => match event {
                Event::Ran(outcome) => match exec_git_interactive(outcome) {
                    Ok(()) => ResetState::ResetDone,
                    Err(failure) => failed(failure),
                },
                _ => ResetState::Reset { target },
            },
            ResetState::ResetDone => match event {
                Event::Printed => ResetState::Done { result: Ok(()) },
                _ => ResetState::ResetDone,
            },
            ResetState::Done { result } => ResetState::Done { result },
        }
    }
}

} // verus!
