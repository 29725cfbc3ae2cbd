//! Squash: an interactive rebase over the last commits, or over all of them.

use crate::commands::{
    command, dirty_tree, dirty_tree_failure, exec_git_interactive, git_command, git_query,
    git_success, is_working_directory_clean, status_args, status_query, tree_is_clean,
};
use crate::text::{decimal, push_decimal, push_word, trimmed};
use crate::workflow::{
    finish, lemma_finished_for_good, mutates, result_view, say, state_at, Action, ActionView,
    CommandOutputView, Event, EventView, Machine, Style, Workflow,
};
use vstd::prelude::*;

verus! {

/// What a squash is asked to cover.
#[derive(Clone, Copy, Debug, PartialEq, Eq, Structural)]
pub struct SquashArgs {
    /// How many of the last commits to squash.
    pub number: u32,
    /// Squash all commits, from the first one on; `number` then counts for
    /// nothing.
    pub all: bool,
}

impl Default for SquashArgs {
    /// The last two commits.
    fn default() -> (args: SquashArgs)
        ensures
            args == (SquashArgs { number: 2, all: false }),
    {
        SquashArgs { number: 2, all: false }
    }
}

/// Where a squash stands.
#[derive(Debug, PartialEq, Eq)]
pub enum SquashState {
    /// Asking git whether the working tree is clean.
    CheckTree { args: SquashArgs },
    /// Telling the user which rebase is about to run.
    Announce { args: SquashArgs },
    /// Running the rebase.
    Rebase { args: SquashArgs },
    /// Over.
    Done { result: Result<(), String> },
}

/// The view of a [`SquashState`].
pub enum SquashStateView {
    CheckTree { args: SquashArgs },
    Announce { args: SquashArgs },
    Rebase { args: SquashArgs },
    Done { result: Result<(), Seq<char>> },
}

impl View for SquashState {
    type V = SquashStateView;

    open spec fn view(&self) -> SquashStateView {
        match *self {
            SquashState::CheckTree { args } => SquashStateView::CheckTree { args },
            SquashState::Announce { args } => SquashStateView::Announce { args },
            SquashState::Rebase { args } => SquashStateView::Rebase { args },
            SquashState::Done { result } => SquashStateView::Done { result: result_view(result) },
        }
    }
}

/// Where the rebase begins: at the root with `all`, else `number` commits
/// before HEAD.
pub open spec fn rebase_onto(args: SquashArgs) -> Seq<char> {
    if args.all {
        "--root"@
    } else {
        "HEAD~"@ + decimal(args.number as nat)
    }
}

/// The arguments of the interactive rebase that squashes what `args` covers.
pub open spec fn rebase_args(args: SquashArgs) -> Seq<Seq<char>> {
    seq!["rebase"@, "-i"@, rebase_onto(args)]
}

/// The line that tells which rebase is about to run.
pub open spec fn announcement(args: SquashArgs) -> Seq<char> {
    "🧨 Running: git rebase -i "@ + rebase_onto(args)
}

/// The state in which a squash begins.
pub open spec fn squash_start(args: SquashArgs) -> SquashStateView {
    SquashStateView::CheckTree { args }
}

impl Workflow for SquashStateView {
    open spec fn request(self) -> ActionView {
        match self {
            SquashStateView::CheckTree { .. } => git_query(status_args()),
            SquashStateView::Announce { args } => ActionView::Print {
                style: Style::Plain,
                text: announcement(args),
            },
            SquashStateView::Rebase { args } => git_command(rebase_args(args)),
            SquashStateView::Done { result } => ActionView::Finish { result },
        }
    }

    open spec fn next(self, event: EventView) -> SquashStateView {
        match self {
            SquashStateView::CheckTree { args } => match event {
                EventView::Ran(outcome) => match tree_is_clean(outcome) {
                    Ok(true) => SquashStateView::Announce { args },
                    Ok(false) => SquashStateView::Done { result: Err(dirty_tree("squashing"@)) },
                    Err(failure) => SquashStateView::Done { result: Err(failure) },
                },
                _ => self,
            },
            SquashStateView::Announce { args } => match event {
                EventView::Printed => SquashStateView::Rebase { args },
                _ => self,
            },
            SquashStateView::Rebase { .. } => match event {
                EventView::Ran(outcome) => SquashStateView::Done { result: git_success(outcome) },
                _ => self,
            },
            SquashStateView::Done { .. } => self,
        }
    }

    open spec fn progress(self) -> nat {
        match self {
            SquashStateView::CheckTree { .. } => 0,
            SquashStateView::Announce { .. } => 1,
            SquashStateView::Rebase { .. } => 2,
            SquashStateView::Done { .. } => 3,
        }
    }

    proof fn lemma_never_back(self, event: EventView) {
    }

    proof fn lemma_finish_is_final(self, event: EventView) {
    }
}

/// Whether `state` belongs to the squash of what `args` covers: whether it
/// holds `args`, where it holds any.
pub open spec fn squashes(state: SquashStateView, args: SquashArgs) -> bool {
    match state {
        SquashStateView::CheckTree { args: held } => held == args,
        SquashStateView::Announce { args: held } => held == args,
        SquashStateView::Rebase { args: held } => held == args,
        SquashStateView::Done { .. } => true,
    }
}

/// Every state of a squash belongs to the squash that was asked for.
proof fn lemma_squash_keeps_args(args: SquashArgs, events: Seq<EventView>, n: nat)
    ensures
        squashes(state_at(squash_start(args), events, n), args),
    decreases n,
{
    if n > 0 {
        lemma_squash_keeps_args(args, events, (n - 1) as nat);
    }
}

/// A squash is refused while the working tree is not clean: where the
/// status query has anything but white space to say, the squash ends at once
/// with the failure that says so, and at no point of the run does it ask
/// for a command on the terminal.
pub proof fn lemma_squash_refuses_dirty_tree(
    args: SquashArgs,
    events: Seq<EventView>,
    output: CommandOutputView,
    n: nat,
)
    requires
        0 < events.len(),
        events[0] == EventView::Ran(Ok(output)),
        trimmed(output.stdout).len() > 0,
        n <= events.len(),
    ensures
        !mutates(state_at(squash_start(args), events, n).request()),
        n > 0 ==> state_at(squash_start(args), events, n) == (SquashStateView::Done {
            result: Err(dirty_tree("squashing"@)),
        }),
{
    reveal_with_fuel(state_at, 2);
    if n > 0 {
        lemma_finished_for_good(squash_start(args), events, 1, n);
    }
}

/// Over a clean working tree a squash comes to its rebase. Where the
/// status query has nothing to say and the announcement is printed, the
/// squash asks for git's interactive rebase on the terminal: from the root
/// with `all`, else over exactly the last `number` commits.
pub proof fn lemma_squash_rebases(
    args: SquashArgs,
    events: Seq<EventView>,
    output: CommandOutputView,
)
    requires
        2 <= events.len(),
        events[0] == EventView::Ran(Ok(output)),
        trimmed(output.stdout).len() == 0,
        events[1] == EventView::Printed,
    ensures
        state_at(squash_start(args), events, 2).request() == git_command(
            seq![
                "rebase"@,
                "-i"@,
                if args.all {
                    "--root"@
                } else {
                    "HEAD~"@ + decimal(args.number as nat)
                },
            ],
        ),
{
    reveal_with_fuel(state_at, 3);
}

/// The rebase of a squash covers what was asked for. Whenever a squash asks
/// for a command on the terminal, the command is git's interactive rebase:
/// from the root with `all`, else over exactly the last `number` commits.
pub proof fn lemma_squash_covers(args: SquashArgs, events: Seq<EventView>, n: nat)
    requires
        n <= events.len(),
        mutates(state_at(squash_start(args), events, n).request()),
    ensures
        state_at(squash_start(args), events, n).request() == git_command(
            seq![
                "rebase"@,
                "-i"@,
                if args.all {
                    "--root"@
                } else {
                    "HEAD~"@ + decimal(args.number as nat)
                },
            ],
        ),
{
    lemma_squash_keeps_args(args, events, n);
}

/// Begins the squash of what `args` covers.
pub fn execute(args: SquashArgs) -> (state: SquashState)
    ensures
        state@ == squash_start(args),
{
    SquashState::CheckTree { args }
}

/// The text of `rebase_onto(args)`, behind `prefix`.
fn onto(prefix: &str, args: SquashArgs) -> (r: String)
    ensures
        r@ == prefix@ + rebase_onto(args),
{
    let mut r = String::from_str(prefix);
    if args.all {
        r.append("--root");
    } else {
        r.append("HEAD~");
        push_decimal(&mut r, args.number);
        assert(r@ =~= prefix@ + ("HEAD~"@ + decimal(args.number as nat)));
    }
    r
}

impl Machine for SquashState {
    fn action(&self) -> (action: Action)
        ensures
            action@ == self@.request(),
    {
        match self {
            SquashState::CheckTree { .. } => status_query(),
            SquashState::Announce { args } => say(
                Style::Plain,
                onto("🧨 Running: git rebase -i ", *args).as_str(),
            ),
            SquashState::Rebase { args } => {
                let mut words: Vec<String> = Vec::new();
                push_word(&mut words, "rebase");
                push_word(&mut words, "-i");
                push_word(&mut words, onto("", *args).as_str());
                proof {
                    reveal_strlit("");
                    assert(""@ + rebase_onto(*args) =~= rebase_onto(*args));
                    assert(words.deep_view() =~= rebase_args(*args));
                }
                command(words)
            },
            SquashState::Done { result } => finish(result),
        }
    }

    fn advance(self, event: Event) -> (state: SquashState)
        ensures
            state@ == self@.next(event@),
    {
        match self {
            SquashState::CheckTree { args } => match event {
                Event::Ran(outcome) => match is_working_directory_clean(outcome) {
                    Ok(true) => SquashState::Announce { args },
                    Ok(false) => SquashState::Done { result: Err(dirty_tree_failure("squashing")) },
                    Err(failure) => SquashState::Done { result: Err(failure) },
                },
                _ => SquashState::CheckTree { args },
            },
            SquashState::Announce { args } => match event {
                Event::Printed => SquashState::Rebase { args },
                _ => SquashState::Announce { args },
            },
            SquashState::Rebase { args } => match event {
                Event::Ran(outcome) => SquashState::Done { result: exec_git_interactive(outcome) },
                _ => SquashState::Rebase { args },
            },
            SquashState::Done { result } => SquashState::Done { result },
        }
    }
}

} // verus!
