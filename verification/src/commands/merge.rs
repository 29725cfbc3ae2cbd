//! Merge: the commits from a start commit up to HEAD become one commit.
//!
//! The workflow collects the start commit, the end commit and the new
//! message, refuses a start at a root commit and a working tree that is not
//! clean, resets softly onto the parent of the start commit, commits anew,
//! and then offers to push.

use crate::commands::{
    branch_args, branch_query, command, confirmation_failure, current_branch, dirty_tree,
    dirty_tree_failure, exec_git, exec_git_interactive, get_current_branch, git_command, git_output,
    git_query, git_success, has_upstream, input_failure, is_working_directory_clean, query,
    status_args, status_query, tree_is_clean, upstream_args, upstream_known, upstream_query,
};
use crate::text::{blank, has_line, join, push_word, same_text, some_line_trims_to, trimmed};
use crate::workflow::{
    ask_text, finish, lemma_finished_for_good, lemma_progress_grows, mutates, result_view, say,
    state_at, Action, ActionView, CommandOutputView, Event, EventView, Machine, Style, Workflow,
};
use vstd::prelude::*;

verus! {

/// What a merge is given on the command line. What is absent is asked for.
#[derive(Debug, PartialEq, Eq)]
pub struct MergeArgs {
    /// The start commit.
    pub from: Option<String>,
    /// The end commit.
    pub to: Option<String>,
    /// The message of the new commit.
    pub msg: Option<String>,
}

/// The view of [`MergeArgs`].
pub struct MergeArgsView {
    pub from: Option<Seq<char>>,
    pub to: Option<Seq<char>>,
    pub msg: Option<Seq<char>>,
}

impl View for MergeArgs {
    type V = MergeArgsView;

    open spec fn view(&self) -> MergeArgsView {
        MergeArgsView {
            from: self.from.deep_view(),
            to: self.to.deep_view(),
            msg: self.msg.deep_view(),
        }
    }
}

/// What a merge works on, once all of it is known.
#[derive(Debug, PartialEq, Eq)]
pub struct MergePlan {
    /// The start commit: the first of the commits that become one.
    pub from: String,
    /// The end commit. It is collected, and nothing reads it: the merge
    /// always ends at HEAD.
    pub to: String,
    /// The message of the new commit.
    pub msg: String,
}

/// The view of a [`MergePlan`].
pub struct MergePlanView {
    pub from: Seq<char>,
    pub to: Seq<char>,
    pub msg: Seq<char>,
}

impl View for MergePlan {
    type V = MergePlanView;

    open spec fn view(&self) -> MergePlanView {
        MergePlanView { from: self.from@, to: self.to@, msg: self.msg@ }
    }
}

/// Where a merge stands.
#[derive(Debug, PartialEq, Eq)]
pub enum MergeState {
    /// Asking for the start commit.
    AskFrom { given_to: Option<String>, given_msg: Option<String> },
    /// Asking for the end commit.
    AskTo { start: String, given_msg: Option<String> },
    /// Asking for the message.
    AskMsg { start: String, end: String },
    /// Asking git for the root commits.
    ListRoots { plan: MergePlan },
    /// Asking git whether the working tree is clean.
    CheckTree { plan: MergePlan },
    /// Telling the user what is about to run.
    Announce { plan: MergePlan },
    /// Resetting softly onto the parent of the start commit.
    Reset { plan: MergePlan },
    /// Reporting the reset.
    ResetDone { msg: String },
    /// Committing.
    Commit { msg: String },
    /// Reporting the commit.
    CommitDone,
    /// Asking whether to push.
    AskPush,
    /// Asking git for the current branch.
    FindBranch,
    /// Asking git whether the branch has an upstream.
    FindUpstream { branch: String },
    /// Telling the user that the push will set the upstream.
    AnnounceFirstPush { branch: String },
    /// Pushing, and setting the upstream.
    FirstPush { branch: String },
    /// Reporting that push.
    FirstPushDone,
    /// Telling the user that the push will be forced.
    AnnounceForcePush,
    /// Pushing with force, unless the remote has moved.
    ForcePush,
    /// Reporting that push.
    ForcePushDone,
    /// Leaving the push to the user.
    PushLeft,
    /// Over.
    Done { result: Result<(), String> },
}

/// The view of a [`MergeState`].
pub enum MergeStateView {
    AskFrom { given_to: Option<Seq<char>>, given_msg: Option<Seq<char>> },
    AskTo { start: Seq<char>, given_msg: Option<Seq<char>> },
    AskMsg { start: Seq<char>, end: Seq<char> },
    ListRoots { plan: MergePlanView },
    CheckTree { plan: MergePlanView },
    Announce { plan: MergePlanView },
    Reset { plan: MergePlanView },
    ResetDone { msg: Seq<char> },
    Commit { msg: Seq<char> },
    CommitDone,
    AskPush,
    FindBranch,
    FindUpstream { branch: Seq<char> },
    AnnounceFirstPush { branch: Seq<char> },
    FirstPush { branch: Seq<char> },
    FirstPushDone,
    AnnounceForcePush,
    ForcePush,
    ForcePushDone,
    PushLeft,
    Done { result: Result<(), Seq<char>> },
}

impl View for MergeState {
    type V = MergeStateView;

    open spec fn view(&self) -> MergeStateView {
        match *self {
            MergeState::AskFrom { given_to, given_msg } => MergeStateView::AskFrom {
                given_to: given_to.deep_view(),
                given_msg: given_msg.deep_view(),
            },
            MergeState::AskTo { start, given_msg } => MergeStateView::AskTo {
                start: start@,
                given_msg: given_msg.deep_view(),
            },
            MergeState::AskMsg { start, end } => MergeStateView::AskMsg { start: start@, end: end@ },
            MergeState::ListRoots { plan } => MergeStateView::ListRoots { plan: plan@ },
            MergeState::CheckTree { plan } => MergeStateView::CheckTree { plan: plan@ },
            MergeState::Announce { plan } => MergeStateView::Announce { plan: plan@ },
            MergeState::Reset { plan } => MergeStateView::Reset { plan: plan@ },
            MergeState::ResetDone { msg } => MergeStateView::ResetDone { msg: msg@ },
            MergeState::Commit { msg } => MergeStateView::Commit { msg: msg@ },
            MergeState::CommitDone => MergeStateView::CommitDone,
            MergeState::AskPush => MergeStateView::AskPush,
            MergeState::FindBranch => MergeStateView::FindBranch,
            MergeState::FindUpstream { branch } => MergeStateView::FindUpstream { branch: branch@ },
            MergeState::AnnounceFirstPush { branch } => MergeStateView::AnnounceFirstPush {
                branch: branch@,
            },
            MergeState::FirstPush { branch } => MergeStateView::FirstPush { branch: branch@ },
            MergeState::FirstPushDone => MergeStateView::FirstPushDone,
            MergeState::AnnounceForcePush => MergeStateView::AnnounceForcePush,
            MergeState::ForcePush => MergeStateView::ForcePush,
            MergeState::ForcePushDone => MergeStateView::ForcePushDone,
            MergeState::PushLeft => MergeStateView::PushLeft,
            MergeState::Done { result } => MergeStateView::Done { result: result_view(result) },
        }
    }
}

/// The end commit that an answer stands for: HEAD where the answer is
/// blank, else the answer.
pub open spec fn end_commit(answer: Seq<char>) -> Seq<char> {
    if trimmed(answer).len() == 0 {
        "HEAD"@
    } else {
        answer
    }
}

/// The refusal of a start at a root commit.
pub open spec fn root_refusal() -> Seq<char> {
    "❌ Cannot merge from the first (root) commit — it has no parent.\n👉 Consider using `git rebase --root` instead."@
}

/// The option of the push prompt that stands for yes.
pub open spec fn push_yes() -> Seq<char> {
    "✅ Yes (default)"@
}

/// The option of the push prompt that stands for no.
pub open spec fn push_no() -> Seq<char> {
    "❌ No, I will push manually"@
}

/// The arguments of the query for the root commits: the ancestors of HEAD
/// that have no parent, one hash to the line.
pub open spec fn roots_args() -> Seq<Seq<char>> {
    seq!["rev-list"@, "--max-parents=0"@, "HEAD"@]
}

/// Whether `listing`, the answer to the query for the root commits, names
/// the commit `start`: whether one of its lines, trimmed, is `start`
/// trimmed.
pub open spec fn names_root(listing: Seq<char>, start: Seq<char>) -> bool {
    some_line_trims_to(listing, trimmed(start))
}

/// The arguments of the soft reset onto the parent of `start`.
pub open spec fn reset_args(start: Seq<char>) -> Seq<Seq<char>> {
    seq!["reset"@, "--soft"@, start + "^"@]
}

/// The arguments of the commit with the message `msg`: the editor opens on
/// the message, and the hooks before a commit are passed over.
pub open spec fn commit_args(msg: Seq<char>) -> Seq<Seq<char>> {
    seq!["commit"@, "--edit"@, "-m"@, msg, "--no-verify"@]
}

/// The arguments of the push that sets the upstream of `branch`.
pub open spec fn first_push_args(branch: Seq<char>) -> Seq<Seq<char>> {
    seq!["push"@, "--set-upstream"@, "origin"@, branch]
}

/// The arguments of the forced push, which the remote's lease protects.
pub open spec fn force_push_args() -> Seq<Seq<char>> {
    seq!["push"@, "--force-with-lease"@]
}

/// The lines that tell what a merge is about to run.
pub open spec fn plan_announcement(plan: MergePlanView) -> Seq<char> {
    "\n🔧 Executing:\ngit reset --soft "@ + plan.from + "^ && git commit --edit -m \""@ + plan.msg
        + "\" --no-verify\n"@
}

/// The lines that tell of the push that sets the upstream of `branch`.
pub open spec fn first_push_announcement(branch: Seq<char>) -> Seq<char> {
    "\n🚀 No upstream detected. Executing: git push --set-upstream origin "@ + branch + "\n"@
}

/// The state for a merge whose start commit is known.
pub open spec fn merge_after_from(
    start: Seq<char>,
    given_to: Option<Seq<char>>,
    given_msg: Option<Seq<char>>,
) -> MergeStateView {
    match given_to {
        Some(end) => merge_after_to(start, end, given_msg),
        None => MergeStateView::AskTo { start, given_msg },
    }
}

/// The state for a merge whose start and end commit are known.
pub open spec fn merge_after_to(
    start: Seq<char>,
    end: Seq<char>,
    given_msg: Option<Seq<char>>,
) -> MergeStateView {
    match given_msg {
        Some(msg) => MergeStateView::ListRoots { plan: MergePlanView { from: start, to: end, msg } },
        None => MergeStateView::AskMsg { start, end },
    }
}

/// The state in which a merge begins: it asks for the first of start
/// commit, end commit and message that `args` lacks, and goes to work where
/// it lacks none.
pub open spec fn merge_start(args: MergeArgsView) -> MergeStateView {
    match args.from {
        Some(start) => merge_after_from(start, args.to, args.msg),
        None => MergeStateView::AskFrom { given_to: args.to, given_msg: args.msg },
    }
}

/// The state of a merge that failed with `failure`.
pub open spec fn merge_failed(failure: Seq<char>) -> MergeStateView {
    MergeStateView::Done { result: Err(failure) }
}

/// The state that follows a command on the terminal: `then` where it
/// succeeded, the failure where it did not.
pub open spec fn merge_after_command(
    outcome: Result<CommandOutputView, Seq<char>>,
    then: MergeStateView,
) -> MergeStateView {
    match git_success(outcome) {
        Ok(()) => then,
        Err(failure) => merge_failed(failure),
    }
}

impl Workflow for MergeStateView {
    open spec fn request(self) -> ActionView {
        match self {
            MergeStateView::AskFrom { .. } => ActionView::AskText {
                message: "Enter the start commit hash:"@,
                default: None,
                required: Some("Start commit hash is required."@),
            },
            MergeStateView::AskTo { .. } => ActionView::AskText {
                message: "Enter the end commit hash (leave blank for HEAD):"@,
                default: Some("HEAD"@),
                required: None,
            },
            MergeStateView::AskMsg { .. } => ActionView::AskText {
                message: "Enter the new commit message:"@,
                default: None,
                required: Some("Commit message cannot be empty."@),
            },
            MergeStateView::ListRoots { .. } => git_query(roots_args()),
            MergeStateView::CheckTree { .. } => git_query(status_args()),
            MergeStateView::Announce { plan } => ActionView::Print {
                style: Style::Plain,
                text: plan_announcement(plan),
            },
            MergeStateView::Reset { plan } => git_command(reset_args(plan.from)),
            MergeStateView::ResetDone { .. } => ActionView::Print {
                style: Style::Success,
                text: "Reset successful"@,
            },
            MergeStateView::Commit { msg } => git_command(commit_args(msg)),
            MergeStateView::CommitDone => ActionView::Print {
                style: Style::Success,
                text: "Commit successful"@,
            },
            MergeStateView::AskPush => ActionView::AskChoice {
                message: "Do you want to force push automatically?"@,
                options: seq![push_yes(), push_no()],
                cursor: 0,
            },
            MergeStateView::FindBranch => git_query(branch_args()),
            MergeStateView::FindUpstream { branch } => git_query(upstream_args(branch)),
            MergeStateView::AnnounceFirstPush { branch } => ActionView::Print {
                style: Style::Plain,
                text: first_push_announcement(branch),
            },
            MergeStateView::FirstPush { branch } => git_command(first_push_args(branch)),
            MergeStateView::FirstPushDone => ActionView::Print {
                style: Style::Success,
                text: "Push & upstream set successfully"@,
            },
            MergeStateView::AnnounceForcePush => ActionView::Print {
                style: Style::Plain,
                text: "\n🚀 Executing git push --force-with-lease\n"@,
            },
            MergeStateView::ForcePush => git_command(force_push_args()),
            MergeStateView::ForcePushDone => ActionView::Print {
                style: Style::Success,
                text: "Force push successful"@,
            },
            MergeStateView::PushLeft => ActionView::Print {
                style: Style::Warning,
                text: "Please push manually using git push"@,
            },
            MergeStateView::Done { result } => ActionView::Finish { result },
        }
    }

    open spec fn next(self, event: EventView) -> MergeStateView {
        match self {
            MergeStateView::AskFrom { given_to, given_msg } => match event {
                EventView::Answered(Ok(answer)) => merge_after_from(answer, given_to, given_msg),
                EventView::Answered(Err(reason)) => merge_failed(input_failure(reason)),
                _ => self,
            },
            MergeStateView::AskTo { start, given_msg } => match event {
                EventView::Answered(Ok(answer)) => merge_after_to(
                    start,
                    end_commit(answer),
                    given_msg,
                ),
                EventView::Answered(Err(reason)) => merge_failed(input_failure(reason)),
                _ => self,
            },
            MergeStateView::AskMsg { start, end } => match event {
                EventView::Answered(Ok(answer)) => MergeStateView::ListRoots {
                    plan: MergePlanView { from: start, to: end, msg: answer },
                },
                EventView::Answered(Err(reason)) => merge_failed(input_failure(reason)),
                _ => self,
            },
            MergeStateView::ListRoots { plan } => match event {
                EventView::Ran(outcome) => match git_output(outcome) {
                    Ok(output) => if names_root(output.stdout, plan.from) {
                        merge_failed(root_refusal())
                    } else {
                        MergeStateView::CheckTree { plan }
                    },
                    Err(failure) => merge_failed(failure),
                },
                _ => self,
            },
            MergeStateView::CheckTree { plan } => match event {
                EventView::Ran(outcome) => match tree_is_clean(outcome) {
                    Ok(true) => MergeStateView::Announce { plan },
                    Ok(false) => merge_failed(dirty_tree("merging"@)),
                    Err(failure) => merge_failed(failure),
                },
                _ => self,
            },
            MergeStateView::Announce { plan } => match event {
                EventView::Printed => MergeStateView::Reset { plan },
                _ => self,
            },
            MergeStateView::Reset { plan } => match event {
                EventView::Ran(outcome) => merge_after_command(
                    outcome,
                    MergeStateView::ResetDone { msg: plan.msg },
                ),
                _ => self,
            },
            MergeStateView::ResetDone { msg } => match event {
                EventView::Printed => MergeStateView::Commit { msg },
                _ => self,
            },
            MergeStateView::Commit { .. } => match event {
                EventView::Ran(outcome) => merge_after_command(outcome, MergeStateView::CommitDone),
                _ => self,
            },
            MergeStateView::CommitDone => match event {
                EventView::Printed => MergeStateView::AskPush,
                _ => self,
            },
            MergeStateView::AskPush => match event {
                EventView::Answered(Ok(answer)) => if answer == push_yes() {
                    MergeStateView::FindBranch
                } else {
                    MergeStateView::PushLeft
                },
                EventView::Answered(Err(reason)) => merge_failed(confirmation_failure(reason)),
                _ => self,
            },
            MergeStateView::FindBranch => match event {
                EventView::Ran(outcome) => match current_branch(outcome) {
                    Ok(branch) => MergeStateView::FindUpstream { branch },
                    Err(failure) => merge_failed(failure),
                },
                _ => self,
            },
            MergeStateView::FindUpstream { branch } => match event {
                EventView::Ran(outcome) => if upstream_known(outcome) {
                    MergeStateView::AnnounceForcePush
                } else {
                    MergeStateView::AnnounceFirstPush { branch }
                },
                _ => self,
            },
            MergeStateView::AnnounceFirstPush { branch } => match event {
                EventView::Printed => MergeStateView::FirstPush { branch },
                _ => self,
            },
            MergeStateView::FirstPush { .. } => match event {
                EventView::Ran(outcome) => merge_after_command(
                    outcome,
                    MergeStateView::FirstPushDone,
                ),
                _ => self,
            },
            MergeStateView::FirstPushDone => match event {
                EventView::Printed => MergeStateView::Done { result: Ok(()) },
                _ => self,
            },
            MergeStateView::AnnounceForcePush => match event {
                EventView::Printed => MergeStateView::ForcePush,
                _ => self,
            },
            MergeStateView::ForcePush => match event {
                EventView::Ran(outcome) => merge_after_command(
                    outcome,
                    MergeStateView::ForcePushDone,
                ),
                _ => self,
            },
            MergeStateView::ForcePushDone => match event {
                EventView::Printed => MergeStateView::Done { result: Ok(()) },
                _ => self,
            },
            MergeStateView::PushLeft => match event {
                EventView::Printed => MergeStateView::Done { result: Ok(()) },
                _ => self,
            },
            MergeStateView::Done { .. } => self,
        }
    }

    open spec fn progress(self) -> nat {
        match self {
            MergeStateView::AskFrom { .. } => 0,
            MergeStateView::AskTo { .. } => 1,
            MergeStateView::AskMsg { .. } => 2,
            MergeStateView::ListRoots { .. } => 3,
            MergeStateView::CheckTree { .. } => 4,
            MergeStateView::Announce { .. } => 5,
            MergeStateView::Reset { .. } => 6,
            MergeStateView::ResetDone { .. } => 7,
            MergeStateView::Commit { .. } => 8,
            MergeStateView::CommitDone => 9,
            MergeStateView::AskPush => 10,
            MergeStateView::FindBranch => 11,
            MergeStateView::FindUpstream { .. } => 12,
            MergeStateView::AnnounceFirstPush { .. } => 13,
            MergeStateView::FirstPush { .. } => 14,
            MergeStateView::FirstPushDone => 15,
            MergeStateView::AnnounceForcePush => 13,
            MergeStateView::ForcePush => 14,
            MergeStateView::ForcePushDone => 15,
            MergeStateView::PushLeft => 15,
            MergeStateView::Done { .. } => 16,
        }
    }

    proof fn lemma_never_back(self, event: EventView) {
    }

    proof fn lemma_finish_is_final(self, event: EventView) {
    }
}

/// Whether a merge in `state` is still preparing: collecting what it works
/// on, checking the repository, or announcing what is about to run.
pub open spec fn preparing(state: MergeStateView) -> bool {
    ||| state is AskFrom
    ||| state is AskTo
    ||| state is AskMsg
    ||| state is ListRoots
    ||| state is CheckTree
    ||| state is Announce
}

/// A merge that is still preparing asks for nothing on the terminal: it
/// asks the user, queries git, or prints.
pub proof fn lemma_merge_prepares_harmlessly(state: MergeStateView)
    requires
        preparing(state),
    ensures
        !mutates(state.request()),
{
}

/// A merge does not begin at a root commit. Where the listing of the root
/// commits names the start commit, the merge ends at once with the refusal,
/// and at no point of the run does it ask for a command on the terminal: not
/// before, and not after.
pub proof fn lemma_merge_refuses_root(
    args: MergeArgsView,
    events: Seq<EventView>,
    k: nat,
    plan: MergePlanView,
    output: CommandOutputView,
    n: nat,
)
    requires
        k < events.len(),
        state_at(merge_start(args), events, k) == (MergeStateView::ListRoots { plan }),
        events[k as int] == EventView::Ran(Ok(output)),
        names_root(output.stdout, plan.from),
        n <= events.len(),
    ensures
        !mutates(state_at(merge_start(args), events, n).request()),
        n > k ==> state_at(merge_start(args), events, n) == merge_failed(root_refusal()),
{
    let start = merge_start(args);
    if n <= k {
        lemma_progress_grows(start, events, n, k);
        lemma_merge_prepares_harmlessly(state_at(start, events, n));
    } else {
        assert(state_at(start, events, k + 1) == merge_failed(root_refusal()));
        lemma_finished_for_good(start, events, k + 1, n);
    }
}

/// A merge is refused while the working tree is not clean. Where the status
/// query has anything but white space to say, the merge ends at once with
/// the failure that says so, and at no point of the run does it ask for a
/// command on the terminal.
pub proof fn lemma_merge_refuses_dirty_tree(
    args: MergeArgsView,
    events: Seq<EventView>,
    k: nat,
    plan: MergePlanView,
    output: CommandOutputView,
    n: nat,
)
    requires
        k < events.len(),
        state_at(merge_start(args), events, k) == (MergeStateView::CheckTree { plan }),
        events[k as int] == EventView::Ran(Ok(output)),
        trimmed(output.stdout).len() > 0,
        n <= events.len(),
    ensures
        !mutates(state_at(merge_start(args), events, n).request()),
        n > k ==> state_at(merge_start(args), events, n) == merge_failed(dirty_tree("merging"@)),
{
    let start = merge_start(args);
    if n <= k {
        lemma_progress_grows(start, events, n, k);
        lemma_merge_prepares_harmlessly(state_at(start, events, n));
    } else {
        assert(state_at(start, events, k + 1) == merge_failed(dirty_tree("merging"@)));
        lemma_finished_for_good(start, events, k + 1, n);
    }
}

/// The state for a merge whose start and end commit are known.
fn after_to(start: String, end: String, given_msg: Option<String>) -> (state: MergeState)
    ensures
        state@ == merge_after_to(start@, end@, given_msg.deep_view()),
{
    match given_msg {
        Some(msg) => MergeState::ListRoots { plan: MergePlan { from: start, to: end, msg } },
        None => MergeState::AskMsg { start, end },
    }
}

/// The state for a merge whose start commit is known.
fn after_from(start: String, given_to: Option<String>, given_msg: Option<String>) -> (state:
    MergeState)
    ensures
        state@ == merge_after_from(start@, given_to.deep_view(), given_msg.deep_view()),
{
    match given_to {
        Some(end) => after_to(start, end, given_msg),
        None => MergeState::AskTo { start, given_msg },
    }
}

/// The state of a merge that failed with `failure`.
fn failed(failure: String) -> (state: MergeState)
    ensures
        state@ == merge_failed(failure@),
{
    MergeState::Done { result: Err(failure) }
}

/// The state that follows a command on the terminal.
fn after_command(outcome: Result<crate::workflow::CommandOutput, String>, then: MergeState) -> (state:
    MergeState)
    ensures
        state@ == merge_after_command(result_view(outcome), then@),
{
    match exec_git_interactive(outcome) {
        Ok(()) => then,
        Err(failure) => failed(failure),
    }
}

/// The end commit that `answer` stands for.
pub fn end_reference(answer: String) -> (end: String)
    ensures
        end@ == end_commit(answer@),
{
    if blank(answer.as_str()) {
        String::from_str("HEAD")
    } else {
        answer
    }
}

/// Begins the merge that `args` describes.
pub fn execute(args: MergeArgs) -> (state: MergeState)
    ensures
        state@ == merge_start(args@),
{
    let MergeArgs { from, to, msg } = args;
    match from {
        Some(start) => after_from(start, to, msg),
        None => MergeState::AskFrom { given_to: to, given_msg: msg },
    }
}

impl Machine for MergeState {
    fn action(&self) -> (action: Action)
        ensures
            action@ == self@.request(),
    {
        match self {
            MergeState::AskFrom { .. } => ask_text(
                "Enter the start commit hash:",
                None,
                Some("Start commit hash is required."),
            ),
            MergeState::AskTo { .. } => ask_text(
                "Enter the end commit hash (leave blank for HEAD):",
                Some("HEAD"),
                None,
            ),
            MergeState::AskMsg { .. } => ask_text(
                "Enter the new commit message:",
                None,
                Some("Commit message cannot be empty."),
            ),
            MergeState::ListRoots { .. } => {
                let mut words: Vec<String> = Vec::new();
                push_word(&mut words, "rev-list");
                push_word(&mut words, "--max-parents=0");
                push_word(&mut words, "HEAD");
                assert(words.deep_view() =~= roots_args());
                query(words)
            },
            MergeState::CheckTree { .. } => status_query(),
            MergeState::Announce { plan } => {
                let mut text = String::from_str("\n🔧 Executing:\ngit reset --soft ");
                text.append(plan.from.as_str());
                text.append("^ && git commit --edit -m \"");
                text.append(plan.msg.as_str());
                text.append("\" --no-verify\n");
                say(Style::Plain, text.as_str())
            },
            MergeState::Reset { plan } => {
                let mut words: Vec<String> = Vec::new();
                push_word(&mut words, "reset");
                push_word(&mut words, "--soft");
                push_word(&mut words, join(plan.from.as_str(), "^").as_str());
                assert(words.deep_view() =~= reset_args(plan.from@));
                command(words)
            },
            MergeState::ResetDone { .. } => say(Style::Success, "Reset successful"),
            MergeState::Commit { msg } => {
                let mut words: Vec<String> = Vec::new();
                push_word(&mut words, "commit");
                push_word(&mut words, "--edit");
                push_word(&mut words, "-m");
                push_word(&mut words, msg.as_str());
                push_word(&mut words, "--no-verify");
                assert(words.deep_view() =~= commit_args(msg@));
                command(words)
            },
            MergeState::CommitDone => say(Style::Success, "Commit successful"),
            MergeState::AskPush => {
                let mut options: Vec<String> = Vec::new();
                push_word(&mut options, "✅ Yes (default)");
                push_word(&mut options, "❌ No, I will push manually");
                assert(options.deep_view() =~= seq![push_yes(), push_no()]);
                Action::AskChoice {
                    message: String::from_str("Do you want to force push automatically?"),
                    options,
                    cursor: 0,
                }
            },
            MergeState::FindBranch => branch_query(),
            MergeState::FindUpstream { branch } => upstream_query(branch.as_str()),
            MergeState::AnnounceFirstPush { branch } => {
                let mut text = String::from_str(
                    "\n🚀 No upstream detected. Executing: git push --set-upstream origin ",
                );
                text.append(branch.as_str());
                text.append("\n");
                say(Style::Plain, text.as_str())
            },
            MergeState::FirstPush { branch } => {
                let mut words: Vec<String> = Vec::new();
                push_word(&mut words, "push");
                push_word(&mut words, "--set-upstream");
                push_word(&mut words, "origin");
                push_word(&mut words, branch.as_str());
                assert(words.deep_view() =~= first_push_args(branch@));
                command(words)
            },
            MergeState::FirstPushDone => say(Style::Success, "Push & upstream set successfully"),
            MergeState::AnnounceForcePush => say(
                Style::Plain,
                "\n🚀 Executing git push --force-with-lease\n",
            ),
            MergeState::ForcePush => {
                let mut words: Vec<String> = Vec::new();
                push_word(&mut words, "push");
                push_word(&mut words, "--force-with-lease");
                assert(words.deep_view() =~= force_push_args());
                command(words)
            },
            MergeState::ForcePushDone => say(Style::Success, "Force push successful"),
            MergeState::PushLeft => say(Style::Warning, "Please push manually using git push"),
            MergeState::Done { result } => finish(result),
        }
    }

    fn advance(self, event: Event) -> (state: MergeState)
        ensures
            state@ == self@.next(event@),
    {
        match self {
            MergeState::AskFrom { given_to, given_msg } => match event {
                Event::Answered(Ok(answer)) => after_from(answer, given_to, given_msg),
                Event::Answered(Err(reason)) => failed(
                    join("❌ Failed to get input: ", reason.as_str()),
                ),
                _ => MergeState::AskFrom { given_to, given_msg },
            },
            MergeState::AskTo { start, given_msg } => match event {
                Event::Answered(Ok(answer)) => after_to(start, end_reference(answer), given_msg),
                Event::Answered(Err(reason)) => failed(
                    join("❌ Failed to get input: ", reason.as_str()),
                ),
                _ => MergeState::AskTo { start, given_msg },
            },
            MergeState::AskMsg { start, end } => match event {
                Event::Answered(Ok(answer)) => MergeState::ListRoots {
                    plan: MergePlan { from: start, to: end, msg: answer },
                },
                Event::Answered(Err(reason)) => failed(
                    join("❌ Failed to get input: ", reason.as_str()),
                ),
                _ => MergeState::AskMsg { start, end },
            },
            MergeState::ListRoots { plan } => match event {
                Event::Ran(outcome) => match exec_git(outcome) {
                    Ok(output) => if has_line(output.stdout.as_str(), plan.from.as_str()) {
                        failed(
                            String::from_str(
                                "❌ Cannot merge from the first (root) commit — it has no parent.\n👉 Consider using `git rebase --root` instead.",
                            ),
                        )
                    } else {
                        MergeState::CheckTree { plan }
                    },
                    Err(failure) => failed(failure),
                },
                _ => MergeState::ListRoots { plan },
            },
            MergeState::CheckTree { plan } => match event {
                Event::Ran(outcome) => match is_working_directory_clean(outcome) {
                    Ok(true) => MergeState::Announce { plan },
                    Ok(false) => failed(dirty_tree_failure("merging")),
                    Err(failure) => failed(failure),
                },
                _ => MergeState::CheckTree { plan },
            },
            MergeState::Announce { plan } => match event {
                Event::Printed => MergeState::Reset { plan },
                _ => MergeState::Announce { plan },
            },
            MergeState::Reset { plan } => match event {
                Event::Ran(outcome) => after_command(outcome, MergeState::ResetDone { msg: plan.msg }),
                _ => MergeState::Reset { plan },
            },
            MergeState::ResetDone { msg } => match event {
                Event::Printed => MergeState::Commit { msg },
                _ => MergeState::ResetDone { msg },
            },
            MergeState::Commit { msg } => match event {
                Event::Ran(outcome) => after_command(outcome, MergeState::CommitDone),
                _ => MergeState::Commit { msg },
            },
            MergeState::CommitDone => match event {
                Event::Printed => MergeState::AskPush,
                _ => MergeState::CommitDone,
            },
            MergeState::AskPush => match event {
                Event::Answered(Ok(answer)) => if same_text(answer.as_str(), "✅ Yes (default)") {
                    MergeState::FindBranch
                } else {
                    MergeState::PushLeft
                },
                Event::Answered(Err(reason)) => failed(
                    join("❌ Failed to get confirmation: ", reason.as_str()),
                ),
                _ => MergeState::AskPush,
            },
            MergeState::FindBranch => match event {
                Event::Ran(outcome) => match get_current_branch(outcome) {
                    Ok(branch) => MergeState::FindUpstream { branch },
                    Err(failure) => failed(failure),
                },
                _ => MergeState::FindBranch,
            },
            MergeState::FindUpstream { branch } => match event {
                Event::Ran(outcome) => if has_upstream(outcome) {
                    MergeState::AnnounceForcePush
                } else {
                    MergeState::AnnounceFirstPush { branch }
                },
                _ => MergeState::FindUpstream { branch },
            },
            MergeState::AnnounceFirstPush { branch } => match event {
                Event::Printed => MergeState::FirstPush { branch },
                _ => MergeState::AnnounceFirstPush { branch },
            },
            MergeState::FirstPush { branch } => match event {
                Event::Ran(outcome) => after_command(outcome, MergeState::FirstPushDone),
                _ => MergeState::FirstPush { branch },
            },
            MergeState::FirstPushDone => match event {
                Event::Printed => MergeState::Done { result: Ok(()) },
                _ => MergeState::FirstPushDone,
            },
            MergeState::AnnounceForcePush => match event {
                Event::Printed => MergeState::ForcePush,
                _ => MergeState::AnnounceForcePush,
            },
            MergeState::ForcePush => match event {
                Event::Ran(outcome) => after_command(outcome, MergeState::ForcePushDone),
                _ => MergeState::ForcePush,
            },
            MergeState::ForcePushDone => match event {
                Event::Printed => MergeState::Done { result: Ok(()) },
                _ => MergeState::ForcePushDone,
            },
            MergeState::PushLeft => match event {
                Event::Printed => MergeState::Done { result: Ok(()) },
                _ => MergeState::PushLeft,
            },
            MergeState::Done { result } => MergeState::Done { result },
        }
    }
}

} // verus!
