use gix::commands::merge::{end_reference, execute, MergeArgs, MergePlan, MergeState};
use gix::workflow::{replay, Action, CommandOutput, Event, Machine, Mode, Style};

fn list(words: &[&str]) -> Vec<String> {
    words.iter().map(|word| word.to_string()).collect()
}

fn ran(stdout: &str, success: bool) -> Event {
    Event::Ran(Ok(CommandOutput { stdout: stdout.to_string(), success }))
}

fn answered(text: &str) -> Event {
    Event::Answered(Ok(text.to_string()))
}

fn asks_git(words: &[&str]) -> Action {
    Action::Run { program: "git".to_string(), args: list(words), mode: Mode::Capture }
}

fn on_terminal(words: &[&str]) -> Action {
    Action::Run { program: "git".to_string(), args: list(words), mode: Mode::Inherit }
}

fn says(style: Style, text: &str) -> Action {
    Action::Print { style, text: text.to_string() }
}

fn fails_with(failure: &str) -> Action {
    Action::Finish { result: Err(failure.to_string()) }
}

fn shares_terminal(action: &Action) -> bool {
    matches!(action, Action::Run { mode: Mode::Inherit, .. })
}

fn given(from: &str, to: &str, msg: &str) -> MergeArgs {
    MergeArgs {
        from: Some(from.to_string()),
        to: Some(to.to_string()),
        msg: Some(msg.to_string()),
    }
}

fn plan(from: &str, to: &str, msg: &str) -> MergePlan {
    MergePlan { from: from.to_string(), to: to.to_string(), msg: msg.to_string() }
}

fn up_to_the_push_question() -> Vec<Event> {
    vec![
        ran("0000aaa\n", true),
        ran("", true),
        Event::Printed,
        ran("", true),
        Event::Printed,
        ran("", true),
        Event::Printed,
    ]
}

const ROOT_REFUSAL: &str = "❌ Cannot merge from the first (root) commit — it has no parent.\n👉 Consider using `git rebase --root` instead.";

#[test]
fn merge_with_all_flags_goes_straight_to_work() {
    let state = execute(given("abc123", "HEAD", "one commit"));
    assert_eq!(state, MergeState::ListRoots { plan: plan("abc123", "HEAD", "one commit") });
    assert_eq!(state.action(), asks_git(&["rev-list", "--max-parents=0", "HEAD"]));
}

#[test]
fn merge_asks_for_what_is_missing() {
    let state = execute(MergeArgs { from: None, to: None, msg: None });
    assert_eq!(
        state.action(),
        Action::AskText {
            message: "Enter the start commit hash:".to_string(),
            default: None,
            required: Some("Start commit hash is required.".to_string()),
        }
    );
    let state = state.advance(answered("abc123"));
    assert_eq!(
        state.action(),
        Action::AskText {
            message: "Enter the end commit hash (leave blank for HEAD):".to_string(),
            default: Some("HEAD".to_string()),
            required: None,
        }
    );
    let state = state.advance(answered("def456"));
    assert_eq!(
        state.action(),
        Action::AskText {
            message: "Enter the new commit message:".to_string(),
            default: None,
            required: Some("Commit message cannot be empty.".to_string()),
        }
    );
    let state = state.advance(answered("one commit"));
    assert_eq!(state, MergeState::ListRoots { plan: plan("abc123", "def456", "one commit") });
}

#[test]
fn merge_asks_only_for_what_is_missing() {
    let state = execute(MergeArgs { from: Some("abc123".to_string()), to: None, msg: None });
    assert_eq!(state, MergeState::AskTo { start: "abc123".to_string(), given_msg: None });
    let state = execute(MergeArgs {
        from: Some("abc123".to_string()),
        to: Some("HEAD".to_string()),
        msg: None,
    });
    assert_eq!(state, MergeState::AskMsg { start: "abc123".to_string(), end: "HEAD".to_string() });
    let state = execute(MergeArgs { from: None, to: None, msg: Some("m".to_string()) })
        .advance(answered("abc123"))
        .advance(answered("HEAD~1"));
    assert_eq!(state, MergeState::ListRoots { plan: plan("abc123", "HEAD~1", "m") });
    let state = execute(MergeArgs {
        from: None,
        to: Some("HEAD".to_string()),
        msg: Some("m".to_string()),
    })
    .advance(answered("abc123"));
    assert_eq!(state, MergeState::ListRoots { plan: plan("abc123", "HEAD", "m") });
}

#[test]
fn merge_takes_a_blank_end_commit_for_head() {
    assert_eq!(end_reference("".to_string()), "HEAD");
    assert_eq!(end_reference("  ".to_string()), "HEAD");
    assert_eq!(end_reference("def456".to_string()), "def456");
    assert_eq!(end_reference(" def456 ".to_string()), " def456 ");
    let state = execute(MergeArgs {
        from: Some("abc123".to_string()),
        to: None,
        msg: Some("m".to_string()),
    })
    .advance(answered(" "));
    assert_eq!(state, MergeState::ListRoots { plan: plan("abc123", "HEAD", "m") });
}

#[test]
fn merge_fails_when_a_prompt_gets_no_answer() {
    let failure = "❌ Failed to get input: Operation was canceled by the user";
    let no_answer = || Event::Answered(Err("Operation was canceled by the user".to_string()));
    let state = execute(MergeArgs { from: None, to: None, msg: None });
    assert_eq!(state.advance(no_answer()).action(), fails_with(failure));
    let state = execute(MergeArgs { from: None, to: None, msg: None }).advance(answered("abc123"));
    assert_eq!(state.advance(no_answer()).action(), fails_with(failure));
    let state = execute(MergeArgs { from: None, to: None, msg: None })
        .advance(answered("abc123"))
        .advance(answered(""));
    assert_eq!(state.advance(no_answer()).action(), fails_with(failure));
}

#[test]
fn merge_from_a_root_commit_is_refused_before_it_runs_anything() {
    let mut state = execute(MergeArgs { from: None, to: None, msg: None });
    let script = vec![
        answered("0000aaa"),
        answered(""),
        answered("one commit"),
        ran("0000aaa\n", true),
        Event::Printed,
        ran("", true),
    ];
    for event in script {
        assert!(!shares_terminal(&state.action()));
        state = state.advance(event);
    }
    assert_eq!(state.action(), fails_with(ROOT_REFUSAL));
}

#[test]
fn merge_finds_the_start_among_several_roots() {
    let listing = "1111aaa\n0000aaa\n2222bbb\n";
    let state = execute(given("0000aaa", "HEAD", "m")).advance(ran(listing, true));
    assert_eq!(state.action(), fails_with(ROOT_REFUSAL));
    let state = execute(given(" 2222bbb ", "HEAD", "m")).advance(ran(listing, true));
    assert_eq!(state.action(), fails_with(ROOT_REFUSAL));
    let state = execute(given("0000aaa", "HEAD", "m")).advance(ran("0000aaa", false));
    assert_eq!(state.action(), fails_with(ROOT_REFUSAL));
}

#[test]
fn merge_from_another_commit_goes_on_to_the_status_query() {
    let state = execute(given("abc123", "HEAD", "m")).advance(ran("0000aaa\n", true));
    assert_eq!(state, MergeState::CheckTree { plan: plan("abc123", "HEAD", "m") });
    assert_eq!(state.action(), asks_git(&["status", "--porcelain"]));
    let state = execute(given("0000", "HEAD", "m")).advance(ran("0000aaa\n", true));
    assert_eq!(state, MergeState::CheckTree { plan: plan("0000", "HEAD", "m") });
}

#[test]
fn merge_refuses_a_dirty_tree_before_it_runs_anything() {
    let mut state = execute(given("abc123", "HEAD", "m"));
    for event in [ran("0000aaa\n", true), ran(" M src/lib.rs\n", true), Event::Printed] {
        assert!(!shares_terminal(&state.action()));
        state = state.advance(event);
    }
    assert_eq!(
        state.action(),
        fails_with(
            "❌ Your working directory is not clean. Please commit, stash, or reset changes before merging."
        )
    );
}

#[test]
fn merge_resets_and_commits() {
    let state = replay(execute(given("abc123", "HEAD", "one commit")), vec![ran("0000aaa\n", true), ran("", true)]);
    assert_eq!(
        state.action(),
        says(
            Style::Plain,
            "\n🔧 Executing:\ngit reset --soft abc123^ && git commit --edit -m \"one commit\" --no-verify\n"
        )
    );
    let state = state.advance(Event::Printed);
    assert_eq!(state.action(), on_terminal(&["reset", "--soft", "abc123^"]));
    let state = state.advance(ran("", true));
    assert_eq!(state.action(), says(Style::Success, "Reset successful"));
    let state = state.advance(Event::Printed);
    assert_eq!(
        state.action(),
        on_terminal(&["commit", "--edit", "-m", "one commit", "--no-verify"])
    );
    let state = state.advance(ran("", true));
    assert_eq!(state.action(), says(Style::Success, "Commit successful"));
    let state = state.advance(Event::Printed);
    assert_eq!(
        state.action(),
        Action::AskChoice {
            message: "Do you want to force push automatically?".to_string(),
            options: list(&["✅ Yes (default)", "❌ No, I will push manually"]),
            cursor: 0,
        }
    );
}

#[test]
fn merge_stops_when_reset_or_commit_fails() {
    let state = replay(
        execute(given("abc123", "HEAD", "m")),
        vec![ran("", true), ran("", true), Event::Printed, ran("", false)],
    );
    assert_eq!(state.action(), fails_with("❌ Git command failed"));
    let state = replay(
        execute(given("abc123", "HEAD", "m")),
        vec![ran("", true), ran("", true), Event::Printed, ran("", true), Event::Printed, ran("", false)],
    );
    assert_eq!(state.action(), fails_with("❌ Git command failed"));
    let state = replay(
        execute(given("abc123", "HEAD", "m")),
        vec![ran("", true), ran("", true), Event::Printed, Event::Ran(Err("gone".to_string()))],
    );
    assert_eq!(state.action(), fails_with("❌ Failed to execute git command: gone"));
}

#[test]
fn merge_pushes_with_force_when_the_branch_has_an_upstream() {
    let state = replay(execute(given("abc123", "HEAD", "m")), up_to_the_push_question());
    assert_eq!(state, MergeState::AskPush);
    let state = state.advance(answered("✅ Yes (default)"));
    assert_eq!(state.action(), asks_git(&["symbolic-ref", "--short", "HEAD"]));
    let state = state.advance(ran("main\n", true));
    assert_eq!(state.action(), asks_git(&["rev-parse", "--abbrev-ref", "main@{u}"]));
    let state = state.advance(ran("origin/main\n", true));
    assert_eq!(state.action(), says(Style::Plain, "\n🚀 Executing git push --force-with-lease\n"));
    let state = state.advance(Event::Printed);
    assert_eq!(state.action(), on_terminal(&["push", "--force-with-lease"]));
    let state = state.advance(ran("", true));
    assert_eq!(state.action(), says(Style::Success, "Force push successful"));
    let state = state.advance(Event::Printed);
    assert_eq!(state.action(), Action::Finish { result: Ok(()) });
}

#[test]
fn merge_sets_the_upstream_when_the_branch_has_none() {
    let state = replay(execute(given("abc123", "HEAD", "m")), up_to_the_push_question());
    let state = replay(state, vec![answered("✅ Yes (default)"), ran("topic\n", true), ran("", false)]);
    assert_eq!(
        state.action(),
        says(
            Style::Plain,
            "\n🚀 No upstream detected. Executing: git push --set-upstream origin topic\n"
        )
    );
    let state = state.advance(Event::Printed);
    assert_eq!(state.action(), on_terminal(&["push", "--set-upstream", "origin", "topic"]));
    let state = state.advance(ran("", true));
    assert_eq!(state.action(), says(Style::Success, "Push & upstream set successfully"));
    let state = state.advance(Event::Printed);
    assert_eq!(state.action(), Action::Finish { result: Ok(()) });
}

#[test]
fn merge_takes_a_git_that_does_not_start_for_no_upstream() {
    let state = replay(execute(given("abc123", "HEAD", "m")), up_to_the_push_question());
    let state = replay(
        state,
        vec![answered("✅ Yes (default)"), ran("topic\n", true), Event::Ran(Err("gone".to_string()))],
    );
    assert_eq!(state, MergeState::AnnounceFirstPush { branch: "topic".to_string() });
}

#[test]
fn merge_leaves_the_push_to_the_user_on_any_other_choice() {
    let state = replay(execute(given("abc123", "HEAD", "m")), up_to_the_push_question());
    let state = state.advance(answered("❌ No, I will push manually"));
    assert_eq!(state.action(), says(Style::Warning, "Please push manually using git push"));
    let state = state.advance(Event::Printed);
    assert_eq!(state.action(), Action::Finish { result: Ok(()) });
    let state = replay(execute(given("abc123", "HEAD", "m")), up_to_the_push_question());
    assert_eq!(state.advance(answered("yes")), MergeState::PushLeft);
}

#[test]
fn merge_fails_when_the_push_question_gets_no_answer() {
    let state = replay(execute(given("abc123", "HEAD", "m")), up_to_the_push_question());
    let state = state.advance(Event::Answered(Err("not a terminal".to_string())));
    assert_eq!(state.action(), fails_with("❌ Failed to get confirmation: not a terminal"));
}

#[test]
fn merge_fails_when_the_push_fails() {
    let state = replay(execute(given("abc123", "HEAD", "m")), up_to_the_push_question());
    let state = replay(
        state,
        vec![answered("✅ Yes (default)"), ran("main\n", true), ran("x", true), Event::Printed, ran("", false)],
    );
    assert_eq!(state.action(), fails_with("❌ Git command failed"));
    let state = replay(execute(given("abc123", "HEAD", "m")), up_to_the_push_question());
    let state = replay(state, vec![answered("✅ Yes (default)"), ran("", false)]);
    assert_eq!(state.action(), fails_with("❌ Failed to get current branch"));
}
