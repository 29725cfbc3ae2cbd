use gix::commands::rebase::{execute, RebaseArgs, RebaseState};
use gix::workflow::{replay, Action, CommandOutput, Event, Machine, Mode, Style};

fn list(words: &[&str]) -> Vec<String> {
    words.iter().map(|word| word.to_string()).collect()
}

fn ran(stdout: &str, success: bool) -> Event {
    Event::Ran(Ok(CommandOutput { stdout: stdout.to_string(), success }))
}

fn asks_git(words: &[&str]) -> Action {
    Action::Run { program: "git".to_string(), args: list(words), mode: Mode::Capture }
}

fn on_terminal(words: &[&str]) -> Action {
    Action::Run { program: "git".to_string(), args: list(words), mode: Mode::Inherit }
}

fn says(style: Style, text: &str) -> Action {
    Action::Print { style, text: text.to_string() }
}

fn shares_terminal(action: &Action) -> bool {
    matches!(action, Action::Run { mode: Mode::Inherit, .. })
}

fn onto(upstream: &str) -> RebaseState {
    execute(RebaseArgs { upstream: Some(upstream.to_string()) })
}

fn onto_configured() -> RebaseState {
    execute(RebaseArgs { upstream: None })
}

#[test]
fn rebase_onto_a_given_upstream() {
    let state = onto("origin/main");
    assert_eq!(state.action(), asks_git(&["status", "--porcelain"]));
    let state = state.advance(ran("", true));
    assert_eq!(state.action(), says(Style::Plain, "🔧 Target upstream: origin/main"));
    let state = state.advance(Event::Printed);
    assert_eq!(state.action(), says(Style::Plain, "🔄 Fetching latest changes..."));
    let state = state.advance(Event::Printed);
    assert_eq!(state.action(), on_terminal(&["fetch"]));
    let state = state.advance(ran("", true));
    assert_eq!(state.action(), says(Style::Plain, "🚀 Rebasing onto origin/main..."));
    let state = state.advance(Event::Printed);
    assert_eq!(state.action(), on_terminal(&["rebase", "origin/main"]));
    let state = state.advance(ran("", true));
    assert_eq!(state.action(), says(Style::Success, "Rebase successful!"));
    let state = state.advance(Event::Printed);
    assert_eq!(state.action(), Action::Finish { result: Ok(()) });
}

#[test]
fn rebase_onto_the_configured_upstream() {
    let state = onto_configured().advance(ran("", true));
    assert_eq!(state.action(), asks_git(&["symbolic-ref", "--short", "HEAD"]));
    let state = state.advance(ran("topic\n", true));
    assert_eq!(state.action(), asks_git(&["rev-parse", "--abbrev-ref", "topic@{u}"]));
    let state = state.advance(ran("origin/topic\n", true));
    assert_eq!(state, RebaseState::ShowTarget { upstream: "origin/topic".to_string() });
    let state = replay(state, vec![Event::Printed, Event::Printed, ran("", true), Event::Printed]);
    assert_eq!(state.action(), on_terminal(&["rebase", "origin/topic"]));
}

#[test]
fn rebase_without_any_upstream_names_the_branch_and_runs_nothing() {
    let mut state = onto_configured();
    for event in [ran("", true), ran("topic\n", true), ran("", false)] {
        assert!(!shares_terminal(&state.action()));
        state = state.advance(event);
    }
    assert_eq!(
        state.action(),
        Action::Finish {
            result: Err(
                "❌ No upstream configured for branch 'topic'.\n👉 Please specify one with --upstream or set it via `git branch --set-upstream-to <remote>/<branch>`"
                    .to_string()
            ),
        }
    );
}

#[test]
fn rebase_refuses_a_dirty_tree_before_it_runs_anything() {
    let start = onto("origin/main");
    assert!(!shares_terminal(&start.action()));
    let state = start.advance(ran("?? notes.txt\n", true));
    assert_eq!(
        state.action(),
        Action::Finish {
            result: Err(
                "❌ Your working directory is not clean. Please commit, stash, or reset changes before rebasing."
                    .to_string()
            ),
        }
    );
}

#[test]
fn rebase_fails_when_the_fetch_fails() {
    let state = replay(
        onto("origin/main"),
        vec![ran("", true), Event::Printed, Event::Printed, ran("", false)],
    );
    assert_eq!(
        state.action(),
        Action::Finish { result: Err("❌ Failed to fetch: ❌ Git command failed".to_string()) }
    );
    let state = replay(
        onto("origin/main"),
        vec![ran("", true), Event::Printed, Event::Printed, Event::Ran(Err("gone".to_string()))],
    );
    assert_eq!(
        state.action(),
        Action::Finish {
            result: Err("❌ Failed to fetch: ❌ Failed to execute git command: gone".to_string()),
        }
    );
}

#[test]
fn rebase_that_stops_tells_how_to_go_on() {
    let state = replay(
        onto("origin/main"),
        vec![ran("", true), Event::Printed, Event::Printed, ran("", true), Event::Printed, ran("", false)],
    );
    assert_eq!(state.action(), says(Style::Alert, "\n❌ Rebase encountered conflicts or failed."));
    let state = state.advance(Event::Printed);
    assert_eq!(state.action(), says(Style::Warning, "Please resolve conflicts manually."));
    let state = state.advance(Event::Printed);
    assert_eq!(
        state.action(),
        says(Style::Plain, "👉 After resolving:\n   1. git add <files>\n   2. git rebase --continue")
    );
    let state = state.advance(Event::Printed);
    assert_eq!(state.action(), says(Style::Plain, "👉 To abort:\n   git rebase --abort"));
    let state = state.advance(Event::Printed);
    assert_eq!(
        state.action(),
        Action::Finish { result: Err("Rebase failed. See instructions above.".to_string()) }
    );
}

#[test]
fn rebase_fails_when_git_does_not_start() {
    let state = onto("origin/main").advance(Event::Ran(Err("gone".to_string())));
    assert_eq!(
        state.action(),
        Action::Finish { result: Err("❌ Failed to execute git command: gone".to_string()) }
    );
    let state = replay(
        onto_configured(),
        vec![ran("", true), ran("topic\n", true), Event::Ran(Err("gone".to_string()))],
    );
    assert_eq!(
        state.action(),
        Action::Finish { result: Err("❌ Failed to execute git command: gone".to_string()) }
    );
}

#[test]
fn rebase_fails_on_a_detached_head() {
    let state = replay(onto_configured(), vec![ran("", true), ran("", false)]);
    assert_eq!(
        state.action(),
        Action::Finish { result: Err("❌ Failed to get current branch".to_string()) }
    );
}
