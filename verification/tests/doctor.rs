use gix::commands::doctor::{execute, DoctorState};
use gix::workflow::{replay, Action, CommandOutput, Event, Machine, Mode, Style};

fn list(words: &[&str]) -> Vec<String> {
    words.iter().map(|word| word.to_string()).collect()
}

fn ran(stdout: &str, success: bool) -> Event {
    Event::Ran(Ok(CommandOutput { stdout: stdout.to_string(), success }))
}

fn not_started() -> Event {
    Event::Ran(Err("No such file or directory (os error 2)".to_string()))
}

fn asks(program: &str, words: &[&str]) -> Action {
    Action::Run { program: program.to_string(), args: list(words), mode: Mode::Capture }
}

fn says(style: Style, text: &str) -> Action {
    Action::Print { style, text: text.to_string() }
}

fn up_to_git() -> Vec<Event> {
    vec![Event::Printed, ran("rustc 1.80.0 (abc 2024-07-21)\n", true), Event::Printed]
}

fn up_to_the_remotes() -> Vec<Event> {
    let mut script = up_to_git();
    script.push(ran("git version 2.45.0\n", true));
    script.push(Event::Printed);
    script.push(ran("true\n", true));
    script.push(Event::Printed);
    script.push(ran("", true));
    script.push(Event::Printed);
    script
}

#[test]
fn doctor_in_good_health() {
    let state = execute();
    assert_eq!(state.action(), says(Style::Plain, "🩺 Running gix health check...\n"));
    let state = state.advance(Event::Printed);
    assert_eq!(state.action(), asks("rustc", &["--version"]));
    let state = state.advance(ran("rustc 1.80.0 (abc 2024-07-21)\n", true));
    assert_eq!(state.action(), says(Style::Success, "Rust version: rustc 1.80.0 (abc 2024-07-21)"));
    let state = state.advance(Event::Printed);
    assert_eq!(state.action(), asks("git", &["--version"]));
    let state = state.advance(ran("git version 2.45.0\n", true));
    assert_eq!(state.action(), says(Style::Success, "Git installed: git version 2.45.0"));
    let state = state.advance(Event::Printed);
    assert_eq!(state.action(), asks("git", &["rev-parse", "--is-inside-work-tree"]));
    let state = state.advance(ran("true\n", true));
    assert_eq!(state.action(), says(Style::Success, "Inside a Git repository"));
    let state = state.advance(Event::Printed);
    assert_eq!(state.action(), asks("git", &["status", "--porcelain"]));
    let state = state.advance(ran("", true));
    assert_eq!(state.action(), says(Style::Success, "Working directory is clean"));
    let state = state.advance(Event::Printed);
    assert_eq!(state.action(), asks("git", &["remote"]));
    let state = state.advance(ran("origin\nupstream\n", true));
    assert_eq!(state.action(), says(Style::Success, "Remote(s) configured: origin\nupstream"));
    let state = state.advance(Event::Printed);
    assert_eq!(state.action(), asks("git", &["symbolic-ref", "--short", "HEAD"]));
    let state = state.advance(ran("main\n", true));
    assert_eq!(state.action(), says(Style::Plain, "📍 Current branch: main"));
    let state = state.advance(Event::Printed);
    assert_eq!(state.action(), says(Style::Plain, "\n🧩 Done."));
    let state = state.advance(Event::Printed);
    assert_eq!(state.action(), Action::Finish { result: Ok(()) });
}

#[test]
fn doctor_goes_on_without_a_compiler() {
    let state = replay(execute(), vec![Event::Printed, not_started()]);
    assert_eq!(
        state.action(),
        says(Style::Warning, "Rust compiler not found (but gix is running)")
    );
    assert_eq!(state.advance(Event::Printed), DoctorState::CheckGit);
}

#[test]
fn doctor_without_git_stops_at_the_gate() {
    let state = replay(execute(), up_to_git()).advance(not_started());
    let failure = Action::Finish { result: Err("❌ Git not found in PATH".to_string()) };
    assert_eq!(state.action(), failure);
    let state = replay(state, vec![Event::Printed, ran("true\n", true), Event::Printed]);
    assert_eq!(state.action(), failure);
}

#[test]
fn doctor_outside_a_repository_stops_at_the_gate() {
    let mut script = up_to_git();
    script.push(ran("git version 2.45.0\n", true));
    script.push(Event::Printed);
    script.push(ran("", false));
    let state = replay(execute(), script);
    assert_eq!(
        state.action(),
        Action::Finish { result: Err("❌ Not inside a Git repository".to_string()) }
    );
    let mut script = up_to_git();
    script.push(ran("git version 2.45.0\n", true));
    script.push(Event::Printed);
    script.push(not_started());
    let state = replay(execute(), script);
    assert_eq!(
        state.action(),
        Action::Finish { result: Err("❌ Not inside a Git repository".to_string()) }
    );
}

#[test]
fn doctor_warns_of_changes_and_goes_on() {
    let mut script = up_to_git();
    script.push(ran("git version 2.45.0\n", true));
    script.push(Event::Printed);
    script.push(ran("true\n", true));
    script.push(Event::Printed);
    script.push(ran(" M src/lib.rs\n", true));
    let state = replay(execute(), script);
    assert_eq!(state.action(), says(Style::Warning, "Working directory has uncommitted changes"));
    assert_eq!(state.advance(Event::Printed), DoctorState::CheckRemotes);
}

#[test]
fn doctor_without_remotes_warns_and_goes_on() {
    let state = replay(execute(), up_to_the_remotes()).advance(ran("\n", true));
    assert_eq!(state.action(), says(Style::Warning, "No Git remotes configured"));
    let state = state.advance(Event::Printed);
    assert_eq!(state.action(), asks("git", &["symbolic-ref", "--short", "HEAD"]));
}

#[test]
fn doctor_warns_when_the_remotes_cannot_be_asked_for() {
    let state = replay(execute(), up_to_the_remotes()).advance(not_started());
    assert_eq!(state.action(), says(Style::Warning, "Failed to check remotes"));
    assert_eq!(state.advance(Event::Printed), DoctorState::FindBranch);
}

#[test]
fn doctor_warns_when_there_is_no_branch() {
    let mut script = up_to_the_remotes();
    script.push(ran("origin\n", true));
    script.push(Event::Printed);
    script.push(ran("", false));
    let state = replay(execute(), script);
    assert_eq!(state.action(), says(Style::Warning, "Failed to get current branch"));
    let state = state.advance(Event::Printed);
    assert_eq!(state.action(), says(Style::Plain, "\n🧩 Done."));
}

#[test]
fn doctor_fails_when_the_status_query_does_not_start() {
    let mut script = up_to_git();
    script.push(ran("git version 2.45.0\n", true));
    script.push(Event::Printed);
    script.push(ran("true\n", true));
    script.push(Event::Printed);
    script.push(Event::Ran(Err("gone".to_string())));
    let state = replay(execute(), script);
    assert_eq!(
        state.action(),
        Action::Finish { result: Err("❌ Failed to execute git command: gone".to_string()) }
    );
}

#[test]
fn doctor_never_shares_the_terminal() {
    let mut state = execute();
    let mut script = up_to_the_remotes();
    script.push(ran("origin\n", true));
    script.push(Event::Printed);
    script.push(ran("main\n", true));
    script.push(Event::Printed);
    script.push(Event::Printed);
    for event in script {
        assert!(!matches!(state.action(), Action::Run { mode: Mode::Inherit, .. }));
        state = state.advance(event);
    }
    assert_eq!(state, DoctorState::Done { result: Ok(()) });
}
