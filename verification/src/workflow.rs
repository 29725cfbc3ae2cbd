//! The protocol between a workflow and whoever runs it.
//!
//! A workflow never touches the repository or the terminal. Its state names
//! one request, an [`Action`]; the caller carries the request out and hands
//! back what came of it, an [`Event`]; the event leads to the next state. A
//! state whose request is `Finish` is final.
//!
//! The mathematical side of this is the trait [`Workflow`], over the views
//! of the states, with the runs that it gives rise to.

use vstd::prelude::*;

verus! {

/// How a command is run.
#[derive(Clone, Copy, Debug, PartialEq, Eq, Structural)]
pub enum Mode {
    /// Its output is captured and handed back. The queries run so.
    Capture,
    /// It shares the caller's terminal, so that the user sees and steers it.
    /// Whatever changes the repository or its remote runs so.
    Inherit,
}

/// How a line is shown.
#[derive(Clone, Copy, Debug, PartialEq, Eq, Structural)]
pub enum Style {
    /// As it is, on standard output.
    Plain,
    /// As it is, on standard error.
    Alert,
    /// As the report of a success.
    Success,
    /// As the report of an error.
    Error,
    /// As a warning.
    Warning,
    /// As a piece of information.
    Info,
}

/// What a command that ran to its end left behind.
#[derive(Debug, PartialEq, Eq)]
pub struct CommandOutput {
    /// What it wrote to standard output; empty where it shared the terminal.
    pub stdout: String,
    /// Whether it exited with status zero.
    pub success: bool,
}

/// The view of a [`CommandOutput`].
pub struct CommandOutputView {
    pub stdout: Seq<char>,
    pub success: bool,
}

impl View for CommandOutput {
    type V = CommandOutputView;

    open spec fn view(&self) -> CommandOutputView {
        CommandOutputView { stdout: self.stdout@, success: self.success }
    }
}

/// What came of a request. An `Err` holds the reason why the command could
/// not be started, or why the prompt gave no answer.
#[derive(Debug, PartialEq, Eq)]
pub enum Event {
    /// A command was run.
    Ran(Result<CommandOutput, String>),
    /// The user entered a text or picked an option.
    Answered(Result<String, String>),
    /// The user said yes or no.
    Confirmed(Result<bool, String>),
    /// A line was printed.
    Printed,
}

/// The view of an [`Event`].
pub enum EventView {
    Ran(Result<CommandOutputView, Seq<char>>),
    Answered(Result<Seq<char>, Seq<char>>),
    Confirmed(Result<bool, Seq<char>>),
    Printed,
}

/// The view of a `Result`, side by side.
pub open spec fn result_view<T: View, E: View>(r: Result<T, E>) -> Result<T::V, E::V> {
    match r {
        Ok(value) => Ok(value@),
        Err(reason) => Err(reason@),
    }
}

impl View for Event {
    type V = EventView;

    open spec fn view(&self) -> EventView {
        match *self {
            Event::Ran(outcome) => EventView::Ran(result_view(outcome)),
            Event::Answered(answer) => EventView::Answered(result_view(answer)),
            Event::Confirmed(answer) => EventView::Confirmed(result_view(answer)),
            Event::Printed => EventView::Printed,
        }
    }
}

/// What a workflow asks of its caller.
#[derive(Debug, PartialEq, Eq)]
pub enum Action {
    /// Run `program` with `args` and hand back `Event::Ran`.
    Run { program: String, args: Vec<String>, mode: Mode },
    /// Ask for a line of text and hand back `Event::Answered`. With a
    /// `default`, an empty answer stands for it. With `required`, an answer
    /// is taken only once `validate_required` accepts it, and `required` is
    /// what the user is told until then.
    AskText { message: String, default: Option<String>, required: Option<String> },
    /// Let the user pick one of `options`, starting at `cursor`, and hand
    /// back `Event::Answered` with the option picked.
    AskChoice { message: String, options: Vec<String>, cursor: usize },
    /// Ask yes or no, with `default_yes` as the answer to an empty line,
    /// and hand back `Event::Confirmed`.
    AskConfirm { message: String, default_yes: bool },
    /// Print `text` in `style` and hand back `Event::Printed`.
    Print { style: Style, text: String },
    /// The workflow is over, with this result.
    Finish { result: Result<(), String> },
}

/// The view of an [`Action`].
pub enum ActionView {
    Run { program: Seq<char>, args: Seq<Seq<char>>, mode: Mode },
    AskText { message: Seq<char>, default: Option<Seq<char>>, required: Option<Seq<char>> },
    AskChoice { message: Seq<char>, options: Seq<Seq<char>>, cursor: usize },
    AskConfirm { message: Seq<char>, default_yes: bool },
    Print { style: Style, text: Seq<char> },
    Finish { result: Result<(), Seq<char>> },
}

impl View for Action {
    type V = ActionView;

    open spec fn view(&self) -> ActionView {
        match *self {
            Action::Run { program, args, mode } => ActionView::Run {
                program: program@,
                args: args.deep_view(),
                mode,
            },
            Action::AskText { message, default, required } => ActionView::AskText {
                message: message@,
                default: default.deep_view(),
                required: required.deep_view(),
            },
            Action::AskChoice { message, options, cursor } => ActionView::AskChoice {
                message: message@,
                options: options.deep_view(),
                cursor,
            },
            Action::AskConfirm { message, default_yes } => ActionView::AskConfirm {
                message: message@,
                default_yes,
            },
            Action::Print { style, text } => ActionView::Print { style, text: text@ },
            Action::Finish { result } => ActionView::Finish { result: result_view(result) },
        }
    }
}

/// Whether `action` may change the repository or its remote: whether it
/// runs a command on the user's terminal.
pub open spec fn mutates(action: ActionView) -> bool {
    action matches ActionView::Run { mode, .. } && mode == Mode::Inherit
}

/// A workflow, as a state machine over the views of its states.
pub trait Workflow: Sized {
    /// The request that this state waits on.
    spec fn request(self) -> ActionView;

    /// The state that follows once `event` has answered the request. An
    /// event that is no answer to the request leaves the state as it is.
    spec fn next(self, event: EventView) -> Self;

    /// How far the workflow has come.
    spec fn progress(self) -> nat;

    /// No event takes a workflow back.
    proof fn lemma_never_back(self, event: EventView)
        ensures
            self.progress() <= self.next(event).progress(),
    ;

    /// A finished workflow stays as it is.
    proof fn lemma_finish_is_final(self, event: EventView)
        requires
            self.request() is Finish,
        ensures
            self.next(event) == self,
    ;
}

/// The state that `start` has come to once the first `n` of `events` have
/// answered its requests in turn.
pub open spec fn state_at<W: Workflow>(start: W, events: Seq<EventView>, n: nat) -> W
    recommends
        n <= events.len(),
    decreases n,
{
    if n == 0 {
        start
    } else {
        state_at(start, events, (n - 1) as nat).next(events[n - 1])
    }
}

/// The state after `n` events depends on the first `n` events alone.
pub proof fn lemma_state_at_prefix<W: Workflow>(
    start: W,
    events: Seq<EventView>,
    others: Seq<EventView>,
    n: nat,
)
    requires
        forall|i: int| 0 <= i < n ==> events[i] == others[i],
    ensures
        state_at(start, events, n) == state_at(start, others, n),
    decreases n,
{
    if n > 0 {
        lemma_state_at_prefix(start, events, others, (n - 1) as nat);
    }
}

/// Along a run, progress only grows.
pub proof fn lemma_progress_grows<W: Workflow>(start: W, events: Seq<EventView>, i: nat, j: nat)
    requires
        i <= j,
    ensures
        state_at(start, events, i).progress() <= state_at(start, events, j).progress(),
    decreases j,
{
    if i < j {
        lemma_progress_grows(start, events, i, (j - 1) as nat);
        state_at(start, events, (j - 1) as nat).lemma_never_back(events[j - 1]);
    }
}

/// Once a run has reached a final state, it stays there.
pub proof fn lemma_finished_for_good<W: Workflow>(
    start: W,
    events: Seq<EventView>,
    i: nat,
    j: nat,
)
    requires
        i <= j,
        state_at(start, events, i).request() is Finish,
    ensures
        state_at(start, events, j) == state_at(start, events, i),
    decreases j,
{
    if i < j {
        lemma_finished_for_good(start, events, i, (j - 1) as nat);
        state_at(start, events, i).lemma_finish_is_final(events[j - 1]);
    }
}

/// The views of `events`, in order.
pub open spec fn events_view(events: Seq<Event>) -> Seq<EventView> {
    Seq::new(events.len(), |i: int| events[i]@)
}

/// A workflow as it runs: a state that hands out its request and takes the
/// answer, as the [`Workflow`] of its view says.
pub trait Machine: View + Sized where Self::V: Workflow {
    /// The request that this state waits on.
    fn action(&self) -> (action: Action)
        ensures
            action@ == self@.request(),
    ;

    /// The state that follows once `event` has answered the request.
    fn advance(self, event: Event) -> (state: Self)
        ensures
            state@ == self@.next(event@),
    ;
}

/// The state that `start` comes to once `events` have answered its requests
/// in turn.
pub fn replay<M: Machine>(start: M, events: Vec<Event>) -> (state: M)
    where M::V: Workflow
    ensures
        state@ == state_at(start@, events_view(events@), events.len() as nat),
    decreases events.len(),
{
    let mut events = events;
    let ghost all = events_view(events@);
    match events.pop() {
        None => start,
        Some(last) => {
            let before = replay(start, events);
            proof {
                let rest = events_view(events@);
                let n = events.len() as nat;
                assert(all[n as int] == last@);
                assert forall|i: int| 0 <= i < n implies all[i] == rest[i] by {}
                lemma_state_at_prefix(start@, all, rest, n);
            }
            before.advance(last)
        },
    }
}

/// The view of a text that may be absent.
pub open spec fn text_view(text: Option<&str>) -> Option<Seq<char>> {
    match text {
        Some(text) => Some(text@),
        None => None,
    }
}

/// The request to print `text` in `style`.
pub fn say(style: Style, text: &str) -> (action: Action)
    ensures
        action@ == (ActionView::Print { style, text: text@ }),
{
    Action::Print { style, text: String::from_str(text) }
}

/// The request for a line of text.
pub fn ask_text(message: &str, default: Option<&str>, required: Option<&str>) -> (action: Action)
    ensures
        action@ == (ActionView::AskText {
            message: message@,
            default: text_view(default),
            required: text_view(required),
        }),
{
    Action::AskText {
        message: String::from_str(message),
        default: match default {
            Some(text) => Some(String::from_str(text)),
            None => None,
        },
        required: match required {
            Some(text) => Some(String::from_str(text)),
            None => None,
        },
    }
}

/// The request for a yes or a no.
pub fn ask_confirm(message: &str, default_yes: bool) -> (action: Action)
    ensures
        action@ == (ActionView::AskConfirm { message: message@, default_yes }),
{
    Action::AskConfirm { message: String::from_str(message), default_yes }
}

/// The request that ends a workflow with a copy of `result`.
pub fn finish(result: &Result<(), String>) -> (action: Action)
    ensures
        action@ == (ActionView::Finish { result: result_view(*result) }),
{
    Action::Finish {
        result: match result {
            Ok(()) => Ok(()),
            Err(failure) => Err(failure.clone()),
        },
    }
}

} // verus!
