//! The states of a manager and the rule that moves it from one to the next.
//!
//! The manager itself does no waiting and no sending. It is told what
//! happened (an [`Event`]) and answers with what is to be done next (an
//! [`Action`]). Whoever drives it performs the action and reports back.

use crate::lnd::domain::ln_get_info::{LnGetInfo, LnGetInfoView};
use crate::lnd::node_client::{Failure, FailureKind, FetchOutcome, FetchOutcomeView};
use vstd::prelude::*;

verus! {

/// Where a manager stands in its cycle.
#[derive(Debug, Clone, Copy, PartialEq, Eq, Structural)]
pub enum ManagerState {
    /// Built, not started yet.
    Idle,
    /// A health check is in flight.
    Ticking,
    /// A successful check is being logged.
    LoggingSuccess,
    /// A failed check is being logged.
    LoggingFailure,
    /// Sleeping until the next tick.
    Waiting,
    /// Shut down. Nothing follows.
    Stopped,
}

/// One line of the manager's log.
#[derive(Debug, Clone, PartialEq)]
pub enum LogEvent {
    /// A request is about to go to this URL.
    Attempt { url: String },
    /// The node answered with this status at this time.
    Success { at: String, status: LnGetInfo },
    /// The check failed in this way, with this message.
    Failure { kind: FailureKind, message: String },
}

/// The mathematical value of a [`LogEvent`].
pub enum LogEventView {
    Attempt { url: Seq<char> },
    Success { at: Seq<char>, status: LnGetInfoView },
    Failure { kind: FailureKind, message: Seq<char> },
}

impl View for LogEvent {
    type V = LogEventView;

    open spec fn view(&self) -> LogEventView {
        match *self {
            LogEvent::Attempt { url } => LogEventView::Attempt { url: url@ },
            LogEvent::Success { at, status } => LogEventView::Success { at: at@, status: status@ },
            LogEvent::Failure { kind, message } => LogEventView::Failure {
                kind,
                message: message@,
            },
        }
    }
}

/// What happened since the manager's last answer.
#[derive(Debug, Clone, PartialEq)]
pub enum Event {
    /// The manager was started.
    Started,
    /// The health check came back.
    Fetched(FetchOutcome),
    /// The log line is written.
    Logged,
    /// The timer reached the next tick.
    TickElapsed,
}

/// The mathematical value of an [`Event`].
pub enum EventView {
    Started,
    Fetched(FetchOutcomeView),
    Logged,
    TickElapsed,
}

impl View for Event {
    type V = EventView;

    open spec fn view(&self) -> EventView {
        match *self {
            Event::Started => EventView::Started,
            Event::Fetched(outcome) => EventView::Fetched(outcome@),
            Event::Logged => EventView::Logged,
            Event::TickElapsed => EventView::TickElapsed,
        }
    }
}

/// What is to be done next.
#[derive(Debug, Clone, PartialEq)]
pub enum Action {
    /// Run one health check and report its outcome.
    Fetch,
    /// Write this line to the log.
    Log(LogEvent),
    /// Sleep until the next tick.
    Wait,
    /// Return: the manager has stopped, and that is a success.
    Finish,
}

/// The mathematical value of an [`Action`].
pub enum ActionView {
    Fetch,
    Log(LogEventView),
    Wait,
    Finish,
}

impl View for Action {
    type V = ActionView;

    open spec fn view(&self) -> ActionView {
        match *self {
            Action::Fetch => ActionView::Fetch,
            Action::Log(line) => ActionView::Log(line@),
            Action::Wait => ActionView::Wait,
            Action::Finish => ActionView::Finish,
        }
    }
}

/// One move of the manager: the state it enters and the action it asks for.
pub struct StepView {
    pub state: ManagerState,
    pub action: ActionView,
}

/// The log line of a finished check: a success is logged with its time and
/// the whole status, a failure with its kind and message.
pub open spec fn log_of(outcome: FetchOutcomeView) -> LogEventView {
    match outcome {
        FetchOutcomeView::Success { status, at } => LogEventView::Success { at, status },
        FetchOutcomeView::Failed(failure) => LogEventView::Failure {
            kind: failure.kind,
            message: failure.message,
        },
    }
}

/// The state in which a finished check is logged.
pub open spec fn logging_state(outcome: FetchOutcomeView) -> ManagerState {
    match outcome {
        FetchOutcomeView::Success { .. } => ManagerState::LoggingSuccess,
        FetchOutcomeView::Failed(_) => ManagerState::LoggingFailure,
    }
}

/// Whether the shutdown flag is looked at when `event` arrives in `state`:
/// once per cycle, right before a check would go out.
pub open spec fn checks_flag(state: ManagerState, event: EventView) -> bool {
    ||| state == ManagerState::Idle && event is Started
    ||| state == ManagerState::Waiting && event is TickElapsed
}

/// The move at a point where the flag is looked at: a raised flag stops the
/// manager, otherwise the next check goes out.
pub open spec fn checkpoint(shutdown: bool) -> StepView {
    if shutdown {
        StepView { state: ManagerState::Stopped, action: ActionView::Finish }
    } else {
        StepView { state: ManagerState::Ticking, action: ActionView::Fetch }
    }
}

/// The manager's rule. `shutdown` is the value of the shutdown flag at the
/// moment the event arrives. An event that the state does not expect has
/// no move.
pub open spec fn step_of(state: ManagerState, event: EventView, shutdown: bool) -> Option<StepView> {
    match (state, event) {
        (ManagerState::Idle, EventView::Started) => Some(checkpoint(shutdown)),
        (ManagerState::Waiting, EventView::TickElapsed) => Some(checkpoint(shutdown)),
        (ManagerState::Ticking, EventView::Fetched(outcome)) => Some(
            StepView { state: logging_state(outcome), action: ActionView::Log(log_of(outcome)) },
        ),
        (ManagerState::LoggingSuccess, EventView::Logged) => Some(
            StepView { state: ManagerState::Waiting, action: ActionView::Wait },
        ),
        (ManagerState::LoggingFailure, EventView::Logged) => Some(
            StepView { state: ManagerState::Waiting, action: ActionView::Wait },
        ),
        _ => None,
    }
}

/// The view of an optional move.
pub open spec fn move_view(step: Option<(ManagerState, Action)>) -> Option<StepView> {
    match step {
        Some((state, action)) => Some(StepView { state, action: action@ }),
        None => None,
    }
}

/// Whether the flag is looked at when `event` arrives in `state`.
pub fn looks_at_flag(state: ManagerState, event: &Event) -> (looks: bool)
    ensures
        looks == checks_flag(state, event@),
{
    match (state, event) {
        (ManagerState::Idle, Event::Started) => true,
        (ManagerState::Waiting, Event::TickElapsed) => true,
        _ => false,
    }
}

/// The log line of a finished check.
pub fn log_line(outcome: FetchOutcome) -> (line: LogEvent)
    ensures
        line@ == log_of(outcome@),
{
    match outcome {
        FetchOutcome::Success { status, at } => LogEvent::Success { at, status },
        FetchOutcome::Failed(failure) => {
            let Failure { kind, message } = failure;
            LogEvent::Failure { kind, message }
        },
    }
}

/// Moves a manager in `state` on `event`, with `shutdown` as the value of
/// the shutdown flag: the new state and the action to perform, or `None`
/// where the state does not expect the event.
pub fn next_step(state: ManagerState, event: Event, shutdown: bool) -> (step: Option<(ManagerState, Action)>)
    ensures
        move_view(step) == step_of(state, event@, shutdown),
{
    match (state, event) {
        (ManagerState::Idle, Event::Started) | (ManagerState::Waiting, Event::TickElapsed) => {
            if shutdown {
                Some((ManagerState::Stopped, Action::Finish))
            } else {
                Some((ManagerState::Ticking, Action::Fetch))
            }
        },
        (ManagerState::Ticking, Event::Fetched(outcome)) => {
            let state = match &outcome {
                FetchOutcome::Success { .. } => ManagerState::LoggingSuccess,
                FetchOutcome::Failed(_) => ManagerState::LoggingFailure,
            };
            Some((state, Action::Log(log_line(outcome))))
        },
        (ManagerState::LoggingSuccess, Event::Logged) | (ManagerState::LoggingFailure, Event::Logged) => {
            Some((ManagerState::Waiting, Action::Wait))
        },
        _ => None,
    }
}

} // verus!
