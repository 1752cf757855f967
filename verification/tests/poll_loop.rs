use lighting_client::lnd::node_client::{Failure, FailureKind, FetchOutcome};
use lighting_client::lnd::poll_loop::{
    log_line, looks_at_flag, next_step, Action, Event, LogEvent, ManagerState,
};
use lighting_client::lnd::LnGetInfo;
use std::collections::HashMap;

fn status(alias: &str) -> LnGetInfo {
    LnGetInfo {
        version: "v".to_string(),
        commit_hash: "c".to_string(),
        identity_pubkey: "p".to_string(),
        alias: alias.to_string(),
        color: "#000000".to_string(),
        num_pending_channels: 0,
        num_active_channels: 0,
        num_inactive_channels: 0,
        num_peers: 0,
        block_height: 1,
        block_hash: "h".to_string(),
        best_header_timestamp: "0".to_string(),
        synced_to_chain: true,
        synced_to_graph: true,
        testnet: true,
        chains: vec![],
        uris: vec![],
        features: HashMap::new(),
    }
}

fn success() -> FetchOutcome {
    FetchOutcome::Success { status: status("alice"), at: "t0".to_string() }
}

fn failure(kind: FailureKind, message: &str) -> FetchOutcome {
    FetchOutcome::Failed(Failure { kind, message: message.to_string() })
}

const STATES: [ManagerState; 6] = [
    ManagerState::Idle,
    ManagerState::Ticking,
    ManagerState::LoggingSuccess,
    ManagerState::LoggingFailure,
    ManagerState::Waiting,
    ManagerState::Stopped,
];

fn events() -> Vec<Event> {
    vec![
        Event::Started,
        Event::Fetched(success()),
        Event::Fetched(failure(FailureKind::Rejected, "no")),
        Event::Logged,
        Event::TickElapsed,
    ]
}

#[test]
fn start_with_flag_down_sends_a_check() {
    assert_eq!(
        next_step(ManagerState::Idle, Event::Started, false),
        Some((ManagerState::Ticking, Action::Fetch))
    );
}

#[test]
fn start_with_flag_up_stops() {
    assert_eq!(
        next_step(ManagerState::Idle, Event::Started, true),
        Some((ManagerState::Stopped, Action::Finish))
    );
}

#[test]
fn tick_with_flag_down_sends_a_check() {
    assert_eq!(
        next_step(ManagerState::Waiting, Event::TickElapsed, false),
        Some((ManagerState::Ticking, Action::Fetch))
    );
}

#[test]
fn tick_with_flag_up_stops() {
    assert_eq!(
        next_step(ManagerState::Waiting, Event::TickElapsed, true),
        Some((ManagerState::Stopped, Action::Finish))
    );
}

#[test]
fn success_is_logged_with_time_and_status() {
    for flag in [false, true] {
        assert_eq!(
            next_step(ManagerState::Ticking, Event::Fetched(success()), flag),
            Some((
                ManagerState::LoggingSuccess,
                Action::Log(LogEvent::Success { at: "t0".to_string(), status: status("alice") })
            ))
        );
    }
}

#[test]
fn failure_is_logged_with_kind_and_message() {
    for kind in [FailureKind::Transport, FailureKind::Rejected, FailureKind::Decode] {
        for flag in [false, true] {
            assert_eq!(
                next_step(ManagerState::Ticking, Event::Fetched(failure(kind, "why")), flag),
                Some((
                    ManagerState::LoggingFailure,
                    Action::Log(LogEvent::Failure { kind, message: "why".to_string() })
                ))
            );
        }
    }
}

#[test]
fn after_logging_the_manager_waits() {
    for state in [ManagerState::LoggingSuccess, ManagerState::LoggingFailure] {
        for flag in [false, true] {
            assert_eq!(
                next_step(state, Event::Logged, flag),
                Some((ManagerState::Waiting, Action::Wait))
            );
        }
    }
}

#[test]
fn unexpected_events_have_no_move() {
    let mut moves = 0;
    for state in STATES {
        for event in events() {
            for flag in [false, true] {
                let expected = matches!(
                    (state, &event),
                    (ManagerState::Idle, Event::Started)
                        | (ManagerState::Waiting, Event::TickElapsed)
                        | (ManagerState::Ticking, Event::Fetched(_))
                        | (ManagerState::LoggingSuccess, Event::Logged)
                        | (ManagerState::LoggingFailure, Event::Logged)
                );
                let step = next_step(state, event.clone(), flag);
                assert_eq!(step.is_some(), expected);
                if step.is_some() {
                    moves += 1;
                }
            }
        }
    }
    assert_eq!(moves, 12);
}

#[test]
fn stopped_takes_nothing() {
    for event in events() {
        for flag in [false, true] {
            assert_eq!(next_step(ManagerState::Stopped, event.clone(), flag), None);
        }
    }
}

#[test]
fn flag_is_looked_at_only_before_a_check() {
    for state in STATES {
        for event in events() {
            let expected = matches!(
                (state, &event),
                (ManagerState::Idle, Event::Started) | (ManagerState::Waiting, Event::TickElapsed)
            );
            assert_eq!(looks_at_flag(state, &event), expected);
            if !expected {
                assert_eq!(
                    next_step(state, event.clone(), true),
                    next_step(state, event.clone(), false)
                );
            }
        }
    }
}

#[test]
fn only_a_move_into_ticking_sends_a_check() {
    for state in STATES {
        for event in events() {
            for flag in [false, true] {
                if let Some((next, action)) = next_step(state, event.clone(), flag) {
                    assert_eq!(action == Action::Fetch, next == ManagerState::Ticking);
                    assert_eq!(action == Action::Finish, next == ManagerState::Stopped);
                }
            }
        }
    }
}

#[test]
fn log_line_of_a_success() {
    assert_eq!(
        log_line(success()),
        LogEvent::Success { at: "t0".to_string(), status: status("alice") }
    );
}

#[test]
fn log_line_of_a_failure() {
    assert_eq!(
        log_line(failure(FailureKind::Transport, "timed out")),
        LogEvent::Failure { kind: FailureKind::Transport, message: "timed out".to_string() }
    );
}

fn run(
    mut state: ManagerState,
    inputs: Vec<(Event, bool)>,
) -> (ManagerState, Vec<Action>) {
    let mut actions = vec![];
    for (event, flag) in inputs {
        if let Some((next, action)) = next_step(state, event, flag) {
            state = next;
            actions.push(action);
        }
    }
    (state, actions)
}

#[test]
fn identical_ticks_log_identical_lines() {
    let mut inputs = vec![];
    for _ in 0..5 {
        inputs.push((Event::Fetched(success()), false));
        inputs.push((Event::Logged, false));
        inputs.push((Event::TickElapsed, false));
    }
    let (state, actions) = run(ManagerState::Ticking, inputs);
    assert_eq!(state, ManagerState::Ticking);
    assert_eq!(actions.len(), 15);
    let line = Action::Log(LogEvent::Success { at: "t0".to_string(), status: status("alice") });
    for k in 0..5 {
        assert_eq!(actions[3 * k], line);
        assert_eq!(actions[3 * k + 1], Action::Wait);
        assert_eq!(actions[3 * k + 2], Action::Fetch);
    }
}

#[test]
fn no_check_goes_out_once_the_flag_is_up() {
    for start in STATES {
        let mut inputs = vec![];
        for _ in 0..3 {
            for event in events() {
                inputs.push((event, true));
            }
        }
        let (state, actions) = run(start, inputs);
        assert!(!actions.contains(&Action::Fetch));
        assert!(actions.iter().filter(|a| **a == Action::Wait).count() <= 1);
        assert_eq!(state, ManagerState::Stopped);
    }
}

#[test]
fn nothing_but_the_flag_stops_the_manager() {
    for start in STATES {
        if start == ManagerState::Stopped {
            continue;
        }
        let mut inputs = vec![];
        for _ in 0..4 {
            for event in events() {
                inputs.push((event, false));
            }
        }
        let (state, actions) = run(start, inputs);
        assert_ne!(state, ManagerState::Stopped);
        assert!(!actions.contains(&Action::Finish));
    }
}

#[test]
fn a_check_in_flight_finishes_before_the_manager_stops() {
    let inputs = vec![
        (Event::Fetched(failure(FailureKind::Transport, "late")), true),
        (Event::Logged, true),
        (Event::TickElapsed, true),
    ];
    let (state, actions) = run(ManagerState::Ticking, inputs);
    assert_eq!(state, ManagerState::Stopped);
    assert_eq!(
        actions,
        vec![
            Action::Log(LogEvent::Failure {
                kind: FailureKind::Transport,
                message: "late".to_string()
            }),
            Action::Wait,
            Action::Finish,
        ]
    );
}
