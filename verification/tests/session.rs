use nixstats::error::{SessionError, UpstreamError};
use nixstats::outcome::{Comparison, ComparisonOutcome, Report};
use nixstats::registry::Registry;
use nixstats::session::{
    step, Action, CloseFrame, Event, Frame, Inbound, SessionState, Transition, CLOSE_INVALID,
    CLOSE_NORMAL,
};

const INVALID_INPUT: &str = "PR number should only consist of numbers";
const NOT_FOUND: &str = "Error: Unable to find the PR provided";
const UNSUPPORTED: &str = "UnImplemented Format You Silly Goose";

fn three_branches() -> Registry {
    Registry::new(&vec!["BranchA".to_string(), "BranchB".to_string(), "BranchC".to_string()])
}

fn refusal_frames(reason: &str) -> Vec<Frame> {
    vec![Frame::Close(CloseFrame { code: CLOSE_INVALID, reason: reason.to_string() })]
}

fn answer_frames(vector: Vec<u8>) -> Vec<Frame> {
    vec![
        Frame::Binary(vector),
        Frame::Close(CloseFrame { code: CLOSE_NORMAL, reason: String::new() }),
    ]
}

fn text(content: &str) -> Event {
    Event::Received(Inbound::Text(content.to_string()))
}

fn ok(position: usize, outcome: ComparisonOutcome) -> Report {
    Ok(Comparison { position, outcome })
}

/// Feeds the events to a fresh session and collects what it sends and asks for.
fn drive(registry: &Registry, events: Vec<Event>) -> (SessionState, Vec<Frame>, Vec<Action>) {
    let mut state = SessionState::Open;
    let mut sent = Vec::new();
    let mut asked = Vec::new();
    for event in events {
        let Transition { state: next, action } = step(state, event, registry);
        state = next;
        match action {
            Action::Send { frames } => sent.extend(frames),
            Action::Nothing => {}
            other => asked.push(other),
        }
    }
    (state, sent, asked)
}

#[test]
fn close_codes_are_those_of_the_transport() {
    assert_eq!(CLOSE_NORMAL, axum::extract::ws::close_code::NORMAL);
    assert_eq!(CLOSE_INVALID, axum::extract::ws::close_code::INVALID);
}

#[test]
fn errors_have_their_close_frames() {
    assert_eq!(
        SessionError::InvalidInput.close_frame(),
        Some(CloseFrame { code: 1007, reason: INVALID_INPUT.to_string() })
    );
    assert_eq!(
        SessionError::NotFound.close_frame(),
        Some(CloseFrame { code: 1007, reason: NOT_FOUND.to_string() })
    );
    assert_eq!(
        SessionError::UpstreamUnavailable.close_frame(),
        Some(CloseFrame { code: 1007, reason: NOT_FOUND.to_string() })
    );
    assert_eq!(
        SessionError::UnsupportedFormat.close_frame(),
        Some(CloseFrame { code: 1007, reason: UNSUPPORTED.to_string() })
    );
    assert_eq!(SessionError::TransportError.close_frame(), None);
}

#[test]
fn close_reasons_tell_the_errors_apart() {
    assert_ne!(INVALID_INPUT, NOT_FOUND);
    assert_ne!(INVALID_INPUT, UNSUPPORTED);
    assert_ne!(NOT_FOUND, UNSUPPORTED);
    let normal = CloseFrame::normal();
    assert_eq!(normal, CloseFrame { code: 1000, reason: String::new() });
}

#[test]
fn upstream_errors_become_session_errors() {
    assert_eq!(SessionError::from_upstream(UpstreamError::NotFound), SessionError::NotFound);
    assert_eq!(
        SessionError::from_upstream(UpstreamError::Unavailable),
        SessionError::UpstreamUnavailable
    );
}

#[test]
fn connection_makes_the_session_wait_for_a_command() {
    let registry = three_branches();
    assert_eq!(
        step(SessionState::Open, Event::Connected, &registry),
        Transition { state: SessionState::AwaitingCommand, action: Action::Receive }
    );
}

#[test]
fn a_number_starts_the_lookup() {
    let registry = three_branches();
    assert_eq!(
        step(SessionState::AwaitingCommand, text("193766"), &registry),
        Transition { state: SessionState::Resolving, action: Action::Resolve { pr: 193766 } }
    );
    assert_eq!(
        step(SessionState::AwaitingCommand, text("+007"), &registry),
        Transition { state: SessionState::Resolving, action: Action::Resolve { pr: 7 } }
    );
}

#[test]
fn text_that_is_no_number_closes_the_session() {
    let registry = three_branches();
    for content in ["", "abc", "42x", "-1", "-42", "4 2", " 42", "4294967296", "+", "١٢"] {
        assert_eq!(
            step(SessionState::AwaitingCommand, text(content), &registry),
            Transition {
                state: SessionState::Closed,
                action: Action::Send { frames: refusal_frames(INVALID_INPUT) },
            },
            "text {:?}",
            content
        );
    }
}

#[test]
fn a_frame_that_is_not_text_closes_the_session() {
    let registry = three_branches();
    assert_eq!(
        step(SessionState::AwaitingCommand, Event::Received(Inbound::Other), &registry),
        Transition {
            state: SessionState::Closed,
            action: Action::Send { frames: refusal_frames(UNSUPPORTED) },
        }
    );
}

#[test]
fn a_resolved_commit_starts_the_comparisons() {
    let registry = three_branches();
    assert_eq!(
        step(SessionState::Resolving, Event::Resolved(Ok("abc123".to_string())), &registry),
        Transition {
            state: SessionState::Aggregating,
            action: Action::Compare { commit: "abc123".to_string() },
        }
    );
}

#[test]
fn a_failed_lookup_closes_the_session() {
    let registry = three_branches();
    for error in [UpstreamError::NotFound, UpstreamError::Unavailable] {
        assert_eq!(
            step(SessionState::Resolving, Event::Resolved(Err(error)), &registry),
            Transition {
                state: SessionState::Closed,
                action: Action::Send { frames: refusal_frames(NOT_FOUND) },
            }
        );
    }
}

#[test]
fn complete_reports_are_answered_with_the_vector() {
    let registry = three_branches();
    let reports = vec![
        ok(0, ComparisonOutcome::Identical),
        ok(1, ComparisonOutcome::Ahead),
        ok(2, ComparisonOutcome::Behind),
    ];
    assert_eq!(
        step(SessionState::Aggregating, Event::Compared(reports), &registry),
        Transition {
            state: SessionState::Responding,
            action: Action::Send { frames: answer_frames(vec![1, 0, 1]) },
        }
    );
}

#[test]
fn incomplete_reports_close_the_session() {
    let registry = three_branches();
    let failed = vec![
        ok(0, ComparisonOutcome::Identical),
        Err(UpstreamError::Unavailable),
        ok(2, ComparisonOutcome::Behind),
    ];
    let missing = vec![ok(0, ComparisonOutcome::Identical), ok(2, ComparisonOutcome::Behind)];
    for reports in [failed, missing, Vec::new()] {
        assert_eq!(
            step(SessionState::Aggregating, Event::Compared(reports), &registry),
            Transition {
                state: SessionState::Closed,
                action: Action::Send { frames: refusal_frames(NOT_FOUND) },
            }
        );
    }
}

#[test]
fn the_sent_answer_closes_the_session() {
    let registry = three_branches();
    assert_eq!(
        step(SessionState::Responding, Event::Sent, &registry),
        Transition { state: SessionState::Closed, action: Action::Nothing }
    );
}

#[test]
fn a_close_frame_from_the_client_closes_at_once() {
    let registry = three_branches();
    for state in [
        SessionState::Open,
        SessionState::AwaitingCommand,
        SessionState::Resolving,
        SessionState::Aggregating,
        SessionState::Responding,
        SessionState::Closed,
    ] {
        assert_eq!(
            step(state, Event::Received(Inbound::Close), &registry),
            Transition { state: SessionState::Closed, action: Action::Nothing }
        );
    }
}

#[test]
fn a_transport_failure_closes_at_once() {
    let registry = three_branches();
    for state in [
        SessionState::Open,
        SessionState::AwaitingCommand,
        SessionState::Resolving,
        SessionState::Aggregating,
        SessionState::Responding,
        SessionState::Closed,
    ] {
        assert_eq!(
            step(state, Event::TransportFailed, &registry),
            Transition { state: SessionState::Closed, action: Action::Nothing }
        );
    }
}

#[test]
fn a_closed_session_stays_closed() {
    let registry = three_branches();
    let events = vec![
        Event::Connected,
        text("42"),
        Event::Received(Inbound::Other),
        Event::Resolved(Ok("abc123".to_string())),
        Event::Resolved(Err(UpstreamError::NotFound)),
        Event::Compared(vec![ok(0, ComparisonOutcome::Behind)]),
        Event::Sent,
    ];
    for event in events {
        assert_eq!(
            step(SessionState::Closed, event, &registry),
            Transition { state: SessionState::Closed, action: Action::Nothing }
        );
    }
}

#[test]
fn an_event_out_of_turn_changes_nothing() {
    let registry = three_branches();
    let cases = vec![
        (SessionState::Open, text("42")),
        (SessionState::Open, Event::Received(Inbound::Other)),
        (SessionState::Open, Event::Sent),
        (SessionState::AwaitingCommand, Event::Connected),
        (SessionState::AwaitingCommand, Event::Resolved(Ok("abc123".to_string()))),
        (SessionState::AwaitingCommand, Event::Compared(Vec::new())),
        (SessionState::AwaitingCommand, Event::Sent),
        (SessionState::Resolving, text("42")),
        (SessionState::Resolving, text("42x")),
        (SessionState::Resolving, Event::Received(Inbound::Other)),
        (SessionState::Resolving, Event::Compared(Vec::new())),
        (SessionState::Aggregating, text("43")),
        (SessionState::Aggregating, Event::Resolved(Err(UpstreamError::NotFound))),
        (SessionState::Aggregating, Event::Sent),
        (SessionState::Responding, text("44")),
        (SessionState::Responding, Event::Received(Inbound::Other)),
        (SessionState::Responding, Event::Compared(Vec::new())),
        (SessionState::Responding, Event::Connected),
    ];
    for (state, event) in cases {
        assert_eq!(
            step(state, event, &registry),
            Transition { state, action: Action::Nothing }
        );
    }
}

#[test]
fn example_all_comparisons_succeed() {
    let registry = three_branches();
    let (state, sent, asked) = drive(
        &registry,
        vec![
            Event::Connected,
            text("42"),
            Event::Resolved(Ok("abc123".to_string())),
            Event::Compared(vec![
                ok(0, ComparisonOutcome::Identical),
                ok(1, ComparisonOutcome::Ahead),
                ok(2, ComparisonOutcome::Behind),
            ]),
            Event::Sent,
        ],
    );
    assert_eq!(state, SessionState::Closed);
    assert_eq!(sent, answer_frames(vec![1, 0, 1]));
    assert_eq!(
        asked,
        vec![
            Action::Receive,
            Action::Resolve { pr: 42 },
            Action::Compare { commit: "abc123".to_string() },
        ]
    );
}

#[test]
fn example_malformed_number() {
    let registry = three_branches();
    let (state, sent, asked) = drive(&registry, vec![Event::Connected, text("42x")]);
    assert_eq!(state, SessionState::Closed);
    assert_eq!(sent, refusal_frames(INVALID_INPUT));
    assert_eq!(asked, vec![Action::Receive]);
}

#[test]
fn example_pull_request_not_found() {
    let registry = three_branches();
    let (state, sent, asked) = drive(
        &registry,
        vec![Event::Connected, text("99"), Event::Resolved(Err(UpstreamError::NotFound))],
    );
    assert_eq!(state, SessionState::Closed);
    assert_eq!(sent, refusal_frames(NOT_FOUND));
    assert!(sent.iter().all(|frame| !matches!(frame, Frame::Binary(_))));
    assert_eq!(asked, vec![Action::Receive, Action::Resolve { pr: 99 }]);
}

#[test]
fn partial_successes_are_discarded() {
    let registry = three_branches();
    for failed in 0..3 {
        let mut reports = vec![
            ok(0, ComparisonOutcome::Identical),
            ok(1, ComparisonOutcome::Behind),
            ok(2, ComparisonOutcome::Behind),
        ];
        reports[failed] = Err(UpstreamError::Unavailable);
        let (state, sent, _) = drive(
            &registry,
            vec![
                Event::Connected,
                text("42"),
                Event::Resolved(Ok("abc123".to_string())),
                Event::Compared(reports),
                Event::Sent,
            ],
        );
        assert_eq!(state, SessionState::Closed);
        assert_eq!(sent, refusal_frames(NOT_FOUND));
    }
}

#[test]
fn completion_order_does_not_show_in_the_answer() {
    let registry = three_branches();
    let forward = vec![
        ok(0, ComparisonOutcome::Identical),
        ok(1, ComparisonOutcome::Ahead),
        ok(2, ComparisonOutcome::Behind),
    ];
    let mut backward = forward.clone();
    backward.reverse();
    for reports in [forward, backward] {
        let (state, sent, _) = drive(
            &registry,
            vec![
                Event::Connected,
                text("42"),
                Event::Resolved(Ok("abc123".to_string())),
                Event::Compared(reports),
                Event::Sent,
            ],
        );
        assert_eq!(state, SessionState::Closed);
        assert_eq!(sent, answer_frames(vec![1, 0, 1]));
    }
}

#[test]
fn two_sessions_for_one_pull_request_answer_alike() {
    let registry = Registry::nixpkgs();
    let first = vec![
        ok(0, ComparisonOutcome::Behind),
        ok(2, ComparisonOutcome::Behind),
        ok(4, ComparisonOutcome::Ahead),
        ok(1, ComparisonOutcome::Identical),
        ok(3, ComparisonOutcome::Diverged),
    ];
    let second = vec![
        ok(3, ComparisonOutcome::Diverged),
        ok(4, ComparisonOutcome::Ahead),
        ok(0, ComparisonOutcome::Behind),
        ok(1, ComparisonOutcome::Identical),
        ok(2, ComparisonOutcome::Behind),
    ];
    let one = drive(
        &registry,
        vec![
            Event::Connected,
            text("193766"),
            Event::Resolved(Ok("14c5d226877aa90f656895ab7ab2badc4af03268".to_string())),
            Event::Compared(first),
            Event::Sent,
        ],
    );
    let other = drive(
        &registry,
        vec![
            Event::Connected,
            text("+0193766"),
            Event::Resolved(Ok("14c5d226877aa90f656895ab7ab2badc4af03268".to_string())),
            Event::Compared(second),
            Event::Sent,
        ],
    );
    assert_eq!(one, other);
    assert_eq!(one.0, SessionState::Closed);
    assert_eq!(one.1, answer_frames(vec![1, 1, 1, 0, 0]));
}

#[test]
fn a_session_answers_only_once() {
    let registry = three_branches();
    let reports = vec![
        ok(0, ComparisonOutcome::Identical),
        ok(1, ComparisonOutcome::Ahead),
        ok(2, ComparisonOutcome::Behind),
    ];
    let (state, sent, asked) = drive(
        &registry,
        vec![
            Event::Connected,
            text("42"),
            Event::Resolved(Ok("abc123".to_string())),
            Event::Compared(reports.clone()),
            text("43"),
            Event::Compared(reports.clone()),
            Event::Sent,
            text("44"),
            Event::Resolved(Ok("def456".to_string())),
            Event::Compared(reports),
        ],
    );
    assert_eq!(state, SessionState::Closed);
    assert_eq!(sent, answer_frames(vec![1, 0, 1]));
    assert_eq!(asked.len(), 3);
}

#[test]
fn a_client_that_leaves_gets_no_answer() {
    let registry = three_branches();
    let (state, sent, asked) = drive(
        &registry,
        vec![
            Event::Connected,
            text("42"),
            Event::Received(Inbound::Close),
            Event::Resolved(Ok("abc123".to_string())),
            Event::Compared(vec![
                ok(0, ComparisonOutcome::Identical),
                ok(1, ComparisonOutcome::Ahead),
                ok(2, ComparisonOutcome::Behind),
            ]),
        ],
    );
    assert_eq!(state, SessionState::Closed);
    assert!(sent.is_empty());
    assert_eq!(asked, vec![Action::Receive, Action::Resolve { pr: 42 }]);
}

#[test]
fn failing_steps_close_with_the_frame_of_the_error() {
    assert_eq!(
        Transition::failing(SessionError::InvalidInput),
        Transition {
            state: SessionState::Closed,
            action: Action::Send { frames: refusal_frames(INVALID_INPUT) },
        }
    );
    assert_eq!(
        Transition::failing(SessionError::UpstreamUnavailable),
        Transition {
            state: SessionState::Closed,
            action: Action::Send { frames: refusal_frames(NOT_FOUND) },
        }
    );
    assert_eq!(
        Transition::failing(SessionError::TransportError),
        Transition { state: SessionState::Closed, action: Action::Nothing }
    );
}

#[test]
fn staying_steps_keep_the_state() {
    assert_eq!(
        Transition::staying(SessionState::Resolving),
        Transition { state: SessionState::Resolving, action: Action::Nothing }
    );
}
