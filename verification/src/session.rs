//! The state machine of one session: from the state of the session and what
//! just happened to the next state and what is to be done.
//!
//! A session serves one command. It waits for a text frame that holds a
//! pull-request number, has the merge commit of that pull request looked up,
//! has the commit compared against every tracked branch, answers with one
//! status vector and closes. Whatever goes wrong on the way closes the session
//! with a reason and without a vector.

use vstd::prelude::*;
use vstd::string::*;
use crate::aggregate::{aggregate, aggregated};
use crate::error::{upstream_failure, SessionError, UpstreamError};
use crate::numeral::{parse_pr_number, pr_number};
use crate::outcome::Report;
use crate::registry::Registry;

verus! {

/// The close code of a session that did what it was opened for.
pub const CLOSE_NORMAL: u16 = 1000;

/// The close code of a session that ends on an error.
pub const CLOSE_INVALID: u16 = 1007;

/// Where a session stands.
#[derive(Clone, Copy, Debug, PartialEq, Eq, Structural)]
pub enum SessionState {
    /// The connection is not yet established.
    Open,
    /// The session waits for the client's command.
    AwaitingCommand,
    /// The merge commit of the pull request is being looked up.
    Resolving,
    /// The commit is being compared against the tracked branches.
    Aggregating,
    /// The status vector is being sent.
    Responding,
    /// The session is over.
    Closed,
}

/// A close frame: a code for machines and a reason for people.
#[derive(Clone, Debug, PartialEq, Eq)]
pub struct CloseFrame {
    pub code: u16,
    pub reason: String,
}

/// The content of a close frame.
pub struct CloseSignal {
    pub code: u16,
    pub reason: Seq<char>,
}

impl View for CloseFrame {
    type V = CloseSignal;

    open spec fn view(&self) -> CloseSignal {
        CloseSignal { code: self.code, reason: self.reason@ }
    }
}

/// A frame that the session sends to the client.
#[derive(Clone, Debug, PartialEq, Eq)]
pub enum Frame {
    /// A binary frame with this payload.
    Binary(Vec<u8>),
    /// A close frame.
    Close(CloseFrame),
}

/// The content of a frame that the session sends.
pub enum FrameView {
    Binary(Seq<u8>),
    Close(CloseSignal),
}

impl View for Frame {
    type V = FrameView;

    open spec fn view(&self) -> FrameView {
        match self {
            Frame::Binary(payload) => FrameView::Binary(payload@),
            Frame::Close(close) => FrameView::Close(close@),
        }
    }
}

/// A frame that arrived from the client.
#[derive(Clone, Debug, PartialEq, Eq)]
pub enum Inbound {
    /// A text frame with this text.
    Text(String),
    /// A close frame.
    Close,
    /// A frame of any other kind.
    Other,
}

/// The content of a frame that arrived.
pub enum InboundView {
    Text(Seq<char>),
    Close,
    Other,
}

impl View for Inbound {
    type V = InboundView;

    open spec fn view(&self) -> InboundView {
        match self {
            Inbound::Text(text) => InboundView::Text(text@),
            Inbound::Close => InboundView::Close,
            Inbound::Other => InboundView::Other,
        }
    }
}

/// What happened, as far as the session is concerned.
#[derive(Debug, PartialEq, Eq)]
pub enum Event {
    /// The connection was established.
    Connected,
    /// A frame arrived from the client.
    Received(Inbound),
    /// Reading from or writing to the client failed.
    TransportFailed,
    /// The lookup of the merge commit ended, with the commit or without.
    Resolved(Result<String, UpstreamError>),
    /// All comparisons ended; their reports stand in the order in which they ended.
    Compared(Vec<Report>),
    /// The frames of the last `Send` went out.
    Sent,
}

/// The content of an event.
pub enum EventView {
    Connected,
    Received(InboundView),
    TransportFailed,
    Resolved(Result<Seq<char>, UpstreamError>),
    Compared(Seq<Report>),
    Sent,
}

impl View for Event {
    type V = EventView;

    open spec fn view(&self) -> EventView {
        match self {
            Event::Connected => EventView::Connected,
            Event::Received(frame) => EventView::Received(frame@),
            Event::TransportFailed => EventView::TransportFailed,
            Event::Resolved(Ok(commit)) => EventView::Resolved(Ok(commit@)),
            Event::Resolved(Err(error)) => EventView::Resolved(Err(*error)),
            Event::Compared(reports) => EventView::Compared(reports@),
            Event::Sent => EventView::Sent,
        }
    }
}

/// What is to be done next for the session.
#[derive(Clone, Debug, PartialEq, Eq)]
pub enum Action {
    /// Wait for the next frame from the client.
    Receive,
    /// Look up the merge commit of this pull request.
    Resolve { pr: u32 },
    /// Compare this commit against every tracked branch.
    Compare { commit: String },
    /// Send these frames to the client, in this order.
    Send { frames: Vec<Frame> },
    /// Nothing.
    Nothing,
}

/// The content of an action.
pub enum ActionView {
    Receive,
    Resolve { pr: u32 },
    Compare { commit: Seq<char> },
    Send { frames: Seq<FrameView> },
    Nothing,
}

impl View for Action {
    type V = ActionView;

    open spec fn view(&self) -> ActionView {
        match self {
            Action::Receive => ActionView::Receive,
            Action::Resolve { pr } => ActionView::Resolve { pr: *pr },
            Action::Compare { commit } => ActionView::Compare { commit: commit@ },
            Action::Send { frames } => ActionView::Send {
                frames: frames@.map_values(|frame: Frame| frame@),
            },
            Action::Nothing => ActionView::Nothing,
        }
    }
}

/// One step of a session: the state it moves to and what is to be done.
#[derive(Clone, Debug, PartialEq, Eq)]
pub struct Transition {
    pub state: SessionState,
    pub action: Action,
}

/// The content of a step.
pub struct TransitionView {
    pub state: SessionState,
    pub action: ActionView,
}

impl View for Transition {
    type V = TransitionView;

    open spec fn view(&self) -> TransitionView {
        TransitionView { state: self.state, action: self.action@ }
    }
}

/// The close frame that tells the client of an error. Every error but a
/// transport error is told, with the code `CLOSE_INVALID`; a missing pull
/// request and an unavailable upstream service are told with one and the same
/// reason. A transport error is not told: there is nobody left to tell.
pub open spec fn refusal(error: SessionError) -> Option<CloseSignal> {
    match error {
        SessionError::InvalidInput => Some(
            CloseSignal {
                code: CLOSE_INVALID,
                reason: "PR number should only consist of numbers"@,
            },
        ),
        SessionError::NotFound | SessionError::UpstreamUnavailable => Some(
            CloseSignal { code: CLOSE_INVALID, reason: "Error: Unable to find the PR provided"@ },
        ),
        SessionError::UnsupportedFormat => Some(
            CloseSignal { code: CLOSE_INVALID, reason: "UnImplemented Format You Silly Goose"@ },
        ),
        SessionError::TransportError => None,
    }
}

/// The close frame that ends a session that did what it was opened for.
pub open spec fn farewell() -> CloseSignal {
    CloseSignal { code: CLOSE_NORMAL, reason: Seq::empty() }
}

/// The step that ends a session on an error.
pub open spec fn fail(error: SessionError) -> TransitionView {
    TransitionView {
        state: SessionState::Closed,
        action: match refusal(error) {
            Some(close) => ActionView::Send { frames: seq![FrameView::Close(close)] },
            None => ActionView::Nothing,
        },
    }
}

/// The step of a session that pays no attention to what happened.
pub open spec fn stay(state: SessionState) -> TransitionView {
    TransitionView { state, action: ActionView::Nothing }
}

/// The step that a session in `state` takes on `event`, where the registry has
/// `slots` branches.
///
/// - A closed session stays closed and does nothing.
/// - A close frame from the client, or a transport failure, closes the session
///   at once, whatever its state, and nothing is sent.
/// - `Open`, on `Connected`: `AwaitingCommand`, and the session waits for a frame.
/// - `AwaitingCommand`, on a text frame: `Resolving`, with the lookup of the
///   pull request that the text names; where the text names none, the session
///   fails with `InvalidInput`.
/// - `AwaitingCommand`, on a frame of another kind: the session fails with
///   `UnsupportedFormat`.
/// - `Resolving`, on the end of the lookup: `Aggregating`, with the comparison
///   of the commit; where the lookup failed, the session fails with its error.
/// - `Aggregating`, on the reports of the comparisons: `Responding`, with the
///   status vector in a binary frame and after it a normal close frame; where
///   the reports are not complete, the session fails with `UpstreamUnavailable`.
/// - `Responding`, when the frames went out: `Closed`.
/// - Any other event finds the session unprepared: it stays as it is.
pub open spec fn next(state: SessionState, event: EventView, slots: nat) -> TransitionView {
    if state == SessionState::Closed {
        stay(state)
    } else {
        match event {
            EventView::TransportFailed => fail(SessionError::TransportError),
            EventView::Received(InboundView::Close) => TransitionView {
                state: SessionState::Closed,
                action: ActionView::Nothing,
            },
            EventView::Connected => if state == SessionState::Open {
                TransitionView { state: SessionState::AwaitingCommand, action: ActionView::Receive }
            } else {
                stay(state)
            },
            EventView::Received(InboundView::Text(text)) => if state
                == SessionState::AwaitingCommand {
                match pr_number(text) {
                    Some(pr) => TransitionView {
                        state: SessionState::Resolving,
                        action: ActionView::Resolve { pr },
                    },
                    None => fail(SessionError::InvalidInput),
                }
            } else {
                stay(state)
            },
            EventView::Received(InboundView::Other) => if state == SessionState::AwaitingCommand {
                fail(SessionError::UnsupportedFormat)
            } else {
                stay(state)
            },
            EventView::Resolved(lookup) => if state == SessionState::Resolving {
                match lookup {
                    Ok(commit) => TransitionView {
                        state: SessionState::Aggregating,
                        action: ActionView::Compare { commit },
                    },
                    Err(error) => fail(upstream_failure(error)),
                }
            } else {
                stay(state)
            },
            EventView::Compared(reports) => if state == SessionState::Aggregating {
                match aggregated(slots, reports) {
                    Ok(vector) => TransitionView {
                        state: SessionState::Responding,
                        action: ActionView::Send {
                            frames: seq![FrameView::Binary(vector), FrameView::Close(farewell())],
                        },
                    },
                    Err(_) => fail(SessionError::UpstreamUnavailable),
                }
            } else {
                stay(state)
            },
            EventView::Sent => if state == SessionState::Responding {
                TransitionView { state: SessionState::Closed, action: ActionView::Nothing }
            } else {
                stay(state)
            },
        }
    }
}

impl SessionError {
    /// Returns the close frame that tells the client of this error, if the
    /// error is one that is told.
    pub fn close_frame(self) -> (r: Option<CloseFrame>)
        ensures
            r is Some == refusal(self) is Some,
            r matches Some(close) ==> close@ == refusal(self)->0,
    {
        match self {
            SessionError::InvalidInput => Some(
                CloseFrame {
                    code: CLOSE_INVALID,
                    reason: String::from_str("PR number should only consist of numbers"),
                },
            ),
            SessionError::NotFound | SessionError::UpstreamUnavailable => Some(
                CloseFrame {
                    code: CLOSE_INVALID,
                    reason: String::from_str("Error: Unable to find the PR provided"),
                },
            ),
            SessionError::UnsupportedFormat => Some(
                CloseFrame {
                    code: CLOSE_INVALID,
                    reason: String::from_str("UnImplemented Format You Silly Goose"),
                },
            ),
            SessionError::TransportError => None,
        }
    }
}

impl CloseFrame {
    /// Returns the close frame that ends a session that did what it was opened for.
    pub fn normal() -> (close: CloseFrame)
        ensures
            close@ == farewell(),
    {
        CloseFrame { code: CLOSE_NORMAL, reason: String::new() }
    }
}

impl Transition {
    /// Returns the step that ends a session on `error`.
    pub fn failing(error: SessionError) -> (t: Transition)
        ensures
            t@ == fail(error),
    {
        match error.close_frame() {
            Some(close) => {
                let mut frames: Vec<Frame> = Vec::new();
                frames.push(Frame::Close(close));
                let action = Action::Send { frames };
                assert(action@->frames =~= seq![FrameView::Close(close@)]);
                Transition { state: SessionState::Closed, action }
            },
            None => Transition { state: SessionState::Closed, action: Action::Nothing },
        }
    }

    /// Returns the step of a session that pays no attention to what happened.
    pub fn staying(state: SessionState) -> (t: Transition)
        ensures
            t@ == stay(state),
    {
        Transition { state, action: Action::Nothing }
    }
}

/// Takes one step of a session: from its state and what happened to its next
/// state and what is to be done.
pub fn step(state: SessionState, event: Event, registry: &Registry) -> (t: Transition)
    ensures
        t@ == next(state, event@, registry@.len()),
{
    if state == SessionState::Closed {
        return Transition::staying(state);
    }
    match event {
        Event::TransportFailed => Transition::failing(SessionError::TransportError),
        Event::Received(Inbound::Close) => Transition {
            state: SessionState::Closed,
            action: Action::Nothing,
        },
        Event::Connected => {
            if state == SessionState::Open {
                Transition { state: SessionState::AwaitingCommand, action: Action::Receive }
            } else {
                Transition::staying(state)
            }
        },
        Event::Received(Inbound::Text(text)) => {
            if state == SessionState::AwaitingCommand {
                match parse_pr_number(text.as_str()) {
                    Some(pr) => Transition {
                        state: SessionState::Resolving,
                        action: Action::Resolve { pr },
                    },
                    None => Transition::failing(SessionError::InvalidInput),
                }
            } else {
                Transition::staying(state)
            }
        },
        Event::Received(Inbound::Other) => {
            if state == SessionState::AwaitingCommand {
                Transition::failing(SessionError::UnsupportedFormat)
            } else {
                Transition::staying(state)
            }
        },
        Event::Resolved(lookup) => {
            if state == SessionState::Resolving {
                match lookup {
                    Ok(commit) => Transition {
                        state: SessionState::Aggregating,
                        action: Action::Compare { commit },
                    },
                    Err(error) => Transition::failing(SessionError::from_upstream(error)),
                }
            } else {
                Transition::staying(state)
            }
        },
        Event::Compared(reports) => {
            if state == SessionState::Aggregating {
                match aggregate(registry, &reports) {
                    Ok(vector) => {
                        let ghost payload = vector@;
                        let close = CloseFrame::normal();
                        let mut frames: Vec<Frame> = Vec::new();
                        frames.push(Frame::Binary(vector));
                        frames.push(Frame::Close(close));
                        let action = Action::Send { frames };
                        assert(action@->frames =~= seq![
                            FrameView::Binary(payload),
                            FrameView::Close(farewell()),
                        ]);
                        Transition { state: SessionState::Responding, action }
                    },
                    Err(_) => Transition::failing(SessionError::UpstreamUnavailable),
                }
            } else {
                Transition::staying(state)
            }
        },
        Event::Sent => {
            if state == SessionState::Responding {
                Transition { state: SessionState::Closed, action: Action::Nothing }
            } else {
                Transition::staying(state)
            }
        },
    }
}

} // verus!
