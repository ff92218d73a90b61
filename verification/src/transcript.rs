//! A session from its first event to its last: the frames that it sends, and
//! what holds of them whatever the client and the upstream service do.

use vstd::prelude::*;
use crate::aggregate::{complete, lemma_order_independent, lemma_status_vector, status_vector};
use crate::error::{upstream_failure, SessionError, UpstreamError};
use crate::numeral::pr_number;
use crate::outcome::{ComparisonOutcome, Report};
use crate::session::{
    farewell,
    next,
    refusal,
    ActionView,
    EventView,
    FrameView,
    InboundView,
    SessionState,
};

verus! {

/// What has become of a session: the state it is in and the frames it has
/// sent, in the order in which it sent them.
pub struct Transcript {
    pub state: SessionState,
    pub sent: Seq<FrameView>,
}

/// The frames that an action sends.
pub open spec fn sends(action: ActionView) -> Seq<FrameView> {
    match action {
        ActionView::Send { frames } => frames,
        _ => Seq::empty(),
    }
}

/// The transcript of a session that starts in `state` and meets `events`, one
/// after the other.
pub open spec fn run(state: SessionState, events: Seq<EventView>, slots: nat) -> Transcript
    decreases events.len(),
{
    if events.len() == 0 {
        Transcript { state, sent: Seq::empty() }
    } else {
        let step = next(state, events.first(), slots);
        let rest = run(step.state, events.drop_first(), slots);
        Transcript { state: rest.state, sent: sends(step.action) + rest.sent }
    }
}

/// The events of a session that nothing disturbs: the connection is
/// established, the client sends `text`, the lookup of the merge commit ends
/// with `lookup`, the comparisons end with `reports`, and the answer goes out.
pub open spec fn exchange(
    text: Seq<char>,
    lookup: Result<Seq<char>, UpstreamError>,
    reports: Seq<Report>,
) -> Seq<EventView> {
    seq![
        EventView::Connected,
        EventView::Received(InboundView::Text(text)),
        EventView::Resolved(lookup),
        EventView::Compared(reports),
        EventView::Sent,
    ]
}

/// The transcript of a session that ends on `error`.
pub open spec fn refused(error: SessionError) -> Transcript {
    Transcript {
        state: SessionState::Closed,
        sent: match refusal(error) {
            Some(close) => seq![FrameView::Close(close)],
            None => Seq::empty(),
        },
    }
}

/// No frame of `sent` is a binary frame.
pub open spec fn no_binary(sent: Seq<FrameView>) -> bool {
    forall|i: int| 0 <= i < sent.len() ==> !((#[trigger] sent[i]) is Binary)
}

/// A session that meets `first` and then `rest` takes the step for `first` and
/// goes on from there.
proof fn lemma_run_first(
    state: SessionState,
    first: EventView,
    rest: Seq<EventView>,
    slots: nat,
)
    ensures
        run(state, seq![first] + rest, slots) == (Transcript {
            state: run(next(state, first, slots).state, rest, slots).state,
            sent: sends(next(state, first, slots).action) + run(
                next(state, first, slots).state,
                rest,
                slots,
            ).sent,
        }),
{
    assert((seq![first] + rest).drop_first() =~= rest);
}

/// A closed session stays closed and sends nothing, whatever happens.
pub proof fn lemma_closed_is_silent(events: Seq<EventView>, slots: nat)
    ensures
        run(SessionState::Closed, events, slots) == (Transcript {
            state: SessionState::Closed,
            sent: Seq::empty(),
        }),
    decreases events.len(),
{
    if events.len() > 0 {
        lemma_closed_is_silent(events.drop_first(), slots);
    }
}

/// What a session may send in all: nothing; or one close frame that tells of
/// an error; or one binary frame with a byte for each branch of the registry
/// and, after it, the normal close frame.
pub open spec fn one_answer(sent: Seq<FrameView>, slots: nat) -> bool {
    ||| sent.len() == 0
    ||| sent.len() == 1 && sent[0] is Close && sent[0]->Close_0.code
        == crate::session::CLOSE_INVALID
    ||| sent.len() == 2 && sent[0] is Binary && sent[0]->Binary_0.len() == slots && sent[1]
        == FrameView::Close(farewell())
}

/// A session that is sending its answer, or is closed, sends nothing more.
proof fn lemma_answered_is_silent(state: SessionState, events: Seq<EventView>, slots: nat)
    requires
        state == SessionState::Responding || state == SessionState::Closed,
    ensures
        run(state, events, slots).sent == Seq::<FrameView>::empty(),
    decreases events.len(),
{
    if events.len() > 0 {
        lemma_answered_is_silent(
            next(state, events.first(), slots).state,
            events.drop_first(),
            slots,
        );
    }
}

/// A session answers once: whatever happens and in whatever order, all that a
/// session sends is one answer. No second vector follows a first, nothing
/// follows a close frame, and no vector is ever shorter or longer than the
/// registry.
pub proof fn lemma_one_answer(state: SessionState, events: Seq<EventView>, slots: nat)
    ensures
        one_answer(run(state, events, slots).sent, slots),
    decreases events.len(),
{
    if events.len() > 0 {
        let step = next(state, events.first(), slots);
        lemma_one_answer(step.state, events.drop_first(), slots);
        if sends(step.action).len() > 0 {
            lemma_answered_is_silent(step.state, events.drop_first(), slots);
        }
    }
}

/// A text that names no pull request ends the session at once. Such a text is
/// empty, or holds a minus sign or another character that is no digit, or
/// names a number that does not fit in 32 bits. Whatever follows it, the
/// session sends the close frame for invalid input and nothing else: no binary
/// frame goes out. The step that reads the text asks for no lookup.
pub proof fn lemma_malformed_text_is_refused(text: Seq<char>, rest: Seq<EventView>, slots: nat)
    requires
        pr_number(text) is None,
    ensures
        run(
            SessionState::Open,
            seq![EventView::Connected, EventView::Received(InboundView::Text(text))] + rest,
            slots,
        ) == refused(SessionError::InvalidInput),
        no_binary(refused(SessionError::InvalidInput).sent),
        next(SessionState::AwaitingCommand, EventView::Received(InboundView::Text(text)), slots)
            == crate::session::fail(SessionError::InvalidInput),
{
    let first = EventView::Connected;
    let second = EventView::Received(InboundView::Text(text));
    assert(seq![first, second] + rest =~= seq![first] + (seq![second] + rest));
    lemma_run_first(SessionState::Open, first, seq![second] + rest, slots);
    lemma_run_first(SessionState::AwaitingCommand, second, rest, slots);
    lemma_closed_is_silent(rest, slots);
    assert(run(SessionState::Open, seq![first, second] + rest, slots).sent =~= refused(
        SessionError::InvalidInput,
    ).sent);
}

/// The transcript of an undisturbed session, step by step.
proof fn lemma_exchange_steps(
    text: Seq<char>,
    lookup: Result<Seq<char>, UpstreamError>,
    reports: Seq<Report>,
    slots: nat,
)
    ensures
        run(SessionState::Open, exchange(text, lookup, reports), slots) == ({
            let s1 = next(SessionState::Open, EventView::Connected, slots);
            let s2 = next(s1.state, EventView::Received(InboundView::Text(text)), slots);
            let s3 = next(s2.state, EventView::Resolved(lookup), slots);
            let s4 = next(s3.state, EventView::Compared(reports), slots);
            let s5 = next(s4.state, EventView::Sent, slots);
            Transcript {
                state: s5.state,
                sent: sends(s1.action) + (sends(s2.action) + (sends(s3.action) + (sends(s4.action)
                    + (sends(s5.action) + Seq::empty())))),
            }
        }),
{
    let e1 = EventView::Connected;
    let e2 = EventView::Received(InboundView::Text(text));
    let e3 = EventView::Resolved(lookup);
    let e4 = EventView::Compared(reports);
    let e5 = EventView::Sent;
    let s1 = next(SessionState::Open, e1, slots);
    let s2 = next(s1.state, e2, slots);
    let s3 = next(s2.state, e3, slots);
    let s4 = next(s3.state, e4, slots);
    let s5 = next(s4.state, e5, slots);
    let none = Seq::<EventView>::empty();
    assert(exchange(text, lookup, reports) =~= seq![e1] + (seq![e2] + (seq![e3] + (seq![e4] + (
    seq![e5] + none)))));
    lemma_run_first(
        SessionState::Open,
        e1,
        seq![e2] + (seq![e3] + (seq![e4] + (seq![e5] + none))),
        slots,
    );
    lemma_run_first(s1.state, e2, seq![e3] + (seq![e4] + (seq![e5] + none)), slots);
    lemma_run_first(s2.state, e3, seq![e4] + (seq![e5] + none), slots);
    lemma_run_first(s3.state, e4, seq![e5] + none, slots);
    lemma_run_first(s4.state, e5, none, slots);
}

/// Where the text names a pull request, its merge commit resolves and the
/// comparisons report completely, the session sends exactly two frames and
/// closes: a binary frame whose payload has one byte for each branch of the
/// registry, the byte at the position of each report being 1 if the reported
/// outcome is `Behind` or `Identical` and 0 otherwise; then the normal close
/// frame.
pub proof fn lemma_complete_reports_are_answered(
    text: Seq<char>,
    commit: Seq<char>,
    reports: Seq<Report>,
    slots: nat,
)
    requires
        pr_number(text) is Some,
        complete(slots, reports),
    ensures
        run(SessionState::Open, exchange(text, Ok(commit), reports), slots) == (Transcript {
            state: SessionState::Closed,
            sent: seq![
                FrameView::Binary(status_vector(slots, reports)),
                FrameView::Close(farewell()),
            ],
        }),
        status_vector(slots, reports).len() == slots,
        forall|i: int|
            0 <= i < reports.len() ==> status_vector(slots, reports)[(
            #[trigger] reports[i])->Ok_0.position as int] == (if reports[i]->Ok_0.outcome
                == ComparisonOutcome::Behind || reports[i]->Ok_0.outcome
                == ComparisonOutcome::Identical {
                1u8
            } else {
                0u8
            }),
{
    lemma_exchange_steps(text, Ok(commit), reports, slots);
    lemma_status_vector(slots, reports);
    assert(run(SessionState::Open, exchange(text, Ok(commit), reports), slots).sent =~= seq![
        FrameView::Binary(status_vector(slots, reports)),
        FrameView::Close(farewell()),
    ]);
}

/// Where the lookup of the merge commit fails, the session closes with the
/// close frame of that failure and sends no binary frame.
pub proof fn lemma_failed_lookup_is_refused(
    text: Seq<char>,
    error: UpstreamError,
    reports: Seq<Report>,
    slots: nat,
)
    requires
        pr_number(text) is Some,
    ensures
        run(SessionState::Open, exchange(text, Err(error), reports), slots) == refused(
            upstream_failure(error),
        ),
        no_binary(refused(upstream_failure(error)).sent),
{
    lemma_exchange_steps(text, Err(error), reports, slots);
    assert(run(SessionState::Open, exchange(text, Err(error), reports), slots).sent =~= refused(
        upstream_failure(error),
    ).sent);
}

/// All or nothing: where a single comparison failed, the session closes with
/// the close frame for an unavailable upstream service and sends no binary
/// frame, however many comparisons succeeded.
pub proof fn lemma_failed_comparison_is_refused(
    text: Seq<char>,
    commit: Seq<char>,
    reports: Seq<Report>,
    failed: int,
    slots: nat,
)
    requires
        pr_number(text) is Some,
        0 <= failed < reports.len(),
        reports[failed] is Err,
    ensures
        run(SessionState::Open, exchange(text, Ok(commit), reports), slots) == refused(
            SessionError::UpstreamUnavailable,
        ),
        no_binary(refused(SessionError::UpstreamUnavailable).sent),
{
    lemma_exchange_steps(text, Ok(commit), reports, slots);
    assert(run(SessionState::Open, exchange(text, Ok(commit), reports), slots).sent =~= refused(
        SessionError::UpstreamUnavailable,
    ).sent);
}

/// The same request gets the same answer: two sessions whose texts name the
/// same pull request, whose lookups end alike and whose comparisons report the
/// same items, in whatever order each, send the same frames.
pub proof fn lemma_same_request_same_answer(
    text: Seq<char>,
    again: Seq<char>,
    lookup: Result<Seq<char>, UpstreamError>,
    reports: Seq<Report>,
    reordered: Seq<Report>,
    slots: nat,
)
    requires
        pr_number(text) == pr_number(again),
        reports.to_multiset() == reordered.to_multiset(),
    ensures
        run(SessionState::Open, exchange(text, lookup, reports), slots) == run(
            SessionState::Open,
            exchange(again, lookup, reordered),
            slots,
        ),
{
    lemma_exchange_steps(text, lookup, reports, slots);
    lemma_exchange_steps(again, lookup, reordered, slots);
    lemma_order_independent(slots, reports, reordered);
}

} // verus!
