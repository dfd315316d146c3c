//! One topic subscription's reconnect-and-consume loop, as run by the
//! embeddable subscription manager.
//!
//! The loop keeps a lazily reopened connection, opens a push stream on
//! its topic, filters events exactly as the worker's live feed does,
//! claims each eligible record, and — only when the claim write
//! succeeded — hands the shell a payload to pass to the notification
//! sink. When the stream ends or the connection drops it backs off and
//! reconnects, forever, until the cooperative stop flag is observed:
//! that flag is checked before every reconnect attempt and after every
//! event, and ends the loop at the next step.

use vstd::prelude::*;

use crate::record::{event_yields, ChangeKind};

verus! {

/// Where the subscription loop stands.
#[derive(Clone, Copy, PartialEq, Eq, Structural, Debug)]
pub enum TopicPhase {
    Disconnected,
    Connected,
    Streaming,
    Stopped,
}

/// What the shell reports to the subscription loop.
pub enum TopicEvent {
    ConnectFailed,
    ConnectSucceeded,
    StreamStartFailed,
    StreamStarted,
    ItemError,
    Item { kind: ChangeKind, status: Vec<u8> },
    ClaimSucceeded,
    ClaimFailed,
    StreamEnded,
}

/// The mathematical shadow of a [`TopicEvent`].
pub enum TopicEventView {
    ConnectFailed,
    ConnectSucceeded,
    StreamStartFailed,
    StreamStarted,
    ItemError,
    Item { kind: ChangeKind, status: Seq<u8> },
    ClaimSucceeded,
    ClaimFailed,
    StreamEnded,
}

impl View for TopicEvent {
    type V = TopicEventView;

    open spec fn view(&self) -> TopicEventView {
        match self {
            TopicEvent::ConnectFailed => TopicEventView::ConnectFailed,
            TopicEvent::ConnectSucceeded => TopicEventView::ConnectSucceeded,
            TopicEvent::StreamStartFailed => TopicEventView::StreamStartFailed,
            TopicEvent::StreamStarted => TopicEventView::StreamStarted,
            TopicEvent::ItemError => TopicEventView::ItemError,
            TopicEvent::Item { kind, status } => TopicEventView::Item {
                kind: *kind,
                status: status@,
            },
            TopicEvent::ClaimSucceeded => TopicEventView::ClaimSucceeded,
            TopicEvent::ClaimFailed => TopicEventView::ClaimFailed,
            TopicEvent::StreamEnded => TopicEventView::StreamEnded,
        }
    }
}

/// What the shell is asked to do next.
///
/// `Reconnect` sleeps `backoff_ms`, then opens a fresh connection.
/// `ClaimRecord` issues the claim write for the record just delivered
/// and reports back whether it landed. `NotifyThenAwait` hands the
/// claimed record's payload to the sink, then waits for the next
/// event. `Exit` ends the loop's task.
#[derive(Clone, Copy, PartialEq, Eq, Structural, Debug)]
pub enum TopicDirective {
    Reconnect { backoff_ms: u64 },
    OpenStream,
    AwaitItem,
    ClaimRecord,
    NotifyThenAwait,
    Exit,
}

/// Which events a phase can absorb. The stopped phase absorbs
/// anything: the loop is already over.
pub open spec fn topic_accepts(phase: TopicPhase, event: TopicEventView) -> bool {
    match (phase, event) {
        (TopicPhase::Stopped, _) => true,
        (TopicPhase::Disconnected, TopicEventView::ConnectFailed) => true,
        (TopicPhase::Disconnected, TopicEventView::ConnectSucceeded) => true,
        (TopicPhase::Connected, TopicEventView::StreamStartFailed) => true,
        (TopicPhase::Connected, TopicEventView::StreamStarted) => true,
        (TopicPhase::Streaming, TopicEventView::ItemError) => true,
        (TopicPhase::Streaming, TopicEventView::Item { .. }) => true,
        (TopicPhase::Streaming, TopicEventView::ClaimSucceeded) => true,
        (TopicPhase::Streaming, TopicEventView::ClaimFailed) => true,
        (TopicPhase::Streaming, TopicEventView::StreamEnded) => true,
        _ => false,
    }
}

/// The subscription loop's transition function. `stop` is the
/// cooperative cancellation flag as read at this step.
///
/// Connect and stream-open failures back off a full second; a stream
/// that ends after running backs off half a second. An event is
/// claimed only when eligible, and the sink is notified only on a
/// claim that succeeded; a failed claim drops the event without retry.
pub open spec fn topic_step_spec(phase: TopicPhase, stop: bool, event: TopicEventView) -> (
    TopicPhase,
    TopicDirective,
) {
    if stop || phase == TopicPhase::Stopped {
        (TopicPhase::Stopped, TopicDirective::Exit)
    } else {
        match (phase, event) {
            (TopicPhase::Disconnected, TopicEventView::ConnectFailed) => (
                TopicPhase::Disconnected,
                TopicDirective::Reconnect { backoff_ms: 1000 },
            ),
            (TopicPhase::Disconnected, TopicEventView::ConnectSucceeded) => (
                TopicPhase::Connected,
                TopicDirective::OpenStream,
            ),
            (TopicPhase::Connected, TopicEventView::StreamStartFailed) => (
                TopicPhase::Disconnected,
                TopicDirective::Reconnect { backoff_ms: 1000 },
            ),
            (TopicPhase::Connected, TopicEventView::StreamStarted) => (
                TopicPhase::Streaming,
                TopicDirective::AwaitItem,
            ),
            (TopicPhase::Streaming, TopicEventView::ItemError) => (
                TopicPhase::Streaming,
                TopicDirective::AwaitItem,
            ),
            (TopicPhase::Streaming, TopicEventView::Item { kind, status }) => (
                TopicPhase::Streaming,
                if event_yields(kind, status) {
                    TopicDirective::ClaimRecord
                } else {
                    TopicDirective::AwaitItem
                },
            ),
            (TopicPhase::Streaming, TopicEventView::ClaimSucceeded) => (
                TopicPhase::Streaming,
                TopicDirective::NotifyThenAwait,
            ),
            (TopicPhase::Streaming, TopicEventView::ClaimFailed) => (
                TopicPhase::Streaming,
                TopicDirective::AwaitItem,
            ),
            (TopicPhase::Streaming, TopicEventView::StreamEnded) => (
                TopicPhase::Disconnected,
                TopicDirective::Reconnect { backoff_ms: 500 },
            ),
            _ => (phase, TopicDirective::AwaitItem),
        }
    }
}

/// Advances the subscription loop by one reported event, under the
/// stop flag's current reading.
pub fn topic_step(phase: TopicPhase, stop: bool, event: &TopicEvent) -> (r: (
    TopicPhase,
    TopicDirective,
))
    ensures
        r == topic_step_spec(phase, stop, event@),
{
    if stop || phase == TopicPhase::Stopped {
        return (TopicPhase::Stopped, TopicDirective::Exit);
    }
    match (phase, event) {
        (TopicPhase::Disconnected, TopicEvent::ConnectFailed) => (
            TopicPhase::Disconnected,
            TopicDirective::Reconnect { backoff_ms: 1000 },
        ),
        (TopicPhase::Disconnected, TopicEvent::ConnectSucceeded) => (
            TopicPhase::Connected,
            TopicDirective::OpenStream,
        ),
        (TopicPhase::Connected, TopicEvent::StreamStartFailed) => (
            TopicPhase::Disconnected,
            TopicDirective::Reconnect { backoff_ms: 1000 },
        ),
        (TopicPhase::Connected, TopicEvent::StreamStarted) => (
            TopicPhase::Streaming,
            TopicDirective::AwaitItem,
        ),
        (TopicPhase::Streaming, TopicEvent::ItemError) => (
            TopicPhase::Streaming,
            TopicDirective::AwaitItem,
        ),
        (TopicPhase::Streaming, TopicEvent::Item { kind, status }) => (
            TopicPhase::Streaming,
            if crate::record::event_is_eligible(*kind, status.as_slice()) {
                TopicDirective::ClaimRecord
            } else {
                TopicDirective::AwaitItem
            },
        ),
        (TopicPhase::Streaming, TopicEvent::ClaimSucceeded) => (
            TopicPhase::Streaming,
            TopicDirective::NotifyThenAwait,
        ),
        (TopicPhase::Streaming, TopicEvent::ClaimFailed) => (
            TopicPhase::Streaming,
            TopicDirective::AwaitItem,
        ),
        (TopicPhase::Streaming, TopicEvent::StreamEnded) => (
            TopicPhase::Disconnected,
            TopicDirective::Reconnect { backoff_ms: 500 },
        ),
        _ => (phase, TopicDirective::AwaitItem),
    }
}

/// The sink is notified only for a claim that succeeded: no other
/// phase, flag reading or event produces a notification.
pub proof fn lemma_notify_needs_claim(phase: TopicPhase, stop: bool, event: TopicEventView)
    ensures
        topic_step_spec(phase, stop, event).1 == TopicDirective::NotifyThenAwait <==> (!stop
            && phase == TopicPhase::Streaming && event == TopicEventView::ClaimSucceeded),
{
}

/// Cancellation is honored at the very next step: whenever the stop
/// flag reads true, the loop exits, and the stopped phase is never
/// left again.
pub proof fn lemma_stop_ends_loop(phase: TopicPhase, stop: bool, event: TopicEventView)
    requires
        stop || phase == TopicPhase::Stopped,
    ensures
        topic_step_spec(phase, stop, event) == (TopicPhase::Stopped, TopicDirective::Exit),
{
}

} // verus!
