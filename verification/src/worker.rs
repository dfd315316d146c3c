//! The standalone worker's feed orchestration.
//!
//! Startup retries the connection with a fixed backoff until it
//! succeeds. Once connected, the worker tries the push (live) feed
//! first; if the push stream cannot be opened, or later terminates for
//! any reason, the worker switches to the pull (poll) feed for the
//! rest of its life — the fallback is one-way. Within either feed,
//! each yielded record runs the lifecycle of [`crate::pipeline`];
//! per-record trouble never leaves the feed loop.

use vstd::prelude::*;

use crate::record::{event_yields, ChangeKind, CommandRecord};

verus! {

/// Which feed the worker is on.
#[derive(Clone, Copy, PartialEq, Eq, Structural, Debug)]
pub enum WorkerPhase {
    Connecting,
    Live,
    Poll,
}

/// What the shell reports to the worker loop.
pub enum WorkerEvent {
    ConnectFailed,
    Connected,
    LiveStartFailed,
    LiveStarted,
    LiveItem { kind: ChangeKind, status: Vec<u8> },
    LiveItemError,
    LiveEnded,
    PollSucceeded,
    PollFailed,
}

/// The mathematical shadow of a [`WorkerEvent`].
pub enum WorkerEventView {
    ConnectFailed,
    Connected,
    LiveStartFailed,
    LiveStarted,
    LiveItem { kind: ChangeKind, status: Seq<u8> },
    LiveItemError,
    LiveEnded,
    PollSucceeded,
    PollFailed,
}

impl View for WorkerEvent {
    type V = WorkerEventView;

    open spec fn view(&self) -> WorkerEventView {
        match self {
            WorkerEvent::ConnectFailed => WorkerEventView::ConnectFailed,
            WorkerEvent::Connected => WorkerEventView::Connected,
            WorkerEvent::LiveStartFailed => WorkerEventView::LiveStartFailed,
            WorkerEvent::LiveStarted => WorkerEventView::LiveStarted,
            WorkerEvent::LiveItem { kind, status } => WorkerEventView::LiveItem {
                kind: *kind,
                status: status@,
            },
            WorkerEvent::LiveItemError => WorkerEventView::LiveItemError,
            WorkerEvent::LiveEnded => WorkerEventView::LiveEnded,
            WorkerEvent::PollSucceeded => WorkerEventView::PollSucceeded,
            WorkerEvent::PollFailed => WorkerEventView::PollFailed,
        }
    }
}

/// What the shell is asked to do next.
///
/// `RetryConnect` sleeps the fixed one-second backoff, then attempts
/// the connection again. `PollNow` issues the poll query immediately;
/// `PollAfterSleep` sleeps one poll period first. `HandleThenAwaitLive`
/// runs the record lifecycle for the eligible record just delivered,
/// then waits for the next notification; `HandleBatchThenPoll` runs it
/// for each fetched row, then sleeps one period and polls again.
#[derive(Clone, Copy, PartialEq, Eq, Structural, Debug)]
pub enum WorkerDirective {
    RetryConnect,
    StartLive,
    AwaitLive,
    HandleThenAwaitLive,
    PollNow,
    PollAfterSleep,
    HandleBatchThenPoll,
}

/// Which events a phase can absorb.
pub open spec fn phase_accepts(phase: WorkerPhase, event: WorkerEventView) -> bool {
    match (phase, event) {
        (WorkerPhase::Connecting, WorkerEventView::ConnectFailed) => true,
        (WorkerPhase::Connecting, WorkerEventView::Connected) => true,
        (WorkerPhase::Live, WorkerEventView::LiveStartFailed) => true,
        (WorkerPhase::Live, WorkerEventView::LiveStarted) => true,
        (WorkerPhase::Live, WorkerEventView::LiveItem { .. }) => true,
        (WorkerPhase::Live, WorkerEventView::LiveItemError) => true,
        (WorkerPhase::Live, WorkerEventView::LiveEnded) => true,
        (WorkerPhase::Poll, WorkerEventView::PollSucceeded) => true,
        (WorkerPhase::Poll, WorkerEventView::PollFailed) => true,
        _ => false,
    }
}

/// The worker loop's transition function.
///
/// Connection failures retry forever. The live feed is attempted once
/// per process life: the first failure to start it, or its eventual
/// end, moves the worker to the poll phase, which no event leaves. A
/// live notification is handled only when its change kind and record
/// status make it eligible; errored notifications are skipped. A
/// failed poll query counts as an empty batch, and the next tick
/// proceeds regardless.
pub open spec fn worker_step_spec(phase: WorkerPhase, event: WorkerEventView) -> (WorkerPhase,
    WorkerDirective) {
    match (phase, event) {
        (WorkerPhase::Connecting, WorkerEventView::ConnectFailed) => (
            WorkerPhase::Connecting,
            WorkerDirective::RetryConnect,
        ),
        (WorkerPhase::Connecting, WorkerEventView::Connected) => (
            WorkerPhase::Live,
            WorkerDirective::StartLive,
        ),
        (WorkerPhase::Live, WorkerEventView::LiveStartFailed) => (
            WorkerPhase::Poll,
            WorkerDirective::PollNow,
        ),
        (WorkerPhase::Live, WorkerEventView::LiveStarted) => (
            WorkerPhase::Live,
            WorkerDirective::AwaitLive,
        ),
        (WorkerPhase::Live, WorkerEventView::LiveItem { kind, status }) => (
            WorkerPhase::Live,
            if event_yields(kind, status) {
                WorkerDirective::HandleThenAwaitLive
            } else {
                WorkerDirective::AwaitLive
            },
        ),
        (WorkerPhase::Live, WorkerEventView::LiveItemError) => (
            WorkerPhase::Live,
            WorkerDirective::AwaitLive,
        ),
        (WorkerPhase::Live, WorkerEventView::LiveEnded) => (
            WorkerPhase::Poll,
            WorkerDirective::PollNow,
        ),
        (WorkerPhase::Poll, WorkerEventView::PollSucceeded) => (
            WorkerPhase::Poll,
            WorkerDirective::HandleBatchThenPoll,
        ),
        (WorkerPhase::Poll, WorkerEventView::PollFailed) => (
            WorkerPhase::Poll,
            WorkerDirective::PollAfterSleep,
        ),
        _ => (phase, WorkerDirective::RetryConnect),
    }
}

/// Advances the worker loop by one reported event.
pub fn worker_step(phase: WorkerPhase, event: &WorkerEvent) -> (r: (WorkerPhase, WorkerDirective))
    ensures
        r == worker_step_spec(phase, event@),
{
    match (phase, event) {
        (WorkerPhase::Connecting, WorkerEvent::ConnectFailed) => (
            WorkerPhase::Connecting,
            WorkerDirective::RetryConnect,
        ),
        (WorkerPhase::Connecting, WorkerEvent::Connected) => (
            WorkerPhase::Live,
            WorkerDirective::StartLive,
        ),
        (WorkerPhase::Live, WorkerEvent::LiveStartFailed) => (
            WorkerPhase::Poll,
            WorkerDirective::PollNow,
        ),
        (WorkerPhase::Live, WorkerEvent::LiveStarted) => (
            WorkerPhase::Live,
            WorkerDirective::AwaitLive,
        ),
        (WorkerPhase::Live, WorkerEvent::LiveItem { kind, status }) => (
            WorkerPhase::Live,
            if crate::record::event_is_eligible(*kind, status.as_slice()) {
                WorkerDirective::HandleThenAwaitLive
            } else {
                WorkerDirective::AwaitLive
            },
        ),
        (WorkerPhase::Live, WorkerEvent::LiveItemError) => (
            WorkerPhase::Live,
            WorkerDirective::AwaitLive,
        ),
        (WorkerPhase::Live, WorkerEvent::LiveEnded) => (
            WorkerPhase::Poll,
            WorkerDirective::PollNow,
        ),
        (WorkerPhase::Poll, WorkerEvent::PollSucceeded) => (
            WorkerPhase::Poll,
            WorkerDirective::HandleBatchThenPoll,
        ),
        (WorkerPhase::Poll, WorkerEvent::PollFailed) => (
            WorkerPhase::Poll,
            WorkerDirective::PollAfterSleep,
        ),
        _ => (phase, WorkerDirective::RetryConnect),
    }
}

/// The fallback is one-way: from the poll phase, no event returns the
/// worker to the live feed, and no directive ever asks the shell to
/// start or await a push stream again.
pub proof fn lemma_fallback_is_permanent(event: WorkerEventView)
    requires
        phase_accepts(WorkerPhase::Poll, event),
    ensures
        worker_step_spec(WorkerPhase::Poll, event).0 == WorkerPhase::Poll,
        worker_step_spec(WorkerPhase::Poll, event).1 != WorkerDirective::StartLive,
        worker_step_spec(WorkerPhase::Poll, event).1 != WorkerDirective::AwaitLive,
        worker_step_spec(WorkerPhase::Poll, event).1 != WorkerDirective::HandleThenAwaitLive,
{
}

/// A failed poll query does not stop the loop: the worker stays on the
/// poll feed and schedules the next tick, exactly as it would after an
/// empty batch.
pub proof fn lemma_poll_error_keeps_ticking()
    ensures
        worker_step_spec(WorkerPhase::Poll, WorkerEventView::PollFailed) == (
            WorkerPhase::Poll,
            WorkerDirective::PollAfterSleep,
        ),
{
}

/// One poll tick's work, planned up front: the claim statement and the
/// dispatch plan of every fetched row, in order. An empty batch plans
/// nothing — no claim, no execution, no acknowledgement.
pub fn plan_tick(records: &Vec<CommandRecord>) -> (items: Vec<
    (crate::pipeline::RecordStage, crate::pipeline::RecordDirective),
>)
    ensures
        items@.len() == records@.len(),
        forall|i: int|
            0 <= i < records@.len() ==> #[trigger] items@[i].0@ == (
            crate::pipeline::StageView::Claiming { plan: crate::dispatch::plan_of(records@[i]@) }),
        forall|i: int|
            0 <= i < records@.len() ==> #[trigger] items@[i].1@ == (
            crate::pipeline::RecordDirectiveView::DoClaim {
                statement: crate::store::claim_statement_view(
                    records@[i]@.table,
                    records@[i]@.key,
                ),
            }),
{
    let mut items: Vec<(crate::pipeline::RecordStage, crate::pipeline::RecordDirective)> =
        Vec::new();
    let mut i: usize = 0;
    while i < records.len()
        invariant
            i <= records@.len(),
            items@.len() == i,
            forall|j: int|
                0 <= j < i ==> #[trigger] items@[j].0@ == (crate::pipeline::StageView::Claiming {
                    plan: crate::dispatch::plan_of(records@[j]@),
                }),
            forall|j: int|
                0 <= j < i ==> #[trigger] items@[j].1@ == (
                crate::pipeline::RecordDirectiveView::DoClaim {
                    statement: crate::store::claim_statement_view(
                        records@[j]@.table,
                        records@[j]@.key,
                    ),
                }),
        decreases records@.len() - i,
    {
        let item = crate::pipeline::start_record(&records[i]);
        items.push(item);
        i = i + 1;
    }
    items
}

} // verus!

verus! {

/// The directives a whole run of the worker loop emits, one per
/// reported event, each produced by [`worker_step_spec`] from the
/// phase the previous events left behind.
pub open spec fn worker_trace(phase: WorkerPhase, events: Seq<WorkerEventView>) -> Seq<
    WorkerDirective,
>
    decreases events.len(),
{
    if events.len() == 0 {
        Seq::empty()
    } else {
        seq![worker_step_spec(phase, events[0]).1] + worker_trace(
            worker_step_spec(phase, events[0]).0,
            events.skip(1),
        )
    }
}

/// A directive that starts, awaits or handles the push feed.
pub open spec fn is_live_directive(d: WorkerDirective) -> bool {
    d == WorkerDirective::StartLive || d == WorkerDirective::AwaitLive || d
        == WorkerDirective::HandleThenAwaitLive
}

/// Once the worker is on the poll feed, no sequence of events — of
/// any length, in any order — ever yields a directive that touches
/// the push feed again: the fallback is permanent for the rest of the
/// run.
pub proof fn lemma_no_push_after_fallback(events: Seq<WorkerEventView>)
    ensures
        forall|i: int|
            0 <= i < worker_trace(WorkerPhase::Poll, events).len() ==> !is_live_directive(
                #[trigger] worker_trace(WorkerPhase::Poll, events)[i],
            ),
    decreases events.len(),
{
    if events.len() > 0 {
        let (p2, d) = worker_step_spec(WorkerPhase::Poll, events[0]);
        assert(p2 == WorkerPhase::Poll);
        assert(!is_live_directive(d));
        lemma_no_push_after_fallback(events.skip(1));
        assert(worker_trace(WorkerPhase::Poll, events).skip(1) =~= worker_trace(
            WorkerPhase::Poll,
            events.skip(1),
        ));
        assert forall|i: int| 0 <= i < worker_trace(WorkerPhase::Poll, events).len() implies
            !is_live_directive(worker_trace(WorkerPhase::Poll, events)[i]) by {
            if i > 0 {
                assert(worker_trace(WorkerPhase::Poll, events)[i] == worker_trace(
                    WorkerPhase::Poll,
                    events.skip(1),
                )[i - 1]);
            }
        }
    }
}

} // verus!
