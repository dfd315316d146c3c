//! The per-record lifecycle: claim, dispatch, acknowledge.
//!
//! One record moves through four stages. The unverified shell performs
//! each requested side effect (the claim write, the executor run, the
//! acknowledgement write) and reports back; every decision in between
//! is taken here. A claim's outcome is deliberately ignored: claiming
//! is advisory, and dispatch proceeds whether or not the claim write
//! landed. Errors in any side effect touch only this record's outcome,
//! never the feed loop around it.

use vstd::prelude::*;

use crate::dispatch::{
    interpret_exec,
    outcome_ok,
    outcome_text,
    plan_of,
    DispatchPlan,
    ExecOutcome,
    OutcomeView,
    PlanView,
};
use crate::record::{CommandRecord, RecordView};
use crate::store::claim_statement_view;

verus! {

/// Where one record stands in its lifecycle.
pub enum RecordStage {
    Claiming { plan: DispatchPlan },
    Running,
    Acking { ok: bool, result: Vec<u8> },
    Finished { ok: bool, result: Vec<u8> },
}

/// The mathematical shadow of a [`RecordStage`].
pub enum StageView {
    Claiming { plan: PlanView },
    Running,
    Acking { ok: bool, result: Seq<u8> },
    Finished { ok: bool, result: Seq<u8> },
}

impl View for RecordStage {
    type V = StageView;

    open spec fn view(&self) -> StageView {
        match self {
            RecordStage::Claiming { plan } => StageView::Claiming { plan: plan@ },
            RecordStage::Running => StageView::Running,
            RecordStage::Acking { ok, result } => StageView::Acking {
                ok: *ok,
                result: result@,
            },
            RecordStage::Finished { ok, result } => StageView::Finished {
                ok: *ok,
                result: result@,
            },
        }
    }
}

/// What the shell reports back: the claim write finished (either way),
/// the executor finished, or the acknowledgement write finished
/// (either way).
pub enum RecordEvent {
    ClaimFinished,
    ExecFinished { outcome: ExecOutcome },
    AckFinished,
}

/// The mathematical shadow of a [`RecordEvent`].
pub enum RecordEventView {
    ClaimFinished,
    ExecFinished { outcome: OutcomeView },
    AckFinished,
}

impl View for RecordEvent {
    type V = RecordEventView;

    open spec fn view(&self) -> RecordEventView {
        match self {
            RecordEvent::ClaimFinished => RecordEventView::ClaimFinished,
            RecordEvent::ExecFinished { outcome } => RecordEventView::ExecFinished {
                outcome: outcome@,
            },
            RecordEvent::AckFinished => RecordEventView::AckFinished,
        }
    }
}

/// What the shell is asked to do next for this record.
pub enum RecordDirective {
    DoClaim { statement: Vec<u8> },
    RunExecutor { command: Vec<u8>, args: Vec<u8> },
    DoAck { ok: bool, result: Vec<u8> },
    RecordDone { ok: bool, result: Vec<u8> },
}

/// The mathematical shadow of a [`RecordDirective`].
pub enum RecordDirectiveView {
    DoClaim { statement: Seq<u8> },
    RunExecutor { command: Seq<u8>, args: Seq<u8> },
    DoAck { ok: bool, result: Seq<u8> },
    RecordDone { ok: bool, result: Seq<u8> },
}

impl View for RecordDirective {
    type V = RecordDirectiveView;

    open spec fn view(&self) -> RecordDirectiveView {
        match self {
            RecordDirective::DoClaim { statement } => RecordDirectiveView::DoClaim {
                statement: statement@,
            },
            RecordDirective::RunExecutor { command, args } => RecordDirectiveView::RunExecutor {
                command: command@,
                args: args@,
            },
            RecordDirective::DoAck { ok, result } => RecordDirectiveView::DoAck {
                ok: *ok,
                result: result@,
            },
            RecordDirective::RecordDone { ok, result } => RecordDirectiveView::RecordDone {
                ok: *ok,
                result: result@,
            },
        }
    }
}

/// Which events a stage can absorb.
pub open spec fn stage_accepts(stage: StageView, event: RecordEventView) -> bool {
    match (stage, event) {
        (StageView::Claiming { .. }, RecordEventView::ClaimFinished) => true,
        (StageView::Running, RecordEventView::ExecFinished { .. }) => true,
        (StageView::Acking { .. }, RecordEventView::AckFinished) => true,
        _ => false,
    }
}

/// The transition function of the record lifecycle.
///
/// After the claim write — successful or not — a plan that names the
/// executor is run; a rejected plan short-circuits straight to a
/// failure acknowledgement, and the executor is never asked for.
pub open spec fn record_step(stage: StageView, event: RecordEventView) -> (StageView,
    RecordDirectiveView) {
    match (stage, event) {
        (StageView::Claiming { plan }, RecordEventView::ClaimFinished) => match plan {
            PlanView::Invoke { command, args } => (
                StageView::Running,
                RecordDirectiveView::RunExecutor { command, args },
            ),
            PlanView::Reject { result } => (
                StageView::Acking { ok: false, result },
                RecordDirectiveView::DoAck { ok: false, result },
            ),
        },
        (StageView::Running, RecordEventView::ExecFinished { outcome }) => (
            StageView::Acking { ok: outcome_ok(outcome), result: outcome_text(outcome) },
            RecordDirectiveView::DoAck { ok: outcome_ok(outcome), result: outcome_text(outcome) },
        ),
        (StageView::Acking { ok, result }, RecordEventView::AckFinished) => (
            StageView::Finished { ok, result },
            RecordDirectiveView::RecordDone { ok, result },
        ),
        _ => (stage, RecordDirectiveView::RecordDone { ok: false, result: Seq::empty() }),
    }
}

/// Starts the lifecycle of one record: fixes its dispatch plan and
/// asks the shell to issue the claim write.
pub fn start_record(rec: &CommandRecord) -> (r: (RecordStage, RecordDirective))
    ensures
        r.0@ == (StageView::Claiming { plan: plan_of(rec@) }),
        r.1@ == (RecordDirectiveView::DoClaim {
            statement: claim_statement_view(rec@.table, rec@.key),
        }),
{
    let plan = crate::dispatch::plan_dispatch(rec);
    let statement = crate::store::claim_statement(rec.table.as_slice(), rec.key.as_slice());
    (RecordStage::Claiming { plan }, RecordDirective::DoClaim { statement })
}

/// Advances one record's lifecycle by one reported event.
pub fn step_record(stage: RecordStage, event: RecordEvent) -> (r: (RecordStage, RecordDirective))
    requires
        stage_accepts(stage@, event@),
    ensures
        (r.0@, r.1@) == record_step(stage@, event@),
{
    match (stage, event) {
        (RecordStage::Claiming { plan }, RecordEvent::ClaimFinished) => match plan {
            DispatchPlan::Invoke { command, args } => (
                RecordStage::Running,
                RecordDirective::RunExecutor { command, args },
            ),
            DispatchPlan::Reject { result } => {
                let kept = result.clone();
                (
                    RecordStage::Acking { ok: false, result },
                    RecordDirective::DoAck { ok: false, result: kept },
                )
            },
        },
        (RecordStage::Running, RecordEvent::ExecFinished { outcome }) => {
            let (ok, text) = interpret_exec(&outcome);
            let kept = text.clone();
            (RecordStage::Acking { ok, result: text }, RecordDirective::DoAck { ok, result: kept })
        },
        (RecordStage::Acking { ok, result }, RecordEvent::AckFinished) => {
            let kept = result.clone();
            (
                RecordStage::Finished { ok, result },
                RecordDirective::RecordDone { ok, result: kept },
            )
        },
        _ => (
            RecordStage::Finished { ok: false, result: Vec::new() },
            RecordDirective::RecordDone { ok: false, result: Vec::new() },
        ),
    }
}

/// How far along a stage is. Every accepted step strictly increases
/// it, so no stage is ever revisited.
pub open spec fn stage_rank(stage: StageView) -> int {
    match stage {
        StageView::Claiming { .. } => 0,
        StageView::Running => 1,
        StageView::Acking { .. } => 2,
        StageView::Finished { .. } => 3,
    }
}

/// Stages only advance. Together with [`lemma_executor_needs_claiming`]
/// this bounds the executor to at most one run per record: only the
/// claiming stage can emit a run request, and the claiming stage is
/// left for good by its one accepted step.
pub proof fn lemma_stage_advances(stage: StageView, event: RecordEventView)
    requires
        stage_accepts(stage, event),
    ensures
        stage_rank(record_step(stage, event).0) > stage_rank(stage),
{
}

/// A run request arises only while claiming, only from a plan that
/// named the executor, and carries exactly that plan's command and
/// argument string.
pub proof fn lemma_executor_needs_claiming(stage: StageView, event: RecordEventView)
    requires
        record_step(stage, event).1 is RunExecutor,
    ensures
        stage matches StageView::Claiming { plan }
            && plan matches PlanView::Invoke { command, args }
            && record_step(stage, event).1 == (RecordDirectiveView::RunExecutor { command, args }),
{
}

/// A lifecycle that holds no invocable plan never asks for the
/// executor, and stays that way: rejected records are acknowledged as
/// failures without any execution.
pub open spec fn never_executes(stage: StageView) -> bool {
    !(stage matches StageView::Claiming { plan: PlanView::Invoke { .. } })
}

/// [`never_executes`] is preserved by every accepted step, and such a
/// step never emits a run request. Started on a record whose plan is a
/// rejection, the lifecycle therefore never reaches the executor.
pub proof fn lemma_never_executes_preserved(stage: StageView, event: RecordEventView)
    requires
        stage_accepts(stage, event),
        never_executes(stage),
    ensures
        never_executes(record_step(stage, event).0),
        !(record_step(stage, event).1 is RunExecutor),
{
}

/// A rejected record's one claiming step goes straight to a failure
/// acknowledgement carrying the rejection message.
pub proof fn lemma_rejected_record_acks_failure(r: RecordView, m: Seq<u8>)
    requires
        plan_of(r) == (PlanView::Reject { result: m }),
    ensures
        record_step(
            StageView::Claiming { plan: plan_of(r) },
            RecordEventView::ClaimFinished,
        ) == (
            (StageView::Acking { ok: false, result: m }),
            (RecordDirectiveView::DoAck { ok: false, result: m }),
        ),
        never_executes(StageView::Claiming { plan: plan_of(r) }),
{
}

} // verus!

verus! {

/// The directives a whole run of the lifecycle emits: one per event,
/// in order, each produced by [`record_step`] from the stage the
/// previous events left behind.
pub open spec fn run_trace(stage: StageView, events: Seq<RecordEventView>) -> Seq<
    RecordDirectiveView,
>
    decreases events.len(),
{
    if events.len() == 0 {
        Seq::empty()
    } else {
        seq![record_step(stage, events[0]).1] + run_trace(
            record_step(stage, events[0]).0,
            events.skip(1),
        )
    }
}

/// How many run requests a directive sequence holds.
pub open spec fn count_runs(ds: Seq<RecordDirectiveView>) -> int
    decreases ds.len(),
{
    if ds.len() == 0 {
        0
    } else {
        (if ds[0] is RunExecutor {
            1int
        } else {
            0int
        }) + count_runs(ds.skip(1))
    }
}

/// A record with an unrecognized action or a missing required field
/// is never executed: started on such a record, the lifecycle emits
/// no run request for any sequence of reported events, and its one
/// acknowledgement reports failure.
pub proof fn lemma_incomplete_record_never_executes(r: RecordView, events: Seq<RecordEventView>)
    requires
        !crate::dispatch::recognized(r) || !crate::dispatch::required_fields_present(r),
    ensures
        count_runs(run_trace(StageView::Claiming { plan: plan_of(r) }, events)) == 0,
{
    crate::dispatch::lemma_incomplete_record_rejects(r);
    lemma_executor_at_most_once(StageView::Claiming { plan: plan_of(r) }, events);
}

/// The executor is asked for at most once in any run of one record's
/// lifecycle, whatever events the shell reports and in whatever
/// order; a lifecycle that holds no invocable plan never asks at all.
pub proof fn lemma_executor_at_most_once(stage: StageView, events: Seq<RecordEventView>)
    ensures
        count_runs(run_trace(stage, events)) <= 1,
        never_executes(stage) ==> count_runs(run_trace(stage, events)) == 0,
    decreases events.len(),
{
    if events.len() > 0 {
        let (s2, d) = record_step(stage, events[0]);
        lemma_executor_at_most_once(s2, events.skip(1));
        assert(run_trace(stage, events).skip(1) =~= run_trace(s2, events.skip(1)));
        if d is RunExecutor {
            assert(s2 is Running);
        }
    }
}

} // verus!
