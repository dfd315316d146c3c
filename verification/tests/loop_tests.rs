use surreal_commands::pipeline::{
    start_record, step_record, RecordDirective, RecordEvent, RecordStage,
};
use surreal_commands::record::{ChangeKind, CommandRecord};
use surreal_commands::registry::{
    SubscriptionRegistry, CODE_ALREADY_ACTIVE, CODE_NOT_FOUND, CODE_OK,
};
use surreal_commands::topic::{topic_step, TopicDirective, TopicEvent, TopicPhase};
use surreal_commands::worker::{plan_tick, worker_step, WorkerDirective, WorkerEvent, WorkerPhase};

fn api_record(cmd: &str) -> CommandRecord {
    CommandRecord {
        table: b"fs_commands".to_vec(),
        key: b"k1".to_vec(),
        action: b"api".to_vec(),
        cmd: cmd.as_bytes().to_vec(),
        args: Vec::new(),
        uuid: Vec::new(),
        cause: Vec::new(),
        uuid_a: Vec::new(),
        uuid_b: Vec::new(),
        file: Vec::new(),
        legs: Vec::new(),
        status: b"new".to_vec(),
    }
}

#[test]
fn startup_retries_until_connected() {
    let (phase, directive) = worker_step(WorkerPhase::Connecting, &WorkerEvent::ConnectFailed);
    assert_eq!(phase, WorkerPhase::Connecting);
    assert_eq!(directive, WorkerDirective::RetryConnect);
    let (phase, directive) = worker_step(WorkerPhase::Connecting, &WorkerEvent::Connected);
    assert_eq!(phase, WorkerPhase::Live);
    assert_eq!(directive, WorkerDirective::StartLive);
}

#[test]
fn live_start_failure_falls_back_to_poll() {
    let (phase, directive) = worker_step(WorkerPhase::Live, &WorkerEvent::LiveStartFailed);
    assert_eq!(phase, WorkerPhase::Poll);
    assert_eq!(directive, WorkerDirective::PollNow);
}

#[test]
fn live_end_falls_back_to_poll_for_good() {
    let (phase, directive) = worker_step(WorkerPhase::Live, &WorkerEvent::LiveEnded);
    assert_eq!(phase, WorkerPhase::Poll);
    assert_eq!(directive, WorkerDirective::PollNow);
    let (phase, directive) = worker_step(phase, &WorkerEvent::PollSucceeded);
    assert_eq!(phase, WorkerPhase::Poll);
    assert_eq!(directive, WorkerDirective::HandleBatchThenPoll);
    let (phase, directive) = worker_step(phase, &WorkerEvent::PollFailed);
    assert_eq!(phase, WorkerPhase::Poll);
    assert_eq!(directive, WorkerDirective::PollAfterSleep);
}

#[test]
fn poll_error_does_not_stop_the_ticks() {
    let (phase, directive) = worker_step(WorkerPhase::Poll, &WorkerEvent::PollFailed);
    assert_eq!(phase, WorkerPhase::Poll);
    assert_eq!(directive, WorkerDirective::PollAfterSleep);
    let (phase, directive) = worker_step(phase, &WorkerEvent::PollSucceeded);
    assert_eq!(phase, WorkerPhase::Poll);
    assert_eq!(directive, WorkerDirective::HandleBatchThenPoll);
}

#[test]
fn live_items_are_filtered_by_kind_and_status() {
    let eligible = WorkerEvent::LiveItem { kind: ChangeKind::Create, status: b"new".to_vec() };
    let (phase, directive) = worker_step(WorkerPhase::Live, &eligible);
    assert_eq!(phase, WorkerPhase::Live);
    assert_eq!(directive, WorkerDirective::HandleThenAwaitLive);

    let update = WorkerEvent::LiveItem { kind: ChangeKind::Update, status: b"NEW".to_vec() };
    assert_eq!(
        worker_step(WorkerPhase::Live, &update).1,
        WorkerDirective::HandleThenAwaitLive
    );

    let deletion = WorkerEvent::LiveItem { kind: ChangeKind::Delete, status: b"new".to_vec() };
    assert_eq!(worker_step(WorkerPhase::Live, &deletion).1, WorkerDirective::AwaitLive);

    let stale = WorkerEvent::LiveItem { kind: ChangeKind::Create, status: b"done".to_vec() };
    assert_eq!(worker_step(WorkerPhase::Live, &stale).1, WorkerDirective::AwaitLive);

    let absent = WorkerEvent::LiveItem { kind: ChangeKind::Create, status: Vec::new() };
    assert_eq!(worker_step(WorkerPhase::Live, &absent).1, WorkerDirective::AwaitLive);
}

#[test]
fn malformed_event_is_skipped_and_the_next_one_processed() {
    let (phase, directive) = worker_step(WorkerPhase::Live, &WorkerEvent::LiveItemError);
    assert_eq!(phase, WorkerPhase::Live);
    assert_eq!(directive, WorkerDirective::AwaitLive);
    let good = WorkerEvent::LiveItem { kind: ChangeKind::Create, status: b"new".to_vec() };
    assert_eq!(worker_step(phase, &good).1, WorkerDirective::HandleThenAwaitLive);
}

#[test]
fn empty_poll_batch_plans_no_work() {
    let items = plan_tick(&Vec::new());
    assert!(items.is_empty());
}

#[test]
fn a_batch_plans_one_claim_per_row() {
    let rows = vec![api_record("status"), api_record("version")];
    let items = plan_tick(&rows);
    assert_eq!(items.len(), 2);
    for (stage, directive) in items {
        assert!(matches!(stage, RecordStage::Claiming { .. }));
        match directive {
            RecordDirective::DoClaim { statement } => {
                assert_eq!(
                    statement,
                    b"UPDATE fs_commands:k1 SET status = 'processing', claimed_at = time::now()"
                        .to_vec()
                );
            }
            _ => panic!("the first directive must be the claim"),
        }
    }
}

#[test]
fn one_record_runs_claim_dispatch_ack_in_order() {
    let rec = api_record("status");
    let (stage, directive) = start_record(&rec);
    assert!(matches!(directive, RecordDirective::DoClaim { .. }));

    let (stage, directive) = step_record(stage, RecordEvent::ClaimFinished);
    match &directive {
        RecordDirective::RunExecutor { command, args } => {
            assert_eq!(command, &b"status".to_vec());
            assert_eq!(args, &Vec::<u8>::new());
        }
        _ => panic!("a complete record must reach the executor"),
    }

    let outcome = surreal_commands::dispatch::ExecOutcome::Completed {
        stdout: b"+OK".to_vec(),
        stderr: Vec::new(),
        success: true,
    };
    let (stage, directive) = step_record(stage, RecordEvent::ExecFinished { outcome });
    match &directive {
        RecordDirective::DoAck { ok, result } => {
            assert!(*ok);
            assert_eq!(result, &b"+OK".to_vec());
        }
        _ => panic!("the executor's outcome must be acknowledged"),
    }

    let (_stage, directive) = step_record(stage, RecordEvent::AckFinished);
    match directive {
        RecordDirective::RecordDone { ok, result } => {
            assert!(ok);
            assert_eq!(result, b"+OK".to_vec());
        }
        _ => panic!("the lifecycle must finish"),
    }
}

#[test]
fn a_rejected_record_never_reaches_the_executor() {
    let mut rec = api_record("");
    rec.cmd = Vec::new();
    let (stage, _directive) = start_record(&rec);
    let (_stage, directive) = step_record(stage, RecordEvent::ClaimFinished);
    match directive {
        RecordDirective::DoAck { ok, result } => {
            assert!(!ok);
            assert_eq!(result, b"missing cmd".to_vec());
        }
        _ => panic!("a rejected record goes straight to the failure acknowledgement"),
    }
}

#[test]
fn topic_loop_reconnects_with_backoff() {
    let (phase, directive) =
        topic_step(TopicPhase::Disconnected, false, &TopicEvent::ConnectFailed);
    assert_eq!(phase, TopicPhase::Disconnected);
    assert_eq!(directive, TopicDirective::Reconnect { backoff_ms: 1000 });

    let (phase, directive) =
        topic_step(TopicPhase::Disconnected, false, &TopicEvent::ConnectSucceeded);
    assert_eq!(phase, TopicPhase::Connected);
    assert_eq!(directive, TopicDirective::OpenStream);

    let (phase, directive) = topic_step(phase, false, &TopicEvent::StreamStarted);
    assert_eq!(phase, TopicPhase::Streaming);
    assert_eq!(directive, TopicDirective::AwaitItem);

    let (phase, directive) = topic_step(phase, false, &TopicEvent::StreamEnded);
    assert_eq!(phase, TopicPhase::Disconnected);
    assert_eq!(directive, TopicDirective::Reconnect { backoff_ms: 500 });
}

#[test]
fn topic_loop_notifies_only_after_a_successful_claim() {
    let item = TopicEvent::Item { kind: ChangeKind::Update, status: b"new".to_vec() };
    let (phase, directive) = topic_step(TopicPhase::Streaming, false, &item);
    assert_eq!(phase, TopicPhase::Streaming);
    assert_eq!(directive, TopicDirective::ClaimRecord);

    let (_, directive) = topic_step(TopicPhase::Streaming, false, &TopicEvent::ClaimSucceeded);
    assert_eq!(directive, TopicDirective::NotifyThenAwait);

    let (_, directive) = topic_step(TopicPhase::Streaming, false, &TopicEvent::ClaimFailed);
    assert_eq!(directive, TopicDirective::AwaitItem);
}

#[test]
fn topic_loop_honors_the_stop_flag() {
    let item = TopicEvent::Item { kind: ChangeKind::Create, status: b"new".to_vec() };
    let (phase, directive) = topic_step(TopicPhase::Streaming, true, &item);
    assert_eq!(phase, TopicPhase::Stopped);
    assert_eq!(directive, TopicDirective::Exit);
    let (phase, directive) = topic_step(TopicPhase::Stopped, false, &TopicEvent::ConnectFailed);
    assert_eq!(phase, TopicPhase::Stopped);
    assert_eq!(directive, TopicDirective::Exit);
}

#[test]
fn registry_keeps_one_subscription_per_topic() {
    let mut registry = SubscriptionRegistry::new();
    assert_eq!(registry.subscribe(b"fs_commands".to_vec(), 7), CODE_OK);
    assert_eq!(registry.subscribe(b"fs_commands".to_vec(), 8), CODE_ALREADY_ACTIVE);
    assert_eq!(registry.subscribe(b"other".to_vec(), 9), CODE_OK);
    assert_eq!(registry.active_count(), 2);

    let (code, task) = registry.unsubscribe(b"fs_commands");
    assert_eq!(code, CODE_OK);
    assert_eq!(task, Some(7));
    assert_eq!(registry.active_count(), 1);

    let (code, task) = registry.unsubscribe(b"fs_commands");
    assert_eq!(code, CODE_NOT_FOUND);
    assert_eq!(task, None);

    assert_eq!(registry.subscribe(b"fs_commands".to_vec(), 10), CODE_OK);
    assert_eq!(registry.active_count(), 2);
}
