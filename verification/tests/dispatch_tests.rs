use surreal_commands::dispatch::{
    assemble_exec_line, interpret_exec, plan_dispatch, DispatchPlan, ExecOutcome,
};
use surreal_commands::record::{parse_action, ActionKind, CommandRecord};

fn record(action: &str) -> CommandRecord {
    CommandRecord {
        table: b"fs_commands".to_vec(),
        key: b"k1".to_vec(),
        action: action.as_bytes().to_vec(),
        cmd: Vec::new(),
        args: Vec::new(),
        uuid: Vec::new(),
        cause: Vec::new(),
        uuid_a: Vec::new(),
        uuid_b: Vec::new(),
        file: Vec::new(),
        legs: Vec::new(),
        status: b"new".to_vec(),
    }
}

fn completed(stdout: &str, stderr: &str, success: bool) -> ExecOutcome {
    ExecOutcome::Completed {
        stdout: stdout.as_bytes().to_vec(),
        stderr: stderr.as_bytes().to_vec(),
        success,
    }
}

#[test]
fn action_parsing_is_case_insensitive() {
    assert_eq!(parse_action(b"api"), ActionKind::Api);
    assert_eq!(parse_action(b"API"), ActionKind::Api);
    assert_eq!(parse_action(b"Originate"), ActionKind::Originate);
    assert_eq!(parse_action(b"HANGUP"), ActionKind::Hangup);
    assert_eq!(parse_action(b"bridge"), ActionKind::Bridge);
    assert_eq!(parse_action(b"PlayBack"), ActionKind::Playback);
    assert_eq!(parse_action(b"reboot"), ActionKind::Unknown);
    assert_eq!(parse_action(b""), ActionKind::Unknown);
}

#[test]
fn api_with_empty_args_runs_cmd_alone() {
    let mut rec = record("api");
    rec.cmd = b"status".to_vec();
    match plan_dispatch(&rec) {
        DispatchPlan::Invoke { command, args } => {
            assert_eq!(command, b"status".to_vec());
            assert_eq!(args, Vec::<u8>::new());
            assert_eq!(assemble_exec_line(&command, &args), b"status".to_vec());
        }
        DispatchPlan::Reject { .. } => panic!("expected an invocation"),
    }
    let (ok, result) = interpret_exec(&completed("+OK", "", true));
    assert!(ok);
    assert_eq!(result, b"+OK".to_vec());
}

#[test]
fn api_missing_cmd_fails_locally() {
    let rec = record("api");
    match plan_dispatch(&rec) {
        DispatchPlan::Reject { result } => assert_eq!(result, b"missing cmd".to_vec()),
        DispatchPlan::Invoke { .. } => panic!("the executor must not be named"),
    }
}

#[test]
fn api_with_args_joins_them_on_the_line() {
    let mut rec = record("api");
    rec.cmd = b"sofia".to_vec();
    rec.args = b"status profile internal".to_vec();
    match plan_dispatch(&rec) {
        DispatchPlan::Invoke { command, args } => {
            assert_eq!(command, b"sofia".to_vec());
            assert_eq!(args, b"status profile internal".to_vec());
            assert_eq!(
                assemble_exec_line(&command, &args),
                b"sofia status profile internal".to_vec()
            );
        }
        DispatchPlan::Reject { .. } => panic!("expected an invocation"),
    }
}

#[test]
fn originate_requires_args() {
    let mut rec = record("originate");
    match plan_dispatch(&rec) {
        DispatchPlan::Reject { result } => assert_eq!(result, b"missing args".to_vec()),
        DispatchPlan::Invoke { .. } => panic!("the executor must not be named"),
    }
    rec.args = b"user/1000 &echo".to_vec();
    match plan_dispatch(&rec) {
        DispatchPlan::Invoke { command, args } => {
            assert_eq!(command, b"originate".to_vec());
            assert_eq!(args, b"user/1000 &echo".to_vec());
        }
        DispatchPlan::Reject { .. } => panic!("expected an invocation"),
    }
}

#[test]
fn hangup_without_cause_passes_uuid_alone() {
    let mut rec = record("hangup");
    rec.uuid = b"abc-1".to_vec();
    match plan_dispatch(&rec) {
        DispatchPlan::Invoke { command, args } => {
            assert_eq!(command, b"uuid_kill".to_vec());
            assert_eq!(args, b"abc-1".to_vec());
        }
        DispatchPlan::Reject { .. } => panic!("expected an invocation"),
    }
}

#[test]
fn hangup_with_cause_appends_it() {
    let mut rec = record("hangup");
    rec.uuid = b"abc-1".to_vec();
    rec.cause = b"NORMAL_CLEARING".to_vec();
    match plan_dispatch(&rec) {
        DispatchPlan::Invoke { command, args } => {
            assert_eq!(command, b"uuid_kill".to_vec());
            assert_eq!(args, b"abc-1 NORMAL_CLEARING".to_vec());
        }
        DispatchPlan::Reject { .. } => panic!("expected an invocation"),
    }
}

#[test]
fn hangup_requires_uuid() {
    let rec = record("hangup");
    match plan_dispatch(&rec) {
        DispatchPlan::Reject { result } => assert_eq!(result, b"missing uuid".to_vec()),
        DispatchPlan::Invoke { .. } => panic!("the executor must not be named"),
    }
}

#[test]
fn bridge_with_one_leg_missing_fails_locally() {
    let mut rec = record("bridge");
    rec.uuid_b = b"x".to_vec();
    match plan_dispatch(&rec) {
        DispatchPlan::Reject { result } => {
            assert_eq!(result, b"missing uuid_a/uuid_b".to_vec());
        }
        DispatchPlan::Invoke { .. } => panic!("the executor must not be named"),
    }
}

#[test]
fn bridge_joins_both_legs() {
    let mut rec = record("bridge");
    rec.uuid_a = b"a-1".to_vec();
    rec.uuid_b = b"b-2".to_vec();
    match plan_dispatch(&rec) {
        DispatchPlan::Invoke { command, args } => {
            assert_eq!(command, b"uuid_bridge".to_vec());
            assert_eq!(args, b"a-1 b-2".to_vec());
        }
        DispatchPlan::Reject { .. } => panic!("expected an invocation"),
    }
}

#[test]
fn playback_with_legs_appends_them() {
    let mut rec = record("playback");
    rec.uuid = b"u1".to_vec();
    rec.file = b"f.wav".to_vec();
    rec.legs = b"both".to_vec();
    match plan_dispatch(&rec) {
        DispatchPlan::Invoke { command, args } => {
            assert_eq!(command, b"uuid_broadcast".to_vec());
            assert_eq!(args, b"u1 f.wav both".to_vec());
        }
        DispatchPlan::Reject { .. } => panic!("expected an invocation"),
    }
}

#[test]
fn playback_without_legs_keeps_two_fields() {
    let mut rec = record("playback");
    rec.uuid = b"u1".to_vec();
    rec.file = b"f.wav".to_vec();
    match plan_dispatch(&rec) {
        DispatchPlan::Invoke { command, args } => {
            assert_eq!(command, b"uuid_broadcast".to_vec());
            assert_eq!(args, b"u1 f.wav".to_vec());
        }
        DispatchPlan::Reject { .. } => panic!("expected an invocation"),
    }
}

#[test]
fn playback_requires_uuid_and_file() {
    let mut rec = record("playback");
    rec.uuid = b"u1".to_vec();
    match plan_dispatch(&rec) {
        DispatchPlan::Reject { result } => assert_eq!(result, b"missing uuid/file".to_vec()),
        DispatchPlan::Invoke { .. } => panic!("the executor must not be named"),
    }
}

#[test]
fn unknown_action_is_rejected_with_its_lowercased_name() {
    let rec = record("ReBoot");
    match plan_dispatch(&rec) {
        DispatchPlan::Reject { result } => {
            assert_eq!(result, b"unknown action: reboot".to_vec());
        }
        DispatchPlan::Invoke { .. } => panic!("the executor must not be named"),
    }
}

#[test]
fn success_appends_trimmed_stderr_after_separator() {
    let (ok, result) = interpret_exec(&completed("  +OK done\n", " warning ", true));
    assert!(ok);
    assert_eq!(result, b"+OK done | warning".to_vec());
}

#[test]
fn success_with_empty_stdout_keeps_stderr_alone() {
    let (ok, result) = interpret_exec(&completed("  ", "note", true));
    assert!(ok);
    assert_eq!(result, b"note".to_vec());
}

#[test]
fn failure_prefers_stderr_then_stdout() {
    let (ok, result) = interpret_exec(&completed("out", "err", false));
    assert!(!ok);
    assert_eq!(result, b"err".to_vec());
    let (ok, result) = interpret_exec(&completed("out only\n", "", false));
    assert!(!ok);
    assert_eq!(result, b"out only".to_vec());
}

#[test]
fn failure_without_output_uses_the_fixed_message() {
    let (ok, result) = interpret_exec(&completed(" \n", "\t", false));
    assert!(!ok);
    assert_eq!(result, b"fs_cli failed (no output)".to_vec());
    let (ok, result) = interpret_exec(&ExecOutcome::SpawnFailed);
    assert!(!ok);
    assert_eq!(result, b"fs_cli failed (no output)".to_vec());
}
