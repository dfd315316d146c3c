//! Action routing and executor-outcome interpretation.
//!
//! Dispatching a record happens in two verified halves. First,
//! [`plan_dispatch`] routes on the record's action and either rejects it
//! locally (a required field is missing, or the action is unknown) or
//! names the executor command and argument string to run. Second, once
//! the unverified shell has run the executor, [`interpret_exec`] turns
//! the raw outcome into the terminal `(ok, result)` pair. The executor
//! itself is an outside process; nothing here touches it.

use vstd::prelude::*;

use crate::record::{action_of, ActionKind, CommandRecord, RecordView};
use crate::text::{ascii_bytes, joined_space, lit_bytes, lower_bytes, to_ascii_lower, trimmed};

verus! {

/// What the dispatcher decided for one record: fail locally with a
/// result message, or invoke the executor with a command and an
/// argument string (possibly empty).
pub enum DispatchPlan {
    Reject { result: Vec<u8> },
    Invoke { command: Vec<u8>, args: Vec<u8> },
}

/// The mathematical shadow of a [`DispatchPlan`].
pub enum PlanView {
    Reject { result: Seq<u8> },
    Invoke { command: Seq<u8>, args: Seq<u8> },
}

impl View for DispatchPlan {
    type V = PlanView;

    open spec fn view(&self) -> PlanView {
        match self {
            DispatchPlan::Reject { result } => PlanView::Reject { result: result@ },
            DispatchPlan::Invoke { command, args } => PlanView::Invoke {
                command: command@,
                args: args@,
            },
        }
    }
}

/// The routing table: which plan a record's fields determine.
///
/// Per action, the required fields and the argument assembly are:
/// `api` needs `cmd` and passes `args` through; `originate` needs
/// `args`; `hangup` needs `uuid` and appends `cause` when present;
/// `bridge` needs both `uuid_a` and `uuid_b`; `playback` needs `uuid`
/// and `file` and appends `legs` when present. An unrecognized action
/// is rejected with its lower-cased name in the message.
pub open spec fn plan_of(r: RecordView) -> PlanView {
    match action_of(r.action) {
        ActionKind::Api => if r.cmd.len() == 0 {
            PlanView::Reject { result: ascii_bytes("missing cmd"@) }
        } else {
            PlanView::Invoke { command: r.cmd, args: r.args }
        },
        ActionKind::Originate => if r.args.len() == 0 {
            PlanView::Reject { result: ascii_bytes("missing args"@) }
        } else {
            PlanView::Invoke { command: ascii_bytes("originate"@), args: r.args }
        },
        ActionKind::Hangup => if r.uuid.len() == 0 {
            PlanView::Reject { result: ascii_bytes("missing uuid"@) }
        } else {
            PlanView::Invoke {
                command: ascii_bytes("uuid_kill"@),
                args: if r.cause.len() == 0 {
                    r.uuid
                } else {
                    joined_space(r.uuid, r.cause)
                },
            }
        },
        ActionKind::Bridge => if r.uuid_a.len() == 0 || r.uuid_b.len() == 0 {
            PlanView::Reject { result: ascii_bytes("missing uuid_a/uuid_b"@) }
        } else {
            PlanView::Invoke {
                command: ascii_bytes("uuid_bridge"@),
                args: joined_space(r.uuid_a, r.uuid_b),
            }
        },
        ActionKind::Playback => if r.uuid.len() == 0 || r.file.len() == 0 {
            PlanView::Reject { result: ascii_bytes("missing uuid/file"@) }
        } else {
            PlanView::Invoke {
                command: ascii_bytes("uuid_broadcast"@),
                args: if r.legs.len() == 0 {
                    joined_space(r.uuid, r.file)
                } else {
                    joined_space(joined_space(r.uuid, r.file), r.legs)
                },
            }
        },
        ActionKind::Unknown => PlanView::Reject {
            result: ascii_bytes("unknown action: "@) + lower_bytes(r.action),
        },
    }
}

/// An action the routing table knows.
pub open spec fn recognized(r: RecordView) -> bool {
    action_of(r.action) != ActionKind::Unknown
}

/// All fields the record's action requires are present (non-empty).
pub open spec fn required_fields_present(r: RecordView) -> bool {
    match action_of(r.action) {
        ActionKind::Api => r.cmd.len() > 0,
        ActionKind::Originate => r.args.len() > 0,
        ActionKind::Hangup => r.uuid.len() > 0,
        ActionKind::Bridge => r.uuid_a.len() > 0 && r.uuid_b.len() > 0,
        ActionKind::Playback => r.uuid.len() > 0 && r.file.len() > 0,
        ActionKind::Unknown => false,
    }
}

/// A record with a recognized action and every required field present
/// is always handed to the executor, never rejected locally.
pub proof fn lemma_complete_record_invokes(r: RecordView)
    requires
        recognized(r),
        required_fields_present(r),
    ensures
        plan_of(r) is Invoke,
{
}

/// A record whose required fields are incomplete — or whose action is
/// unrecognized — is rejected locally: the plan never names the
/// executor, so no execution can take place for it.
pub proof fn lemma_incomplete_record_rejects(r: RecordView)
    requires
        !recognized(r) || !required_fields_present(r),
    ensures
        plan_of(r) is Reject,
{
}

/// Routes one record. Returns exactly the plan the routing table fixes
/// for its fields.
pub fn plan_dispatch(rec: &CommandRecord) -> (p: DispatchPlan)
    ensures
        p@ == plan_of(rec@),
{
    match crate::record::parse_action(rec.action.as_slice()) {
        ActionKind::Api => {
            if rec.cmd.len() == 0 {
                proof {
                    reveal_strlit("missing cmd");
                }
                DispatchPlan::Reject { result: lit_bytes("missing cmd") }
            } else {
                DispatchPlan::Invoke { command: rec.cmd.clone(), args: rec.args.clone() }
            }
        },
        ActionKind::Originate => {
            if rec.args.len() == 0 {
                proof {
                    reveal_strlit("missing args");
                }
                DispatchPlan::Reject { result: lit_bytes("missing args") }
            } else {
                proof {
                    reveal_strlit("originate");
                }
                DispatchPlan::Invoke { command: lit_bytes("originate"), args: rec.args.clone() }
            }
        },
        ActionKind::Hangup => {
            if rec.uuid.len() == 0 {
                proof {
                    reveal_strlit("missing uuid");
                }
                DispatchPlan::Reject { result: lit_bytes("missing uuid") }
            } else {
                proof {
                    reveal_strlit("uuid_kill");
                }
                let args = if rec.cause.len() == 0 {
                    rec.uuid.clone()
                } else {
                    crate::text::join_space(rec.uuid.as_slice(), rec.cause.as_slice())
                };
                DispatchPlan::Invoke { command: lit_bytes("uuid_kill"), args }
            }
        },
        ActionKind::Bridge => {
            if rec.uuid_a.len() == 0 || rec.uuid_b.len() == 0 {
                proof {
                    reveal_strlit("missing uuid_a/uuid_b");
                }
                DispatchPlan::Reject { result: lit_bytes("missing uuid_a/uuid_b") }
            } else {
                proof {
                    reveal_strlit("uuid_bridge");
                }
                DispatchPlan::Invoke {
                    command: lit_bytes("uuid_bridge"),
                    args: crate::text::join_space(rec.uuid_a.as_slice(), rec.uuid_b.as_slice()),
                }
            }
        },
        ActionKind::Playback => {
            if rec.uuid.len() == 0 || rec.file.len() == 0 {
                proof {
                    reveal_strlit("missing uuid/file");
                }
                DispatchPlan::Reject { result: lit_bytes("missing uuid/file") }
            } else {
                proof {
                    reveal_strlit("uuid_broadcast");
                }
                let first = crate::text::join_space(rec.uuid.as_slice(), rec.file.as_slice());
                let args = if rec.legs.len() == 0 {
                    first
                } else {
                    crate::text::join_space(first.as_slice(), rec.legs.as_slice())
                };
                DispatchPlan::Invoke { command: lit_bytes("uuid_broadcast"), args }
            }
        },
        ActionKind::Unknown => {
            proof {
                reveal_strlit("unknown action: ");
            }
            let mut result = lit_bytes("unknown action: ");
            let lowered = to_ascii_lower(rec.action.as_slice());
            result.extend_from_slice(lowered.as_slice());
            proof {
                assert(result@ =~= ascii_bytes("unknown action: "@) + lower_bytes(rec.action@));
            }
            DispatchPlan::Reject { result }
        },
    }
}

/// The single string handed to the executor's line interface: the
/// command alone when the argument string is empty, else the command,
/// a space, and the arguments.
pub open spec fn exec_line_of(command: Seq<u8>, args: Seq<u8>) -> Seq<u8> {
    if args.len() == 0 {
        command
    } else {
        joined_space(command, args)
    }
}

/// Assembles the executor's command line from a plan's command and
/// argument string.
pub fn assemble_exec_line(command: &[u8], args: &[u8]) -> (r: Vec<u8>)
    ensures
        r@ == exec_line_of(command@, args@),
{
    if args.len() == 0 {
        vstd::slice::slice_to_vec(command)
    } else {
        crate::text::join_space(command, args)
    }
}

/// What came back from one executor run: the process completed with
/// captured output and an exit verdict, or it could not be spawned.
pub enum ExecOutcome {
    Completed { stdout: Vec<u8>, stderr: Vec<u8>, success: bool },
    SpawnFailed,
}

/// The mathematical shadow of an [`ExecOutcome`].
pub enum OutcomeView {
    Completed { stdout: Seq<u8>, stderr: Seq<u8>, success: bool },
    SpawnFailed,
}

impl View for ExecOutcome {
    type V = OutcomeView;

    open spec fn view(&self) -> OutcomeView {
        match self {
            ExecOutcome::Completed { stdout, stderr, success } => OutcomeView::Completed {
                stdout: stdout@,
                stderr: stderr@,
                success: *success,
            },
            ExecOutcome::SpawnFailed => OutcomeView::SpawnFailed,
        }
    }
}

/// The result text of a successful run: trimmed stdout, with trimmed
/// stderr appended after `" | "` when stderr is non-empty.
pub open spec fn success_text(stdout: Seq<u8>, stderr: Seq<u8>) -> Seq<u8> {
    let so = trimmed(stdout);
    let se = trimmed(stderr);
    if se.len() == 0 {
        so
    } else if so.len() == 0 {
        se
    } else {
        so + ascii_bytes(" | "@) + se
    }
}

/// The result text of a failed run: trimmed stderr when non-empty,
/// else trimmed stdout, else a fixed no-output message.
pub open spec fn failure_text(stdout: Seq<u8>, stderr: Seq<u8>) -> Seq<u8> {
    let so = trimmed(stdout);
    let se = trimmed(stderr);
    if se.len() > 0 {
        se
    } else if so.len() > 0 {
        so
    } else {
        ascii_bytes("fs_cli failed (no output)"@)
    }
}

/// Whether an outcome counts as success: the process completed with a
/// zero exit. A spawn failure never does.
pub open spec fn outcome_ok(o: OutcomeView) -> bool {
    o matches OutcomeView::Completed { success: true, .. }
}

/// The result text an outcome determines.
pub open spec fn outcome_text(o: OutcomeView) -> Seq<u8> {
    match o {
        OutcomeView::Completed { stdout, stderr, success } => if success {
            success_text(stdout, stderr)
        } else {
            failure_text(stdout, stderr)
        },
        OutcomeView::SpawnFailed => failure_text(Seq::empty(), Seq::empty()),
    }
}

/// Turns a raw executor outcome into the terminal `(ok, result)` pair.
pub fn interpret_exec(o: &ExecOutcome) -> (r: (bool, Vec<u8>))
    ensures
        r.0 == outcome_ok(o@),
        r.1@ == outcome_text(o@),
{
    match o {
        ExecOutcome::Completed { stdout, stderr, success } => {
            let so = crate::text::trim_ascii(stdout.as_slice());
            let se = crate::text::trim_ascii(stderr.as_slice());
            if *success {
                let text = if se.len() == 0 {
                    so
                } else if so.len() == 0 {
                    se
                } else {
                    proof {
                        reveal_strlit(" | ");
                    }
                    let mut out = so;
                    let sep = lit_bytes(" | ");
                    out.extend_from_slice(sep.as_slice());
                    out.extend_from_slice(se.as_slice());
                    out
                };
                (true, text)
            } else {
                let text = if se.len() > 0 {
                    se
                } else if so.len() > 0 {
                    so
                } else {
                    proof {
                        reveal_strlit("fs_cli failed (no output)");
                    }
                    lit_bytes("fs_cli failed (no output)")
                };
                (false, text)
            }
        },
        ExecOutcome::SpawnFailed => {
            proof {
                reveal_strlit("fs_cli failed (no output)");
                assert(trimmed(Seq::<u8>::empty()).len() == 0);
            }
            (false, lit_bytes("fs_cli failed (no output)"))
        },
    }
}

} // verus!
