//! The command-record data model: the closed set of actions, the record
//! status values, and the change-event filter both feed modes apply.
//!
//! A record's optional payload fields travel as byte strings; an empty
//! field stands for an absent one, which the consumer treats alike.

use vstd::prelude::*;

use crate::text::{ascii_bytes, eq_ignore_ascii_case, lower_bytes};

verus! {

/// The closed set of actions a record can carry. Anything outside the
/// five known ones is `Unknown` and fails locally at dispatch.
#[derive(Clone, Copy, PartialEq, Eq, Structural, Debug)]
pub enum ActionKind {
    Api,
    Originate,
    Hangup,
    Bridge,
    Playback,
    Unknown,
}

/// Terminal and transient states of a stored record.
#[derive(Clone, Copy, PartialEq, Eq, Structural, Debug)]
pub enum Status {
    New,
    Processing,
    Done,
    Failed,
}

/// The kind of a change event arriving on a push feed.
#[derive(Clone, Copy, PartialEq, Eq, Structural, Debug)]
pub enum ChangeKind {
    Create,
    Update,
    Delete,
}

/// A pending command record, as decoded from the record store.
///
/// `table` and `key` form the record's composite identifier. The
/// payload fields are all optional strings; an absent field arrives
/// here as an empty byte string.
pub struct CommandRecord {
    pub table: Vec<u8>,
    pub key: Vec<u8>,
    pub action: Vec<u8>,
    pub cmd: Vec<u8>,
    pub args: Vec<u8>,
    pub uuid: Vec<u8>,
    pub cause: Vec<u8>,
    pub uuid_a: Vec<u8>,
    pub uuid_b: Vec<u8>,
    pub file: Vec<u8>,
    pub legs: Vec<u8>,
    pub status: Vec<u8>,
}

/// The mathematical shadow of a [`CommandRecord`].
pub struct RecordView {
    pub table: Seq<u8>,
    pub key: Seq<u8>,
    pub action: Seq<u8>,
    pub cmd: Seq<u8>,
    pub args: Seq<u8>,
    pub uuid: Seq<u8>,
    pub cause: Seq<u8>,
    pub uuid_a: Seq<u8>,
    pub uuid_b: Seq<u8>,
    pub file: Seq<u8>,
    pub legs: Seq<u8>,
    pub status: Seq<u8>,
}

impl View for CommandRecord {
    type V = RecordView;

    open spec fn view(&self) -> RecordView {
        RecordView {
            table: self.table@,
            key: self.key@,
            action: self.action@,
            cmd: self.cmd@,
            args: self.args@,
            uuid: self.uuid@,
            cause: self.cause@,
            uuid_a: self.uuid_a@,
            uuid_b: self.uuid_b@,
            file: self.file@,
            legs: self.legs@,
            status: self.status@,
        }
    }
}

/// Which action a record's `action` field names, case-insensitively.
pub open spec fn action_of(s: Seq<u8>) -> ActionKind {
    let l = lower_bytes(s);
    if l == ascii_bytes("api"@) {
        ActionKind::Api
    } else if l == ascii_bytes("originate"@) {
        ActionKind::Originate
    } else if l == ascii_bytes("hangup"@) {
        ActionKind::Hangup
    } else if l == ascii_bytes("bridge"@) {
        ActionKind::Bridge
    } else if l == ascii_bytes("playback"@) {
        ActionKind::Playback
    } else {
        ActionKind::Unknown
    }
}

/// A record is eligible for pickup exactly when its status reads `new`,
/// ignoring ASCII case.
pub open spec fn is_new_status(status: Seq<u8>) -> bool {
    lower_bytes(status) == ascii_bytes("new"@)
}

/// A push-feed event yields a record exactly when its change kind is a
/// create or an update and the record's status reads `new`. Deletions
/// and records in any other state are ignored.
pub open spec fn event_yields(kind: ChangeKind, status: Seq<u8>) -> bool {
    (kind == ChangeKind::Create || kind == ChangeKind::Update) && is_new_status(status)
}

/// Resolves a record's `action` field to its [`ActionKind`].
pub fn parse_action(s: &[u8]) -> (a: ActionKind)
    ensures
        a == action_of(s@),
{
    proof {
        reveal_strlit("api");
        reveal_strlit("originate");
        reveal_strlit("hangup");
        reveal_strlit("bridge");
        reveal_strlit("playback");
        assert(lower_bytes(ascii_bytes("api"@)) =~= ascii_bytes("api"@));
        assert(lower_bytes(ascii_bytes("originate"@)) =~= ascii_bytes("originate"@));
        assert(lower_bytes(ascii_bytes("hangup"@)) =~= ascii_bytes("hangup"@));
        assert(lower_bytes(ascii_bytes("bridge"@)) =~= ascii_bytes("bridge"@));
        assert(lower_bytes(ascii_bytes("playback"@)) =~= ascii_bytes("playback"@));
    }
    let api = crate::text::lit_bytes("api");
    if eq_ignore_ascii_case(s, api.as_slice()) {
        return ActionKind::Api;
    }
    let originate = crate::text::lit_bytes("originate");
    if eq_ignore_ascii_case(s, originate.as_slice()) {
        return ActionKind::Originate;
    }
    let hangup = crate::text::lit_bytes("hangup");
    if eq_ignore_ascii_case(s, hangup.as_slice()) {
        return ActionKind::Hangup;
    }
    let bridge = crate::text::lit_bytes("bridge");
    if eq_ignore_ascii_case(s, bridge.as_slice()) {
        return ActionKind::Bridge;
    }
    let playback = crate::text::lit_bytes("playback");
    if eq_ignore_ascii_case(s, playback.as_slice()) {
        return ActionKind::Playback;
    }
    ActionKind::Unknown
}

/// Runtime test for [`is_new_status`].
pub fn status_is_new(status: &[u8]) -> (r: bool)
    ensures
        r == is_new_status(status@),
{
    proof {
        reveal_strlit("new");
        assert(lower_bytes(ascii_bytes("new"@)) =~= ascii_bytes("new"@));
    }
    let new_lit = crate::text::lit_bytes("new");
    eq_ignore_ascii_case(status, new_lit.as_slice())
}

/// Runtime test for [`event_yields`].
pub fn event_is_eligible(kind: ChangeKind, status: &[u8]) -> (r: bool)
    ensures
        r == event_yields(kind, status@),
{
    (kind == ChangeKind::Create || kind == ChangeKind::Update) && status_is_new(status)
}

} // verus!
