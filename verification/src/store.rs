//! The record-store side of the consumer: a mathematical model of what
//! the claim and acknowledgement writes do to a stored record, and the
//! exact statements the consumer sends over the store's query
//! interface.
//!
//! Claiming is an unconditional, best-effort write: it does not test
//! the record's previous status, so two racing consumers can both
//! claim one record. Acknowledging is equally unconditional: it
//! overwrites the terminal fields whatever they held before.

use vstd::prelude::*;

use crate::json::{json_escaped, push_json_escaped};
use crate::num::{dec_digits, dec_int, i64_to_dec, u64_to_dec};
use crate::record::Status;
use crate::text::{ascii_bytes, flattened, lit_bytes};

verus! {

/// The consumer-written fields of one stored record, as the consumer
/// models them. Timestamps are the store's clock readings in seconds.
pub struct StoredFields {
    pub status: Status,
    pub claimed_at: Option<int>,
    pub processed_at: Option<int>,
    pub result: Seq<u8>,
}

/// A record is finalized once a terminal status has been written.
pub open spec fn finalized(s: StoredFields) -> bool {
    s.status == Status::Done || s.status == Status::Failed
}

/// What the claim write leaves behind: status `Processing` and a fresh
/// claim timestamp, whatever the record held before. No previous
/// status is tested; the write is advisory, not a gate.
pub open spec fn apply_claim(s: StoredFields, now: int) -> StoredFields {
    StoredFields { status: Status::Processing, claimed_at: Some(now), ..s }
}

/// What the acknowledgement write leaves behind: the terminal status
/// chosen by `ok`, the processing timestamp, and the one-line form of
/// the result text — again whatever the record held before.
pub open spec fn apply_ack(s: StoredFields, ok: bool, now: int, result: Seq<u8>) -> StoredFields {
    StoredFields {
        status: if ok {
            Status::Done
        } else {
            Status::Failed
        },
        processed_at: Some(now),
        result: flattened(result),
        ..s
    }
}

/// Acknowledging is idempotent in the overwriting sense: acknowledging
/// a record that was already finalized — by this consumer or another —
/// succeeds and leaves exactly the state the second write dictates, as
/// if the first had never happened.
pub proof fn lemma_ack_overwrites(
    s: StoredFields,
    ok1: bool,
    t1: int,
    r1: Seq<u8>,
    ok2: bool,
    t2: int,
    r2: Seq<u8>,
)
    ensures
        finalized(apply_ack(s, ok1, t1, r1)),
        apply_ack(apply_ack(s, ok1, t1, r1), ok2, t2, r2) == apply_ack(s, ok2, t2, r2),
{
}

/// A claim after finalization still moves the record back to
/// `Processing`: the store enforces no monotonicity, which is why a
/// record with status `new` is eligible regardless of history.
pub proof fn lemma_claim_unconditional(s: StoredFields, now: int)
    ensures
        apply_claim(s, now).status == Status::Processing,
        apply_claim(s, now).claimed_at == Some(now),
        apply_claim(s, now).processed_at == s.processed_at,
        apply_claim(s, now).result == s.result,
{
}

/// The claim statement for one record: an unconditional update setting
/// status `processing` and the store-side claim time.
pub open spec fn claim_statement_view(table: Seq<u8>, key: Seq<u8>) -> Seq<u8> {
    ascii_bytes("UPDATE "@) + table + seq![58u8] + key + ascii_bytes(
        " SET status = 'processing', claimed_at = time::now()"@,
    )
}

/// Builds the claim statement for `table:key`.
pub fn claim_statement(table: &[u8], key: &[u8]) -> (r: Vec<u8>)
    ensures
        r@ == claim_statement_view(table@, key@),
{
    proof {
        reveal_strlit("UPDATE ");
        reveal_strlit(" SET status = 'processing', claimed_at = time::now()");
    }
    let mut out = lit_bytes("UPDATE ");
    out.extend_from_slice(table);
    out.push(58);
    out.extend_from_slice(key);
    let tail = lit_bytes(" SET status = 'processing', claimed_at = time::now()");
    out.extend_from_slice(tail.as_slice());
    proof {
        assert(out@ =~= claim_statement_view(table@, key@));
    }
    out
}

/// The status word the acknowledgement writes: `done` on success,
/// `failed` otherwise.
pub open spec fn ack_status_word(ok: bool) -> Seq<u8> {
    if ok {
        ascii_bytes("done"@)
    } else {
        ascii_bytes("failed"@)
    }
}

/// The acknowledgement statement: an unconditional merge writing the
/// terminal status, the processing time in seconds, and the result
/// text flattened to one line and escaped for the JSON literal.
pub open spec fn ack_statement_view(
    table: Seq<u8>,
    key: Seq<u8>,
    ok: bool,
    now: int,
    result: Seq<u8>,
) -> Seq<u8> {
    ascii_bytes("UPDATE "@) + table + seq![58u8] + key + ascii_bytes(" MERGE {\"status\":\""@)
        + ack_status_word(ok) + ascii_bytes("\",\"processed_at\":"@) + dec_int(now) + ascii_bytes(
        ",\"result\":\""@,
    ) + json_escaped(flattened(result)) + ascii_bytes("\"}"@)
}

/// Builds the acknowledgement statement for `table:key` at time `now`.
pub fn ack_statement(table: &[u8], key: &[u8], ok: bool, now: i64, result: &[u8]) -> (r: Vec<u8>)
    ensures
        r@ == ack_statement_view(table@, key@, ok, now as int, result@),
{
    proof {
        reveal_strlit("UPDATE ");
        reveal_strlit(" MERGE {\"status\":\"");
        reveal_strlit("done");
        reveal_strlit("failed");
        reveal_strlit("\",\"processed_at\":");
        reveal_strlit(",\"result\":\"");
        reveal_strlit("\"}");
    }
    let mut out = lit_bytes("UPDATE ");
    out.extend_from_slice(table);
    out.push(58);
    out.extend_from_slice(key);
    let merge_head = lit_bytes(" MERGE {\"status\":\"");
    out.extend_from_slice(merge_head.as_slice());
    let word = if ok {
        lit_bytes("done")
    } else {
        lit_bytes("failed")
    };
    out.extend_from_slice(word.as_slice());
    let processed_key = lit_bytes("\",\"processed_at\":");
    out.extend_from_slice(processed_key.as_slice());
    let stamp = i64_to_dec(now);
    out.extend_from_slice(stamp.as_slice());
    let result_key = lit_bytes(",\"result\":\"");
    out.extend_from_slice(result_key.as_slice());
    let flat = crate::text::flatten_newlines(result);
    push_json_escaped(&mut out, flat.as_slice());
    let tail = lit_bytes("\"}");
    out.extend_from_slice(tail.as_slice());
    proof {
        assert(out@ =~= ack_statement_view(table@, key@, ok, now as int, result@));
    }
    out
}

/// The poll query: eligible rows only, capped at 50 per tick, with the
/// identifier projected to its string form.
pub open spec fn poll_statement_view(table: Seq<u8>) -> Seq<u8> {
    ascii_bytes("SELECT *, type::string(id) AS id FROM "@) + table + ascii_bytes(
        " WHERE status = 'new' LIMIT 50"@,
    )
}

/// Builds the poll query for one tick against `table`.
pub fn poll_statement(table: &[u8]) -> (r: Vec<u8>)
    ensures
        r@ == poll_statement_view(table@),
{
    proof {
        reveal_strlit("SELECT *, type::string(id) AS id FROM ");
        reveal_strlit(" WHERE status = 'new' LIMIT 50");
    }
    let mut out = lit_bytes("SELECT *, type::string(id) AS id FROM ");
    out.extend_from_slice(table);
    let tail = lit_bytes(" WHERE status = 'new' LIMIT 50");
    out.extend_from_slice(tail.as_slice());
    proof {
        assert(out@ =~= poll_statement_view(table@));
    }
    out
}

/// The row cap a caller-supplied limit resolves to: a default of 100
/// when unspecified, and never more than 10000.
pub open spec fn effective_limit(limit: u32) -> u32 {
    if limit == 0 {
        100
    } else if limit > 10000 {
        10000
    } else {
        limit
    }
}

/// Resolves a caller-supplied row limit.
pub fn resolve_limit(limit: u32) -> (r: u32)
    ensures
        r == effective_limit(limit),
{
    if limit == 0 {
        100
    } else if limit > 10000 {
        10000
    } else {
        limit
    }
}

/// The bulk-read query: every row of `table`, up to `limit` rows, with
/// the identifier projected to its string form.
pub open spec fn select_statement_view(table: Seq<u8>, limit: u32) -> Seq<u8> {
    ascii_bytes("SELECT *, type::string(id) AS id FROM "@) + table + ascii_bytes(" LIMIT "@)
        + dec_digits(limit as nat)
}

/// Builds the bulk-read query for `table` with a resolved `limit`.
pub fn select_statement(table: &[u8], limit: u32) -> (r: Vec<u8>)
    ensures
        r@ == select_statement_view(table@, limit),
{
    proof {
        reveal_strlit("SELECT *, type::string(id) AS id FROM ");
        reveal_strlit(" LIMIT ");
    }
    let mut out = lit_bytes("SELECT *, type::string(id) AS id FROM ");
    out.extend_from_slice(table);
    let mid = lit_bytes(" LIMIT ");
    out.extend_from_slice(mid.as_slice());
    let digits = u64_to_dec(limit as u64);
    out.extend_from_slice(digits.as_slice());
    proof {
        assert(out@ =~= select_statement_view(table@, limit));
    }
    out
}

/// The single-row read: the one record of `table` with the given bare
/// key, if any.
pub open spec fn get_statement_view(table: Seq<u8>, key: Seq<u8>) -> Seq<u8> {
    ascii_bytes("SELECT *, type::string(id) AS id FROM "@) + table + ascii_bytes(" WHERE id = "@)
        + table + seq![58u8] + key + ascii_bytes(" LIMIT 1"@)
}

/// Builds the single-row read for `table:key`.
pub fn get_statement(table: &[u8], key: &[u8]) -> (r: Vec<u8>)
    ensures
        r@ == get_statement_view(table@, key@),
{
    proof {
        reveal_strlit("SELECT *, type::string(id) AS id FROM ");
        reveal_strlit(" WHERE id = ");
        reveal_strlit(" LIMIT 1");
    }
    let mut out = lit_bytes("SELECT *, type::string(id) AS id FROM ");
    out.extend_from_slice(table);
    let mid = lit_bytes(" WHERE id = ");
    out.extend_from_slice(mid.as_slice());
    out.extend_from_slice(table);
    out.push(58);
    out.extend_from_slice(key);
    let tail = lit_bytes(" LIMIT 1");
    out.extend_from_slice(tail.as_slice());
    proof {
        assert(out@ =~= get_statement_view(table@, key@));
    }
    out
}

/// The producer-side insert: a new record of `table` holding the given
/// document. The document must already be serialized JSON; the builder
/// passes it through unchanged.
pub open spec fn publish_statement_view(table: Seq<u8>, document: Seq<u8>) -> Seq<u8> {
    ascii_bytes("CREATE "@) + table + ascii_bytes(" CONTENT "@) + document
}

/// Builds the insert statement for a serialized document.
pub fn publish_statement(table: &[u8], document: &[u8]) -> (r: Vec<u8>)
    ensures
        r@ == publish_statement_view(table@, document@),
{
    proof {
        reveal_strlit("CREATE ");
        reveal_strlit(" CONTENT ");
    }
    let mut out = lit_bytes("CREATE ");
    out.extend_from_slice(table);
    let mid = lit_bytes(" CONTENT ");
    out.extend_from_slice(mid.as_slice());
    out.extend_from_slice(document);
    proof {
        assert(out@ =~= publish_statement_view(table@, document@));
    }
    out
}

/// The caller-driven merge: an unconditional merge of a serialized
/// JSON patch into `table:key`.
pub open spec fn update_statement_view(table: Seq<u8>, key: Seq<u8>, patch: Seq<u8>) -> Seq<u8> {
    ascii_bytes("UPDATE "@) + table + seq![58u8] + key + ascii_bytes(" MERGE "@) + patch
}

/// Builds the merge statement for a serialized patch.
pub fn update_statement(table: &[u8], key: &[u8], patch: &[u8]) -> (r: Vec<u8>)
    ensures
        r@ == update_statement_view(table@, key@, patch@),
{
    proof {
        reveal_strlit("UPDATE ");
        reveal_strlit(" MERGE ");
    }
    let mut out = lit_bytes("UPDATE ");
    out.extend_from_slice(table);
    out.push(58);
    out.extend_from_slice(key);
    let mid = lit_bytes(" MERGE ");
    out.extend_from_slice(mid.as_slice());
    out.extend_from_slice(patch);
    proof {
        assert(out@ =~= update_statement_view(table@, key@, patch@));
    }
    out
}

} // verus!
