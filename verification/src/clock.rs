//! The one clock reading the consumer needs: the acknowledgement's
//! `processed_at` timestamp. The reading comes from an outside crate
//! and nothing can be promised of it, so the statement builders take
//! the timestamp as an argument and this module only supplies it.

use vstd::prelude::*;

use crate::store::ack_statement_view;

verus! {

/// Relies on chrono::Utc::now and DateTime::timestamp: the current
/// time as whole seconds since the Unix epoch. A clock reading admits
/// no promise.
#[verifier::external_body]
pub fn now_unix_seconds() -> i64 {
    chrono::Utc::now().timestamp()
}

/// Builds the acknowledgement statement for `table:key`, stamped with
/// the clock's current reading: the result is the exact acknowledgement
/// statement for some timestamp.
pub fn ack_statement_now(table: &[u8], key: &[u8], ok: bool, result: &[u8]) -> (r: Vec<u8>)
    ensures
        exists|t: int| r@ == ack_statement_view(table@, key@, ok, t, result@),
{
    let now = now_unix_seconds();
    let out = crate::store::ack_statement(table, key, ok, now, result);
    proof {
        assert(out@ == ack_statement_view(table@, key@, ok, now as int, result@));
    }
    out
}

} // verus!
