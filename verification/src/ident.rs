//! Identifier hygiene for statements built from caller-supplied text:
//! which table and key names are accepted, and how a fully qualified
//! `table:key` identifier is reduced to its bare key.

use vstd::prelude::*;

verus! {

/// A byte allowed in a table name: ASCII alphanumeric or underscore.
pub open spec fn is_table_byte(b: u8) -> bool {
    (48 <= b <= 57) || (65 <= b <= 90) || (97 <= b <= 122) || b == 95
}

/// A byte allowed in a record key: a table byte or a hyphen.
pub open spec fn is_key_byte(b: u8) -> bool {
    is_table_byte(b) || b == 45
}

/// Every byte of `s` is acceptable in a table name.
pub open spec fn table_name_ok(s: Seq<u8>) -> bool {
    forall|i: int| 0 <= i < s.len() ==> is_table_byte(s[i])
}

/// Every byte of `s` is acceptable in a record key.
pub open spec fn key_ok(s: Seq<u8>) -> bool {
    forall|i: int| 0 <= i < s.len() ==> is_key_byte(s[i])
}

/// Runtime test for [`table_name_ok`].
pub fn check_table_name(s: &[u8]) -> (r: bool)
    ensures
        r == table_name_ok(s@),
{
    let mut i: usize = 0;
    while i < s.len()
        invariant
            i <= s@.len(),
            forall|j: int| 0 <= j < i ==> is_table_byte(s@[j]),
        decreases s@.len() - i,
    {
        let b = s[i];
        if !((48 <= b && b <= 57) || (65 <= b && b <= 90) || (97 <= b && b <= 122) || b == 95) {
            return false;
        }
        i = i + 1;
    }
    true
}

/// Runtime test for [`key_ok`].
pub fn check_key(s: &[u8]) -> (r: bool)
    ensures
        r == key_ok(s@),
{
    let mut i: usize = 0;
    while i < s.len()
        invariant
            i <= s@.len(),
            forall|j: int| 0 <= j < i ==> is_key_byte(s@[j]),
        decreases s@.len() - i,
    {
        let b = s[i];
        if !((48 <= b && b <= 57) || (65 <= b && b <= 90) || (97 <= b && b <= 122) || b == 95 || b
            == 45) {
            return false;
        }
        i = i + 1;
    }
    true
}

/// Whether `id` is fully qualified for `table`: it starts with the
/// table name followed by a colon.
pub open spec fn qualified_for(table: Seq<u8>, id: Seq<u8>) -> bool {
    id.len() > table.len() && id.take(table.len() as int) == table && id[table.len() as int] == 58
}

/// The bare key of `id`: the part after the `table:` prefix when the
/// identifier is qualified for `table`, else `id` unchanged.
pub open spec fn bare_key(table: Seq<u8>, id: Seq<u8>) -> Seq<u8> {
    if qualified_for(table, id) {
        id.skip(table.len() + 1 as int)
    } else {
        id
    }
}

/// Strips a leading `table:` qualifier from a record identifier, so
/// that callers may pass either a bare key or a qualified one.
pub fn normalize_key(table: &[u8], id: &[u8]) -> (r: Vec<u8>)
    ensures
        r@ == bare_key(table@, id@),
{
    if id.len() > table.len() {
        let mut i: usize = 0;
        let mut matches: bool = true;
        proof {
            assert(id@.take(0) =~= table@.take(0));
        }
        while i < table.len()
            invariant
                i <= table@.len(),
                table@.len() < id@.len(),
                matches == (id@.take(i as int) == table@.take(i as int)),
            decreases table@.len() - i,
        {
            if id[i] != table[i] {
                proof {
                    assert(id@.take(i + 1 as int)[i as int] != table@.take(i + 1 as int)[i as int]);
                }
                matches = false;
            } else {
                proof {
                    if matches {
                        assert(id@.take(i + 1 as int) =~= table@.take(i + 1 as int));
                    } else {
                        assert(id@.take(i as int) =~= id@.take(i + 1 as int).take(i as int));
                        assert(table@.take(i as int) =~= table@.take(i + 1 as int).take(
                            i as int,
                        ));
                    }
                }
            }
            i = i + 1;
        }
        proof {
            assert(table@.take(table@.len() as int) =~= table@);
        }
        if matches && id[table.len()] == 58 {
            let part = vstd::slice::slice_subrange(id, table.len() + 1, id.len());
            let out = vstd::slice::slice_to_vec(part);
            proof {
                assert(out@ =~= id@.skip(table@.len() + 1 as int));
            }
            return out;
        }
    }
    vstd::slice::slice_to_vec(id)
}

} // verus!
