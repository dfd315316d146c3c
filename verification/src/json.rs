//! Minimal JSON text framing: string escaping and the notification
//! payload handed to a subscription sink.
//!
//! Only ASCII bytes are ever inserted or rewritten, so escaping any
//! UTF-8 text yields UTF-8 text again.

use vstd::prelude::*;

use crate::record::{CommandRecord, RecordView};
use crate::text::ascii_bytes;

verus! {

/// The hex digit (lower case) for a value below 16.
pub open spec fn hex_digit(d: u8) -> u8 {
    if d < 10 {
        (48 + d) as u8
    } else {
        (87 + d) as u8
    }
}

/// How one byte appears inside a JSON string literal: quote and
/// backslash are escaped, the named control characters get their short
/// escapes, any other control character becomes a `\u00XX` sequence,
/// and everything else stands for itself.
pub open spec fn json_escaped_byte(b: u8) -> Seq<u8> {
    if b == 34 {
        seq![92u8, 34u8]
    } else if b == 92 {
        seq![92u8, 92u8]
    } else if b == 8 {
        seq![92u8, 98u8]
    } else if b == 9 {
        seq![92u8, 116u8]
    } else if b == 10 {
        seq![92u8, 110u8]
    } else if b == 12 {
        seq![92u8, 102u8]
    } else if b == 13 {
        seq![92u8, 114u8]
    } else if b < 32 {
        seq![92u8, 117u8, 48u8, 48u8, hex_digit(b / 16), hex_digit(b % 16)]
    } else {
        seq![b]
    }
}

/// The escaped body of a JSON string literal holding `s`.
pub open spec fn json_escaped(s: Seq<u8>) -> Seq<u8>
    decreases s.len(),
{
    if s.len() == 0 {
        Seq::empty()
    } else {
        json_escaped(s.drop_last()) + json_escaped_byte(s.last())
    }
}

/// A complete JSON string literal holding `s`: quotes around the
/// escaped body.
pub open spec fn json_string(s: Seq<u8>) -> Seq<u8> {
    seq![34u8] + json_escaped(s) + seq![34u8]
}

/// Appends the escaped body of `s` to `out`.
pub(crate) fn push_json_escaped(out: &mut Vec<u8>, s: &[u8])
    ensures
        final(out)@ == old(out)@ + json_escaped(s@),
{
    let mut i: usize = 0;
    proof {
        assert(json_escaped(s@.take(0)) =~= Seq::<u8>::empty());
        assert(out@ =~= out@ + json_escaped(s@.take(0)));
    }
    while i < s.len()
        invariant
            i <= s@.len(),
            out@ == old(out)@ + json_escaped(s@.take(i as int)),
        decreases s@.len() - i,
    {
        let b = s[i];
        if b == 34 {
            out.push(92);
            out.push(34);
        } else if b == 92 {
            out.push(92);
            out.push(92);
        } else if b == 8 {
            out.push(92);
            out.push(98);
        } else if b == 9 {
            out.push(92);
            out.push(116);
        } else if b == 10 {
            out.push(92);
            out.push(110);
        } else if b == 12 {
            out.push(92);
            out.push(102);
        } else if b == 13 {
            out.push(92);
            out.push(114);
        } else if b < 32 {
            out.push(92);
            out.push(117);
            out.push(48);
            out.push(48);
            let hi = b / 16;
            let lo = b % 16;
            out.push(if hi < 10 {
                48 + hi
            } else {
                87 + hi
            });
            out.push(if lo < 10 {
                48 + lo
            } else {
                87 + lo
            });
        } else {
            out.push(b);
        }
        proof {
            assert(s@.take(i + 1 as int).drop_last() =~= s@.take(i as int));
            assert(s@.take(i + 1 as int).last() == s@[i as int]);
            assert(out@ =~= old(out)@ + json_escaped(s@.take(i + 1 as int)));
        }
        i = i + 1;
    }
    proof {
        assert(s@.take(s@.len() as int) =~= s@);
    }
}

/// Appends a complete JSON string literal holding `s` to `out`.
pub(crate) fn push_json_string(out: &mut Vec<u8>, s: &[u8])
    ensures
        final(out)@ == old(out)@ + json_string(s@),
{
    out.push(34);
    push_json_escaped(out, s);
    out.push(34);
    proof {
        assert(out@ =~= old(out)@ + json_string(s@));
    }
}

/// An optional object member: nothing when the value is absent
/// (empty), else a comma, the quoted key, a colon and the quoted
/// value.
pub open spec fn opt_member(key: Seq<char>, v: Seq<u8>) -> Seq<u8> {
    if v.len() == 0 {
        Seq::empty()
    } else {
        seq![44u8, 34u8] + ascii_bytes(key) + seq![34u8, 58u8] + json_string(v)
    }
}

/// Appends `opt_member(key, v)` to `out`.
pub(crate) fn push_opt_member(out: &mut Vec<u8>, key: &str, v: &[u8])
    requires
        key.is_ascii(),
    ensures
        final(out)@ == old(out)@ + opt_member(key@, v@),
{
    if v.len() == 0 {
        proof {
            assert(out@ =~= old(out)@ + opt_member(key@, v@));
        }
        return ;
    }
    out.push(44);
    out.push(34);
    let key_bytes = crate::text::lit_bytes(key);
    out.extend_from_slice(key_bytes.as_slice());
    out.push(34);
    out.push(58);
    push_json_string(out, v);
    proof {
        assert(out@ =~= old(out)@ + opt_member(key@, v@));
    }
}

/// The notification payload for one claimed record, as handed to a
/// subscription sink: the canonical `table:key` identifier, the
/// action and status, and each payload field that is present. The
/// member keys mirror the stored record's field names.
pub open spec fn record_payload(r: RecordView) -> Seq<u8> {
    ascii_bytes("{\"id\":"@) + json_string(r.table + seq![58u8] + r.key) + ascii_bytes(
        ",\"action\":"@,
    ) + json_string(r.action) + opt_member("cmd"@, r.cmd) + opt_member("args"@, r.args)
        + opt_member("uuid"@, r.uuid) + opt_member("cause"@, r.cause) + opt_member(
        "uuid_a"@,
        r.uuid_a,
    ) + opt_member("uuid_b"@, r.uuid_b) + opt_member("file"@, r.file) + opt_member(
        "legs"@,
        r.legs,
    ) + ascii_bytes(",\"status\":"@) + json_string(r.status) + seq![125u8]
}

/// Renders the sink payload for `rec`.
pub fn render_record_payload(rec: &CommandRecord) -> (r: Vec<u8>)
    ensures
        r@ == record_payload(rec@),
{
    proof {
        reveal_strlit("{\"id\":");
        reveal_strlit(",\"action\":");
        reveal_strlit(",\"status\":");
        reveal_strlit("cmd");
        reveal_strlit("args");
        reveal_strlit("uuid");
        reveal_strlit("cause");
        reveal_strlit("uuid_a");
        reveal_strlit("uuid_b");
        reveal_strlit("file");
        reveal_strlit("legs");
    }
    let mut out: Vec<u8> = crate::text::lit_bytes("{\"id\":");
    let mut id: Vec<u8> = Vec::new();
    id.extend_from_slice(rec.table.as_slice());
    id.push(58);
    id.extend_from_slice(rec.key.as_slice());
    proof {
        assert(id@ =~= rec.table@ + seq![58u8] + rec.key@);
    }
    push_json_string(&mut out, id.as_slice());
    let action_key = crate::text::lit_bytes(",\"action\":");
    out.extend_from_slice(action_key.as_slice());
    push_json_string(&mut out, rec.action.as_slice());
    push_opt_member(&mut out, "cmd", rec.cmd.as_slice());
    push_opt_member(&mut out, "args", rec.args.as_slice());
    push_opt_member(&mut out, "uuid", rec.uuid.as_slice());
    push_opt_member(&mut out, "cause", rec.cause.as_slice());
    push_opt_member(&mut out, "uuid_a", rec.uuid_a.as_slice());
    push_opt_member(&mut out, "uuid_b", rec.uuid_b.as_slice());
    push_opt_member(&mut out, "file", rec.file.as_slice());
    push_opt_member(&mut out, "legs", rec.legs.as_slice());
    let status_key = crate::text::lit_bytes(",\"status\":");
    out.extend_from_slice(status_key.as_slice());
    push_json_string(&mut out, rec.status.as_slice());
    out.push(125);
    proof {
        assert(out@ =~= record_payload(rec@));
    }
    out
}

} // verus!
