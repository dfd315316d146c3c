//! Decimal rendering of the integers that appear inside record-store
//! statements: row limits and the acknowledgement timestamp.

use vstd::prelude::*;

verus! {

/// The decimal digits of `n`, most significant first, no sign and no
/// leading zeros (`0` itself is the single digit `0`).
pub open spec fn dec_digits(n: nat) -> Seq<u8>
    decreases n,
{
    if n < 10 {
        seq![(48 + n) as u8]
    } else {
        dec_digits(n / 10) + seq![(48 + (n % 10)) as u8]
    }
}

/// The decimal form of a possibly negative integer: a leading `-` for
/// negatives, then the digits.
pub open spec fn dec_int(n: int) -> Seq<u8> {
    if n < 0 {
        seq![45u8] + dec_digits((-n) as nat)
    } else {
        dec_digits(n as nat)
    }
}

/// Renders `n` in decimal.
pub fn u64_to_dec(n: u64) -> (r: Vec<u8>)
    ensures
        r@ == dec_digits(n as nat),
{
    let mut rev: Vec<u8> = Vec::new();
    let mut m: u64 = n;
    loop
        invariant_except_break
            dec_digits(n as nat) == if rev@.len() == 0 {
                dec_digits(m as nat)
            } else {
                dec_digits(m as nat) + rev@.reverse()
            },
        ensures
            dec_digits(n as nat) == rev@.reverse(),
        decreases m,
    {
        let d: u8 = (m % 10) as u8 + 48;
        let next = m / 10;
        proof {
            assert(rev@.push(d).reverse() =~= seq![d] + rev@.reverse());
        }
        rev.push(d);
        if next == 0 {
            proof {
                assert(dec_digits(m as nat) =~= seq![d]);
                if rev@.len() == 1 {
                    assert(dec_digits(n as nat) =~= rev@.reverse());
                } else {
                    assert(dec_digits(n as nat) =~= rev@.reverse());
                }
            }
            break;
        }
        proof {
            assert(dec_digits(m as nat) == dec_digits(next as nat) + seq![d]);
            assert(dec_digits(next as nat) + rev@.reverse() =~= dec_digits(n as nat));
        }
        m = next;
    }
    let mut out: Vec<u8> = Vec::new();
    let mut i: usize = rev.len();
    while i > 0
        invariant
            i <= rev@.len(),
            out@.len() == rev@.len() - i,
            forall|j: int| 0 <= j < out@.len() ==> out@[j] == rev@[rev@.len() - 1 - j],
        decreases i,
    {
        out.push(rev[i - 1]);
        i = i - 1;
    }
    proof {
        assert(out@ =~= rev@.reverse());
    }
    out
}

/// Renders `n` in decimal, with a leading minus sign when negative.
pub fn i64_to_dec(n: i64) -> (r: Vec<u8>)
    ensures
        r@ == dec_int(n as int),
{
    if n >= 0 {
        u64_to_dec(n as u64)
    } else {
        let mag: u64 = ((-(n + 1)) as u64) + 1;
        let mut out: Vec<u8> = Vec::new();
        out.push(45);
        let digits = u64_to_dec(mag);
        out.extend_from_slice(digits.as_slice());
        proof {
            assert(mag as nat == (-(n as int)) as nat);
            assert(out@ =~= dec_int(n as int));
        }
        out
    }
}

} // verus!
