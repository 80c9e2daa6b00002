//! ASCII decimal rendering of the integer and milli-unit values that the
//! telemetry lines and the CSV export carry.
//!
//! Everything is produced as plain byte vectors, matching what is written
//! to the device endpoint and to the export file.

use vstd::prelude::*;

verus! {

/// ASCII comma.
pub const COMMA: u8 = 44;

/// ASCII full stop.
pub const DOT: u8 = 46;

/// ASCII line feed, the record separator of the stream and of the CSV.
pub const NEWLINE: u8 = 10;

/// The ASCII digit for a value in [0, 9].
pub open spec fn digit_byte(d: int) -> u8 {
    (48 + d) as u8
}

/// The shortest ASCII decimal numeral of a nonnegative integer, most
/// significant digit first.
pub open spec fn dec_bytes(n: int) -> Seq<u8>
    recommends
        n >= 0,
    decreases n,
{
    if n < 10 {
        seq![digit_byte(n)]
    } else {
        dec_bytes(n / 10).push(digit_byte(n % 10))
    }
}

/// A milli-unit value rendered as a decimal fraction: the whole part,
/// a full stop, and exactly three fractional digits.
pub open spec fn milli_bytes(m: int) -> Seq<u8>
    recommends
        m >= 0,
{
    dec_bytes(m / 1000) + seq![DOT] + seq![
        digit_byte(m % 1000 / 100),
        digit_byte(m % 1000 / 10 % 10),
        digit_byte(m % 1000 % 10),
    ]
}

/// Every byte of a decimal numeral is an ASCII digit.
pub proof fn lemma_dec_bytes_digits(n: int)
    requires
        n >= 0,
    ensures
        forall|i: int|
            0 <= i < dec_bytes(n).len() ==> 48 <= #[trigger] dec_bytes(n)[i] <= 57,
    decreases n,
{
    if n < 10 {
        assert(dec_bytes(n)[0] == digit_byte(n));
    } else {
        lemma_dec_bytes_digits(n / 10);
        assert forall|i: int| 0 <= i < dec_bytes(n).len() implies 48 <= #[trigger] dec_bytes(n)[i]
            <= 57 by {
            if i < dec_bytes(n / 10).len() {
                assert(dec_bytes(n)[i] == dec_bytes(n / 10)[i]);
            } else {
                assert(dec_bytes(n)[i] == digit_byte(n % 10));
            }
        }
    }
}

/// Render a `u64` as its shortest ASCII decimal numeral.
pub fn u64_to_dec(n: u64) -> (r: Vec<u8>)
    ensures
        r@ == dec_bytes(n as int),
{
    let mut rev: Vec<u8> = Vec::new();
    let mut m: u64 = n;
    rev.push(48 + (m % 10) as u8);
    proof {
        if n < 10 {
            assert(dec_bytes(n as int) =~= rev@.reverse());
        } else {
            assert(dec_bytes(n as int) =~= dec_bytes(n as int / 10) + rev@.reverse());
        }
    }
    m = m / 10;
    while m > 0
        invariant
            m > 0 ==> dec_bytes(n as int) == dec_bytes(m as int) + rev@.reverse(),
            m == 0 ==> dec_bytes(n as int) == rev@.reverse(),
        decreases m,
    {
        let ghost prev = rev@;
        let ghost pm = m as int;
        rev.push(48 + (m % 10) as u8);
        m = m / 10;
        proof {
            assert(rev@.reverse() =~= seq![digit_byte(pm % 10)] + prev.reverse());
            if pm < 10 {
                assert(dec_bytes(pm) + prev.reverse() =~= rev@.reverse());
            } else {
                assert(dec_bytes(pm) + prev.reverse() =~= dec_bytes(pm / 10) + rev@.reverse());
            }
        }
    }
    let mut r: Vec<u8> = Vec::new();
    let mut i: usize = rev.len();
    while i > 0
        invariant
            i <= rev@.len(),
            r@ =~= rev@.reverse().subrange(0, rev@.len() - i),
        decreases i,
    {
        i = i - 1;
        let b = rev[i];
        r.push(b);
        proof {
            assert(r@ =~= rev@.reverse().subrange(0, rev@.len() - i));
        }
    }
    proof {
        assert(r@ =~= rev@.reverse());
    }
    r
}

/// Render a milli-unit value as a decimal fraction with three fractional
/// digits.
pub fn milli_to_dec(m: u64) -> (r: Vec<u8>)
    ensures
        r@ == milli_bytes(m as int),
{
    let mut r = u64_to_dec(m / 1000);
    let f: u64 = m % 1000;
    r.push(DOT);
    r.push(48 + (f / 100) as u8);
    r.push(48 + ((f / 10) % 10) as u8);
    r.push(48 + (f % 10) as u8);
    proof {
        assert(r@ =~= milli_bytes(m as int));
    }
    r
}

/// Append the bytes of `src` to `dst`, in order.
pub fn append_bytes(dst: &mut Vec<u8>, src: &Vec<u8>)
    ensures
        final(dst)@ == old(dst)@ + src@,
{
    let mut i: usize = 0;
    while i < src.len()
        invariant
            i <= src@.len(),
            dst@ =~= old(dst)@ + src@.subrange(0, i as int),
        decreases src@.len() - i,
    {
        let b = src[i];
        dst.push(b);
        i = i + 1;
        proof {
            assert(dst@ =~= old(dst)@ + src@.subrange(0, i as int));
        }
    }
    proof {
        assert(dst@ =~= old(dst)@ + src@);
    }
}

} // verus!
