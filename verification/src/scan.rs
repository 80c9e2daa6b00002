//! Single scan snapshots and their CSV export.
//!
//! A scan is one full revolution of samples in angle order; its export is
//! a header line `angle,distance` followed by one `angle,distance` row
//! per sample, each line ended by a newline byte.

use crate::sample::{in_noise_band, sample_at, TelemetrySample};
use crate::textfmt::{
    append_bytes, dec_bytes, lemma_dec_bytes_digits, milli_bytes, milli_to_dec, u64_to_dec, COMMA,
    DOT, NEWLINE,
};
use vstd::prelude::*;

verus! {

/// The bytes of the CSV header line, `angle,distance` and a newline.
pub open spec fn csv_header_bytes() -> Seq<u8> {
    seq![97u8, 110u8, 103u8, 108u8, 101u8, 44u8, 100u8, 105u8, 115u8, 116u8, 97u8, 110u8, 99u8,
        101u8, 10u8]
}

/// The bytes of one CSV data row: `angle,distance` and a newline, with
/// the distance in decimal milli-unit fixed point.
pub open spec fn csv_row_bytes(s: TelemetrySample) -> Seq<u8> {
    dec_bytes(s.angle as int) + seq![COMMA] + milli_bytes(s.distance_milli as int) + seq![NEWLINE]
}

/// The concatenated data rows of a sequence of samples, in order.
pub open spec fn csv_rows_bytes(samples: Seq<TelemetrySample>) -> Seq<u8>
    decreases samples.len(),
{
    if samples.len() == 0 {
        Seq::empty()
    } else {
        csv_rows_bytes(samples.drop_last()) + csv_row_bytes(samples.last())
    }
}

/// The whole CSV export: header first, then every data row.
pub open spec fn scan_csv_spec(samples: Seq<TelemetrySample>) -> Seq<u8> {
    csv_header_bytes() + csv_rows_bytes(samples)
}

/// One full revolution of samples, angle-ordered with no duplicates.
pub struct ScanRecord {
    /// The 360 samples; entry `i` carries angle `i`.
    pub samples: Vec<TelemetrySample>,
}

impl ScanRecord {
    /// A scan holds exactly one sample per whole-degree angle, in order.
    pub open spec fn wf(self) -> bool {
        &&& self.samples@.len() == 360
        &&& forall|i: int|
            0 <= i < 360 ==> (#[trigger] self.samples@[i]).wf() && self.samples@[i].angle == i
    }
}

/// Collect one synthetic scan: 360 samples with freshly drawn noise,
/// one per angle index in increasing order.
pub fn collect_dummy_scan() -> (r: ScanRecord)
    ensures
        r.wf(),
        forall|i: int|
            0 <= i < 360 ==> in_noise_band((#[trigger] r.samples@[i]).distance_milli as int, i),
{
    let mut samples: Vec<TelemetrySample> = Vec::new();
    let mut a: usize = 0;
    while a < 360
        invariant
            a <= 360,
            samples@.len() == a,
            forall|i: int|
                0 <= i < a ==> (#[trigger] samples@[i]).wf() && samples@[i].angle == i,
            forall|i: int|
                0 <= i < a ==> in_noise_band((#[trigger] samples@[i]).distance_milli as int, i),
        decreases 360 - a,
    {
        let s = sample_at(a as u32);
        samples.push(s);
        a = a + 1;
    }
    ScanRecord { samples }
}

/// Render one sample as its CSV data row.
pub fn csv_row(s: &TelemetrySample) -> (r: Vec<u8>)
    ensures
        r@ == csv_row_bytes(*s),
{
    let mut r = u64_to_dec(s.angle as u64);
    r.push(COMMA);
    let d = milli_to_dec(s.distance_milli);
    append_bytes(&mut r, &d);
    r.push(NEWLINE);
    proof {
        assert(r@ =~= csv_row_bytes(*s));
    }
    r
}

/// Render a scan as its full CSV export.
pub fn scan_csv_bytes(scan: &ScanRecord) -> (r: Vec<u8>)
    ensures
        r@ == scan_csv_spec(scan.samples@),
{
    let mut r: Vec<u8> = Vec::new();
    r.push(97);
    r.push(110);
    r.push(103);
    r.push(108);
    r.push(101);
    r.push(44);
    r.push(100);
    r.push(105);
    r.push(115);
    r.push(116);
    r.push(97);
    r.push(110);
    r.push(99);
    r.push(101);
    r.push(10);
    proof {
        assert(r@ =~= csv_header_bytes());
        assert(r@ =~= scan_csv_spec(scan.samples@.subrange(0, 0)));
    }
    let mut i: usize = 0;
    while i < scan.samples.len()
        invariant
            i <= scan.samples@.len(),
            r@ == scan_csv_spec(scan.samples@.subrange(0, i as int)),
        decreases scan.samples@.len() - i,
    {
        let row = csv_row(&scan.samples[i]);
        append_bytes(&mut r, &row);
        i = i + 1;
        proof {
            let pre = scan.samples@.subrange(0, i as int - 1);
            let cur = scan.samples@.subrange(0, i as int);
            assert(cur.drop_last() =~= pre);
            assert(cur.last() == scan.samples@[i as int - 1]);
            assert(r@ == scan_csv_spec(cur));
        }
    }
    proof {
        assert(scan.samples@.subrange(0, scan.samples@.len() as int) =~= scan.samples@);
    }
    r
}

/// How many times a byte occurs in a sequence.
pub open spec fn count_byte(s: Seq<u8>, b: u8) -> int
    decreases s.len(),
{
    if s.len() == 0 {
        0
    } else {
        count_byte(s.drop_last(), b) + if s.last() == b {
            1int
        } else {
            0int
        }
    }
}

/// Counting a byte distributes over concatenation.
pub proof fn lemma_count_byte_concat(x: Seq<u8>, y: Seq<u8>, b: u8)
    ensures
        count_byte(x + y, b) == count_byte(x, b) + count_byte(y, b),
    decreases y.len(),
{
    if y.len() == 0 {
        assert(x + y =~= x);
    } else {
        lemma_count_byte_concat(x, y.drop_last(), b);
        assert((x + y).drop_last() =~= x + y.drop_last());
        assert((x + y).last() == y.last());
    }
}

/// A byte that occurs nowhere in a sequence has count zero.
pub proof fn lemma_count_byte_absent(s: Seq<u8>, b: u8)
    requires
        forall|i: int| 0 <= i < s.len() ==> s[i] != b,
    ensures
        count_byte(s, b) == 0,
    decreases s.len(),
{
    if s.len() > 0 {
        lemma_count_byte_absent(s.drop_last(), b);
    }
}

/// A decimal numeral holds no newline byte.
pub proof fn lemma_dec_bytes_no_newline(n: int, b: u8)
    requires
        n >= 0,
        b < 48 || b > 57,
    ensures
        count_byte(dec_bytes(n), b) == 0,
    decreases n,
{
    lemma_dec_bytes_digits(n);
    assert(count_byte(Seq::<u8>::empty(), b) == 0);
    assert(48 <= dec_bytes(n)[dec_bytes(n).len() - 1] <= 57);
    if n < 10 {
        assert(dec_bytes(n).drop_last() =~= Seq::<u8>::empty());
    } else {
        lemma_dec_bytes_no_newline(n / 10, b);
        assert(dec_bytes(n).drop_last() =~= dec_bytes(n / 10));
        assert(dec_bytes(n).last() == dec_bytes(n)[dec_bytes(n).len() - 1]);
    }
}

/// A milli-unit numeral holds digits and one full stop, so no newline.
pub proof fn lemma_milli_bytes_no_newline(m: int)
    requires
        m >= 0,
    ensures
        count_byte(milli_bytes(m), NEWLINE) == 0,
{
    lemma_dec_bytes_no_newline(m / 1000, NEWLINE);
    vstd::arithmetic::div_mod::lemma_div_pos_is_pos(m, 1000);
    let f = m % 1000;
    let tail = seq![DOT] + seq![
        crate::textfmt::digit_byte(f / 100),
        crate::textfmt::digit_byte(f / 10 % 10),
        crate::textfmt::digit_byte(f % 10),
    ];
    lemma_count_byte_concat(dec_bytes(m / 1000), tail, NEWLINE);
    assert(count_byte(tail, NEWLINE) == 0) by {
        assert(0 <= f < 1000);
        assert(0 <= f / 100 <= 9);
        assert(0 <= f / 10 % 10 <= 9);
        assert(0 <= f % 10 <= 9);
        lemma_count_byte_absent(tail, NEWLINE);
    }
    assert(milli_bytes(m) =~= dec_bytes(m / 1000) + tail);
}

/// A data row ends in exactly one newline byte.
pub proof fn lemma_csv_row_one_newline(s: TelemetrySample)
    ensures
        count_byte(csv_row_bytes(s), NEWLINE) == 1,
{
    let head = dec_bytes(s.angle as int) + seq![COMMA] + milli_bytes(s.distance_milli as int);
    lemma_count_byte_concat(head, seq![NEWLINE], NEWLINE);
    lemma_count_byte_concat(dec_bytes(s.angle as int) + seq![COMMA], milli_bytes(
        s.distance_milli as int,
    ), NEWLINE);
    lemma_count_byte_concat(dec_bytes(s.angle as int), seq![COMMA], NEWLINE);
    lemma_dec_bytes_no_newline(s.angle as int, NEWLINE);
    lemma_milli_bytes_no_newline(s.distance_milli as int);
    assert(count_byte(seq![COMMA], NEWLINE) == 0) by {
        lemma_count_byte_absent(seq![COMMA], NEWLINE);
    }
    assert(count_byte(seq![NEWLINE], NEWLINE) == 1) by {
        assert(count_byte(Seq::<u8>::empty(), NEWLINE) == 0);
        assert(seq![NEWLINE].drop_last() =~= Seq::<u8>::empty());
        assert(seq![NEWLINE].last() == NEWLINE);
    }
    assert(csv_row_bytes(s) == head + seq![NEWLINE]);
}

/// The concatenated rows of a sample sequence hold one newline per row.
pub proof fn lemma_csv_rows_newlines(samples: Seq<TelemetrySample>)
    ensures
        count_byte(csv_rows_bytes(samples), NEWLINE) == samples.len(),
    decreases samples.len(),
{
    if samples.len() > 0 {
        lemma_csv_rows_newlines(samples.drop_last());
        lemma_count_byte_concat(
            csv_rows_bytes(samples.drop_last()),
            csv_row_bytes(samples.last()),
            NEWLINE,
        );
        lemma_csv_row_one_newline(samples.last());
    }
}

/// Law: the CSV export of a full 360-sample scan holds exactly 361
/// newline-ended lines: one header line and one per sample.
pub proof fn lemma_csv_line_count(samples: Seq<TelemetrySample>)
    requires
        samples.len() == 360,
    ensures
        count_byte(scan_csv_spec(samples), NEWLINE) == 361,
{
    lemma_count_byte_concat(csv_header_bytes(), csv_rows_bytes(samples), NEWLINE);
    lemma_csv_rows_newlines(samples);
    assert(count_byte(csv_header_bytes(), NEWLINE) == 1) by {
        let h = csv_header_bytes();
        lemma_count_byte_absent(h.drop_last(), NEWLINE);
        assert(h.last() == NEWLINE);
    }
}

} // verus!
