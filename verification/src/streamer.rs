//! The telemetry stream: one comma-separated ASCII line per sample,
//! emitted revolution after revolution in strictly increasing angle
//! order.
//!
//! The surrounding process owns the device endpoint, writes each line and
//! paces the cadence; everything it writes comes from here.

use crate::sample::{baseline_milli_spec, clamp0, sample_at, sample_from, TelemetrySample, QUALITY};
use crate::textfmt::{
    append_bytes, dec_bytes, milli_bytes, milli_to_dec, u64_to_dec, COMMA, NEWLINE,
};
use vstd::prelude::*;

verus! {

/// The bytes of one streamed line: `angle,distance,quality` and a
/// newline, with the distance in decimal milli-unit fixed point.
pub open spec fn sample_line_bytes(angle: int, dist_milli: int, quality: int) -> Seq<u8> {
    dec_bytes(angle) + seq![COMMA] + milli_bytes(dist_milli) + seq![COMMA] + dec_bytes(quality)
        + seq![NEWLINE]
}

/// A byte sequence that is the line of the given angle for some noise
/// value inside the uniform band.
pub open spec fn is_revolution_line(bytes: Seq<u8>, angle: int) -> bool {
    exists|n: int|
        -50000 <= n < 50000 && bytes == sample_line_bytes(
            angle,
            #[trigger] clamp0(baseline_milli_spec(angle) + n),
            QUALITY as int,
        )
}

/// Render one sample as its streamed line.
pub fn sample_line(s: &TelemetrySample) -> (r: Vec<u8>)
    ensures
        r@ == sample_line_bytes(s.angle as int, s.distance_milli as int, s.quality as int),
{
    let mut r = u64_to_dec(s.angle as u64);
    r.push(COMMA);
    let d = milli_to_dec(s.distance_milli);
    append_bytes(&mut r, &d);
    r.push(COMMA);
    let q = u64_to_dec(s.quality as u64);
    append_bytes(&mut r, &q);
    r.push(NEWLINE);
    proof {
        assert(r@ =~= sample_line_bytes(
            s.angle as int,
            s.distance_milli as int,
            s.quality as int,
        ));
    }
    r
}

/// The streamer's only state: the angle index the next emitted line will
/// carry. It advances by one per line and wraps to zero after 359, so a
/// revolution is exactly 360 lines.
pub struct TelemetryStreamer {
    /// Angle index of the next line, within [0, 360).
    pub next_angle: u32,
}

impl TelemetryStreamer {
    /// The next angle stays inside the revolution.
    pub open spec fn wf(self) -> bool {
        self.next_angle < 360
    }

    /// A streamer starts a revolution at angle zero.
    pub fn new() -> (s: Self)
        ensures
            s.wf(),
            s.next_angle == 0,
    {
        TelemetryStreamer { next_angle: 0 }
    }

    /// Produce the line for the current angle with freshly drawn noise
    /// and advance to the next angle, wrapping after the last index of
    /// the revolution.
    pub fn next_line(&mut self) -> (line: Vec<u8>)
        requires
            old(self).wf(),
        ensures
            final(self).wf(),
            final(self).next_angle as int == (old(self).next_angle + 1) % 360,
            is_revolution_line(line@, old(self).next_angle as int),
    {
        let s = sample_at(self.next_angle);
        let line = sample_line(&s);
        proof {
            let n0 = choose|n: int|
                -50000 <= n < 50000 && s.distance_milli as int == #[trigger] clamp0(
                    baseline_milli_spec(self.next_angle as int) + n,
                );
            assert(line@ == sample_line_bytes(
                self.next_angle as int,
                clamp0(baseline_milli_spec(self.next_angle as int) + n0),
                QUALITY as int,
            ));
        }
        self.next_angle = if self.next_angle == 359 {
            0
        } else {
            self.next_angle + 1
        };
        line
    }
}

/// The angle carried by the k-th line of a stream that starts at angle
/// zero, following the streamer's advance rule line after line.
pub open spec fn angle_of_kth_line(k: nat) -> int
    decreases k,
{
    if k == 0 {
        0
    } else {
        (angle_of_kth_line((k - 1) as nat) + 1) % 360
    }
}

/// Law: the stream's angles cycle: the k-th emitted line carries angle
/// `k % 360`, so every revolution is exactly 360 lines with angles 0
/// through 359 in strictly increasing order, and the angle returns to
/// zero precisely at each revolution boundary.
pub proof fn lemma_stream_angles_cycle(k: nat)
    ensures
        angle_of_kth_line(k) == k % 360,
    decreases k,
{
    if k > 0 {
        lemma_stream_angles_cycle((k - 1) as nat);
        vstd::arithmetic::div_mod::lemma_small_mod(1nat, 360nat);
        vstd::arithmetic::div_mod::lemma_add_mod_noop(k - 1, 1, 360);
    }
}

/// One full revolution of lines from noise values drawn beforehand:
/// line `i` carries angle `i`, so the 360 lines stand in strictly
/// increasing angle order.
pub fn revolution_lines_from(noises: &Vec<i64>) -> (lines: Vec<Vec<u8>>)
    requires
        noises@.len() == 360,
        forall|i: int| 0 <= i < 360 ==> -50000 <= #[trigger] noises@[i] <= 50000,
    ensures
        lines@.len() == 360,
        forall|i: int|
            0 <= i < 360 ==> (#[trigger] lines@[i])@ == sample_line_bytes(
                i,
                clamp0(baseline_milli_spec(i) + noises@[i]),
                QUALITY as int,
            ),
{
    let mut lines: Vec<Vec<u8>> = Vec::new();
    let mut a: usize = 0;
    while a < 360
        invariant
            a <= 360,
            noises@.len() == 360,
            forall|i: int| 0 <= i < 360 ==> -50000 <= #[trigger] noises@[i] <= 50000,
            lines@.len() == a,
            forall|i: int|
                0 <= i < a ==> (#[trigger] lines@[i])@ == sample_line_bytes(
                    i,
                    clamp0(baseline_milli_spec(i) + noises@[i]),
                    QUALITY as int,
                ),
        decreases 360 - a,
    {
        let s = sample_from(a as u32, noises[a]);
        let line = sample_line(&s);
        lines.push(line);
        a = a + 1;
    }
    lines
}

/// One full revolution of lines with freshly drawn noise: 360 lines,
/// line `i` carrying angle `i`.
pub fn revolution_lines() -> (lines: Vec<Vec<u8>>)
    ensures
        lines@.len() == 360,
        forall|i: int| 0 <= i < 360 ==> is_revolution_line((#[trigger] lines@[i])@, i),
{
    let mut lines: Vec<Vec<u8>> = Vec::new();
    let mut a: usize = 0;
    while a < 360
        invariant
            a <= 360,
            lines@.len() == a,
            forall|i: int| 0 <= i < a ==> is_revolution_line((#[trigger] lines@[i])@, i),
        decreases 360 - a,
    {
        let s = sample_at(a as u32);
        let line = sample_line(&s);
        proof {
            let n0 = choose|n: int|
                -50000 <= n < 50000 && s.distance_milli as int == #[trigger] clamp0(
                    baseline_milli_spec(a as int) + n,
                );
            assert(line@ == sample_line_bytes(
                a as int,
                clamp0(baseline_milli_spec(a as int) + n0),
                QUALITY as int,
            ));
            assert(is_revolution_line(line@, a as int));
        }
        lines.push(line);
        a = a + 1;
    }
    lines
}

} // verus!
