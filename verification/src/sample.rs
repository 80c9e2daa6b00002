//! Synthesis of single telemetry readings.
//!
//! A reading pairs an integer angle index with a synthetic distance in
//! milli-units and a fixed quality value. The distance is a smooth
//! periodic baseline — one broad lobe, `1000 + 300 * sin(2 * sin(angle))`
//! in whole units — plus uniform noise of up to 50 units either way,
//! clamped below at zero.

use crate::trig::{lemma_sin_full_turn, sin_mdeg_exec, sin_mdeg_milli};
use vstd::prelude::*;

verus! {

/// Fixed signal-quality value attached to every synthetic sample.
pub const QUALITY: u8 = 15;

/// Half-width of the uniform noise band, in milli-units (50 units).
pub const NOISE_BOUND_MILLI: i64 = 50000;

/// Milli-degrees per radian, truncated: 57295.78 per thousand.
pub const MDEG_PER_RAD_NUM: u64 = 5729578;

/// Scale divisor paired with `MDEG_PER_RAD_NUM`.
pub const MDEG_PER_RAD_DEN: u64 = 100000;

/// Clamp a value below at zero, as the distance synthesis does.
pub open spec fn clamp0(x: int) -> int {
    if x < 0 {
        0
    } else {
        x
    }
}

/// Milli-radians to milli-degrees, truncating toward zero.
pub open spec fn mrad_to_mdeg(mrad: int) -> int {
    if mrad >= 0 {
        mrad * 5729578 / 100000
    } else {
        -((-mrad) * 5729578 / 100000)
    }
}

/// The baseline distance at an integer angle index, in milli-units:
/// `1000 + 300 * sin(2 * sin(angle))` carried out in fixed point. The
/// inner sine takes the angle itself; its doubled value, read as
/// radians, feeds the outer sine.
pub open spec fn baseline_milli_spec(angle: int) -> int {
    let inner = sin_mdeg_milli(1000 * angle);
    let outer = sin_mdeg_milli(mrad_to_mdeg(2 * inner));
    1000000 + 300 * outer
}

/// One synthetic telemetry reading.
#[derive(Clone, Copy, PartialEq, Eq, Structural, Debug)]
pub struct TelemetrySample {
    /// Angle index in whole degrees, within [0, 360).
    pub angle: u32,
    /// Distance in milli-units, never negative.
    pub distance_milli: u64,
    /// Fixed signal-quality value.
    pub quality: u8,
}

impl TelemetrySample {
    /// A sample is well formed when its angle lies in the sensor's domain
    /// and it carries the fixed quality value.
    pub open spec fn wf(self) -> bool {
        self.angle < 360 && self.quality == QUALITY
    }
}

/// Relies on `rand::random_range` over an integer range: uniform draw from
/// the half-open range handed to it; it panics only on an empty range.
#[verifier::external_body]
fn random_in(lo: i64, hi: i64) -> (r: i64)
    requires
        lo < hi,
    ensures
        lo <= r < hi,
{
    rand::random_range(lo..hi)
}

/// The baseline distance at an angle index, in milli-units.
pub fn baseline_milli(angle: u32) -> (r: u64)
    requires
        angle < 360,
    ensures
        r as int == baseline_milli_spec(angle as int),
        700000 <= r <= 1300000,
{
    let inner: i64 = sin_mdeg_exec((angle as i64) * 1000);
    let t: i64 = 2 * inner;
    let mag: u64 = if t < 0 {
        (-t) as u64
    } else {
        t as u64
    };
    let mag_mdeg: u64 = mag * MDEG_PER_RAD_NUM / MDEG_PER_RAD_DEN;
    proof {
        vstd::arithmetic::div_mod::lemma_div_is_ordered(
            mag as int * 5729578,
            2000int * 5729578,
            100000int,
        );
        assert(mag as int * 5729578 <= 2000 * 5729578) by (nonlinear_arith)
            requires
                mag <= 2000,
        ;
    }
    let t_mdeg: i64 = if t < 0 {
        -(mag_mdeg as i64)
    } else {
        mag_mdeg as i64
    };
    let outer: i64 = sin_mdeg_exec(t_mdeg);
    let v: i64 = 1000000 + 300 * outer;
    v as u64
}

/// Law: the periodic baseline repeats after one full turn of the angle
/// domain; in particular index 0 and index 360 share the same baseline.
pub proof fn lemma_baseline_periodic(angle: int)
    ensures
        baseline_milli_spec(angle + 360) == baseline_milli_spec(angle),
{
    lemma_sin_full_turn(1000 * angle);
    assert(1000 * (angle + 360) == 1000 * angle + 360000);
}

/// Law: whatever noise the random source produced, the synthesized
/// distance is clamped below at zero and so is never negative.
pub proof fn lemma_distance_nonnegative(angle: int, noise: int)
    ensures
        clamp0(baseline_milli_spec(angle) + noise) >= 0,
{
}

/// A distance that is the clamped sum of the angle's baseline and some
/// noise value inside the uniform band.
pub open spec fn in_noise_band(dist: int, angle: int) -> bool {
    exists|n: int|
        -50000 <= n < 50000 && dist == #[trigger] clamp0(baseline_milli_spec(angle) + n)
}

/// Build the reading for an angle index from an already-drawn noise
/// value: the clamped sum of the baseline and the noise, with the fixed
/// quality attached.
pub fn sample_from(angle: u32, noise_milli: i64) -> (s: TelemetrySample)
    requires
        angle < 360,
        -50000 <= noise_milli <= 50000,
    ensures
        s.wf(),
        s.angle == angle,
        s.distance_milli as int == clamp0(baseline_milli_spec(angle as int) + noise_milli as int),
{
    let base = baseline_milli(angle);
    let v: i64 = base as i64 + noise_milli;
    let d: u64 = if v < 0 {
        0
    } else {
        v as u64
    };
    TelemetrySample { angle, distance_milli: d, quality: QUALITY }
}

/// Generate the reading for an angle index, drawing fresh uniform noise
/// from the random source.
pub fn sample_at(angle: u32) -> (s: TelemetrySample)
    requires
        angle < 360,
    ensures
        s.wf(),
        s.angle == angle,
        in_noise_band(s.distance_milli as int, angle as int),
{
    let noise = random_in(-NOISE_BOUND_MILLI, NOISE_BOUND_MILLI);
    let s = sample_from(angle, noise);
    proof {
        assert(-50000 <= (noise as int) && (noise as int) < 50000);
        assert(s.distance_milli as int == clamp0(baseline_milli_spec(angle as int) + noise as int));
    }
    s
}

/// Law: at angle index zero both sines vanish, the baseline is exactly
/// 1000 units, and a sample's distance stays strictly inside the noise
/// band from 950 to 1050 units.
pub proof fn lemma_angle_zero_band(noise: int)
    requires
        -50000 <= noise < 50000,
    ensures
        baseline_milli_spec(0) == 1000000,
        950000 <= clamp0(baseline_milli_spec(0) + noise) < 1050000,
{
    vstd::arithmetic::div_mod::lemma_small_mod(0nat, 360000nat);
    vstd::arithmetic::div_mod::lemma_div_of0(40500000000);
    vstd::arithmetic::div_mod::lemma_div_of0(100000);
    assert(sin_mdeg_milli(0) == 0);
    assert(mrad_to_mdeg(0) == 0);
}

} // verus!
