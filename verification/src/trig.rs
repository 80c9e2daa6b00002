//! Fixed-point sine used by the telemetry baseline.
//!
//! Angles are carried in milli-degrees and sine values in milli-units
//! (a value of 1000 stands for 1.0). The first half-turn is approximated
//! by Bhaskara I's rational formula, which is exact at 0, 90 and 180
//! degrees and stays within a couple of milli-units everywhere else; the
//! rest of the circle follows by half-turn antisymmetry and periodic
//! reduction.

use vstd::prelude::*;

verus! {

/// Denominator constant of Bhaskara I's formula, scaled for
/// milli-degree arguments: 40500 * 1000 * 1000.
pub const BHASKARA_DEN: u64 = 40500000000;

/// Bhaskara I's sine approximation on the first half-turn.
///
/// For `x` in milli-degrees within [0, 180000], this is
/// `4 * x * (180000 - x) / (40500e6 - x * (180000 - x))`, scaled so the
/// result is in milli-units within [0, 1000].
pub open spec fn sin_half_milli(x: int) -> int {
    4000 * x * (180000 - x) / (40500000000 - x * (180000 - x))
}

/// Sine in milli-units of an angle in milli-degrees, defined on the whole
/// integer line by reduction modulo a full turn and antisymmetry across
/// the half turn.
pub open spec fn sin_mdeg_milli(x: int) -> int {
    let r = x % 360000;
    if r < 180000 {
        sin_half_milli(r)
    } else {
        -sin_half_milli(r - 180000)
    }
}

/// The lobe product `x * (180000 - x)` never exceeds the square of the
/// quarter turn, and is nonnegative on the half-turn domain.
proof fn lemma_lobe_bounds(x: int)
    requires
        0 <= x <= 180000,
    ensures
        0 <= x * (180000 - x) <= 8100000000,
{
    assert(0 <= x * (180000 - x) <= 8100000000) by (nonlinear_arith)
        requires
            0 <= x <= 180000,
    ;
}

/// On the first half-turn the approximation stays within [0, 1000].
pub proof fn lemma_sin_half_range(x: int)
    requires
        0 <= x <= 180000,
    ensures
        0 <= sin_half_milli(x) <= 1000,
{
    let s = x * (180000 - x);
    lemma_lobe_bounds(x);
    let num = 4000 * s;
    let den = 40500000000 - s;
    vstd::arithmetic::div_mod::lemma_div_pos_is_pos(num, den);
    vstd::arithmetic::div_mod::lemma_div_is_ordered(num, 1000 * den, den);
    vstd::arithmetic::div_mod::lemma_div_by_multiple(1000, den);
    assert(4000 * x * (180000 - x) == num) by (nonlinear_arith)
        requires
            num == 4000 * s,
            s == x * (180000 - x),
    ;
}

/// The approximation is symmetric about the quarter turn: an angle and its
/// half-turn complement share the same lobe product, hence the same sine.
pub proof fn lemma_sin_half_symmetric(x: int)
    requires
        0 <= x <= 180000,
    ensures
        sin_half_milli(x) == sin_half_milli(180000 - x),
{
    assert(x * (180000 - x) == (180000 - x) * (180000 - (180000 - x))) by (nonlinear_arith);
    assert(4000 * x * (180000 - x) == 4000 * ((180000 - x) * (180000 - (180000 - x))))
        by (nonlinear_arith);
    assert(4000 * (180000 - x) * (180000 - (180000 - x)) == 4000 * ((180000 - x) * (180000
        - (180000 - x)))) by (nonlinear_arith);
}

/// Law: the sine is periodic with period one full turn.
pub proof fn lemma_sin_full_turn(x: int)
    ensures
        sin_mdeg_milli(x + 360000) == sin_mdeg_milli(x),
{
    vstd::arithmetic::div_mod::lemma_mod_add_multiples_vanish(x, 360000);
    assert((x + 360000) % 360000 == x % 360000);
}

/// Executable Bhaskara sine on the first half-turn.
pub fn sin_half_exec(x: u64) -> (r: u64)
    requires
        x <= 180000,
    ensures
        r as int == sin_half_milli(x as int),
        r <= 1000,
{
    proof {
        lemma_lobe_bounds(x as int);
        lemma_sin_half_range(x as int);
    }
    let s: u64 = x * (180000 - x);
    let num: u64 = 4000 * s;
    let den: u64 = BHASKARA_DEN - s;
    let r: u64 = num / den;
    proof {
        assert(num as int == 4000 * (x as int) * (180000 - x as int)) by (nonlinear_arith)
            requires
                s as int == (x as int) * (180000 - x as int),
                num as int == 4000 * (s as int),
        ;
    }
    r
}

/// Executable sine of an angle in milli-degrees, in milli-units.
///
/// Negative angles up to half a turn back and angles short of a full turn
/// forward are handled directly; this covers every argument the sampling
/// pipeline produces.
pub fn sin_mdeg_exec(x: i64) -> (r: i64)
    requires
        -180000 <= x < 360000,
    ensures
        r as int == sin_mdeg_milli(x as int),
        -1000 <= r <= 1000,
{
    if x < 0 {
        let m = sin_half_exec((-x) as u64);
        proof {
            vstd::arithmetic::div_mod::lemma_mod_add_multiples_vanish(x as int, 360000);
            vstd::arithmetic::div_mod::lemma_small_mod((x + 360000) as nat, 360000nat);
            assert(x as int % 360000 == x as int + 360000);
            lemma_sin_half_symmetric((-x) as int);
            assert(180000 - (-x as int) == x as int + 360000 - 180000);
        }
        -(m as i64)
    } else if x < 180000 {
        proof {
            vstd::arithmetic::div_mod::lemma_small_mod(x as nat, 360000nat);
        }
        let m = sin_half_exec(x as u64);
        m as i64
    } else {
        proof {
            vstd::arithmetic::div_mod::lemma_small_mod(x as nat, 360000nat);
        }
        let m = sin_half_exec((x - 180000) as u64);
        -(m as i64)
    }
}

} // verus!
