//! Sample synthesis: fixed-point sine, baseline and noise band.

use virtual_lidar::sample::{baseline_milli, sample_at, sample_from};
use virtual_lidar::trig::{sin_half_exec, sin_mdeg_exec};

#[test]
fn sine_exact_anchor_points() {
    assert_eq!(sin_half_exec(0), 0);
    assert_eq!(sin_half_exec(90000), 1000);
    assert_eq!(sin_half_exec(180000), 0);
    // Bhaskara's formula is exact at 30 degrees as well.
    assert_eq!(sin_half_exec(30000), 500);
}

#[test]
fn sine_symmetry_and_sign() {
    assert_eq!(sin_half_exec(30000), sin_half_exec(150000));
    assert_eq!(sin_half_exec(45000), sin_half_exec(135000));
    assert_eq!(sin_mdeg_exec(90000), 1000);
    assert_eq!(sin_mdeg_exec(-90000), -1000);
    assert_eq!(sin_mdeg_exec(270000), -1000);
    assert_eq!(sin_mdeg_exec(0), 0);
}

#[test]
fn baseline_exact_values() {
    // Both sines vanish at angle 0 and at angle 180.
    assert_eq!(baseline_milli(0), 1000000);
    assert_eq!(baseline_milli(180), 1000000);
    // At 90 degrees the inner sine is exactly 1, so the outer argument is
    // two radians: 908 milli-units under the fixed-point approximation.
    assert_eq!(baseline_milli(90), 1272400);
    // At 270 degrees the lobe points the other way.
    assert_eq!(baseline_milli(270), 727600);
}

#[test]
fn baseline_band_whole_revolution() {
    for angle in 0..360 {
        let b = baseline_milli(angle);
        assert!(b >= 700000, "angle {}: {}", angle, b);
        assert!(b <= 1300000, "angle {}: {}", angle, b);
    }
}

#[test]
fn sample_from_is_deterministic() {
    let s = sample_from(0, 0);
    assert_eq!(s.angle, 0);
    assert_eq!(s.quality, 15);
    assert_eq!(s.distance_milli, 1000000);
    assert_eq!(sample_from(0, -50000).distance_milli, 950000);
    assert_eq!(sample_from(0, 49999).distance_milli, 1049999);
    assert_eq!(sample_from(90, 100).distance_milli, 1272500);
}

#[test]
fn angle_zero_band_strict() {
    // Distance at angle 0 is 1000 units plus noise in [-50, 50): always
    // strictly inside [950, 1050).
    let mut seen = Vec::new();
    for _ in 0..200 {
        let s = sample_at(0);
        assert_eq!(s.angle, 0);
        assert_eq!(s.quality, 15);
        assert!(s.distance_milli >= 950000, "{}", s.distance_milli);
        assert!(s.distance_milli < 1050000, "{}", s.distance_milli);
        seen.push(s.distance_milli);
    }
    // The noise source really varies: 200 uniform draws over 100000
    // values collide on one single value with vanishing probability.
    seen.sort();
    seen.dedup();
    assert!(seen.len() >= 2, "noise source returned a constant");
}
