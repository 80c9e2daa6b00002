//! The telemetry stream and the scan CSV export.

use virtual_lidar::sample::sample_from;
use virtual_lidar::scan::{collect_dummy_scan, scan_csv_bytes};
use virtual_lidar::streamer::{revolution_lines, revolution_lines_from, sample_line, TelemetryStreamer};
use virtual_lidar::textfmt::{milli_to_dec, u64_to_dec};

#[test]
fn decimal_rendering() {
    assert_eq!(u64_to_dec(0), b"0".to_vec());
    assert_eq!(u64_to_dec(7), b"7".to_vec());
    assert_eq!(u64_to_dec(1234567890), b"1234567890".to_vec());
    assert_eq!(milli_to_dec(0), b"0.000".to_vec());
    assert_eq!(milli_to_dec(50), b"0.050".to_vec());
    assert_eq!(milli_to_dec(1000000), b"1000.000".to_vec());
    assert_eq!(milli_to_dec(1272400), b"1272.400".to_vec());
}

#[test]
fn line_format_is_bit_exact() {
    let s = sample_from(0, 0);
    assert_eq!(sample_line(&s), b"0,1000.000,15\n".to_vec());
    let s = sample_from(90, 0);
    assert_eq!(sample_line(&s), b"90,1272.400,15\n".to_vec());
    let s = sample_from(359, -50000);
    let line = sample_line(&s);
    assert!(line.starts_with(b"359,"));
    assert!(line.ends_with(b",15\n"));
}

#[test]
fn revolution_has_360_increasing_angles() {
    let lines = revolution_lines();
    assert_eq!(lines.len(), 360);
    for (i, line) in lines.iter().enumerate() {
        let prefix = format!("{},", i);
        assert!(
            line.starts_with(prefix.as_bytes()),
            "line {} does not carry its angle",
            i
        );
        assert!(line.ends_with(b",15\n"));
        assert_eq!(line.iter().filter(|&&b| b == b',').count(), 2);
        assert_eq!(line.iter().filter(|&&b| b == b'\n').count(), 1);
    }
}

#[test]
fn revolution_from_fixed_noise_is_exact() {
    let noises = vec![0i64; 360];
    let lines = revolution_lines_from(&noises);
    assert_eq!(lines.len(), 360);
    assert_eq!(lines[0], b"0,1000.000,15\n".to_vec());
    assert_eq!(lines[90], b"90,1272.400,15\n".to_vec());
    assert_eq!(lines[180], b"180,1000.000,15\n".to_vec());
    assert_eq!(lines[270], b"270,727.600,15\n".to_vec());
}

#[test]
fn streamer_wraps_after_full_revolution() {
    let mut st = TelemetryStreamer::new();
    assert_eq!(st.next_angle, 0);
    for i in 0..360u32 {
        assert_eq!(st.next_angle, i);
        let line = st.next_line();
        let prefix = format!("{},", i);
        assert!(line.starts_with(prefix.as_bytes()));
    }
    // The angle resets to 0 only after the 360th line.
    assert_eq!(st.next_angle, 0);
    let line = st.next_line();
    assert!(line.starts_with(b"0,"));
    assert_eq!(st.next_angle, 1);
}

#[test]
fn scan_has_angles_in_order() {
    let scan = collect_dummy_scan();
    assert_eq!(scan.samples.len(), 360);
    for (i, s) in scan.samples.iter().enumerate() {
        assert_eq!(s.angle as usize, i);
        assert_eq!(s.quality, 15);
        assert!(s.distance_milli >= 650000);
        assert!(s.distance_milli < 1350000);
    }
}

#[test]
fn csv_export_has_361_lines() {
    let scan = collect_dummy_scan();
    let csv = scan_csv_bytes(&scan);
    let newlines = csv.iter().filter(|&&b| b == b'\n').count();
    assert_eq!(newlines, 361);
    // The export ends with the final row's newline: splitting drops the
    // trailing empty piece and leaves header plus 360 data rows.
    let text = String::from_utf8(csv).unwrap();
    let lines: Vec<&str> = text.lines().collect();
    assert_eq!(lines.len(), 361);
    assert_eq!(lines[0], "angle,distance");
}

#[test]
fn csv_rows_match_number_comma_number_shape() {
    let scan = collect_dummy_scan();
    let csv = scan_csv_bytes(&scan);
    let text = String::from_utf8(csv).unwrap();
    for (k, row) in text.lines().skip(1).enumerate() {
        let mut fields = row.split(',');
        let angle = fields.next().unwrap();
        let dist = fields.next().unwrap();
        assert!(fields.next().is_none(), "row {}: extra field", k);
        assert!(!angle.is_empty() && angle.bytes().all(|b| b.is_ascii_digit()));
        let mut parts = dist.split('.');
        let whole = parts.next().unwrap();
        assert!(!whole.is_empty() && whole.bytes().all(|b| b.is_ascii_digit()));
        if let Some(frac) = parts.next() {
            assert!(!frac.is_empty() && frac.bytes().all(|b| b.is_ascii_digit()));
        }
        assert!(parts.next().is_none());
        assert_eq!(angle.parse::<usize>().unwrap(), k);
    }
}
