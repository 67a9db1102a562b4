use eaglemode::autoplay::{DurationMSToValue, DurationValueToMS};

#[test]
fn test_duration_value_to_ms() {
    // Value 0 → first table entry
    assert_eq!(DurationValueToMS(0), 500);
    // Value 900 → last table entry
    assert_eq!(DurationValueToMS(900), 120000);
    // Value 100 → second entry (index 1)
    assert_eq!(DurationValueToMS(100), 1000);
    // Value 450 → midpoint of table
    assert_eq!(DurationValueToMS(450), 7500);
}

#[test]
fn test_duration_ms_to_value() {
    // Inverse of known values
    assert_eq!(DurationMSToValue(500), 0);
    assert_eq!(DurationMSToValue(120000), 900);
    assert_eq!(DurationMSToValue(1000), 100);
}

#[test]
fn test_duration_roundtrip() {
    for v in (0..=900).step_by(100) {
        let ms = DurationValueToMS(v);
        let v2 = DurationMSToValue(ms);
        assert_eq!(
            DurationValueToMS(v2),
            ms,
            "round-trip failed for value {v}: ms={ms}, v2={v2}"
        );
    }
}

#[test]
fn duration_interpolates_inside_segments() {
    assert_eq!(DurationValueToMS(50), 750);
    assert_eq!(DurationValueToMS(199), 1990);
    assert_eq!(DurationValueToMS(850), 90000);
    assert_eq!(DurationValueToMS(899), 119400);
}

#[test]
fn duration_outside_scale() {
    assert_eq!(DurationValueToMS(901), 120000);
    assert_eq!(DurationValueToMS(i64::MAX), 120000);
    assert_eq!(DurationValueToMS(-1), 495);
    assert_eq!(DurationValueToMS(-100), 0);
    assert_eq!(DurationValueToMS(-429496829), -2147483645);
    assert_eq!(DurationValueToMS(-429496830), i32::MIN);
    assert_eq!(DurationValueToMS(i64::MIN), i32::MIN);
}

#[test]
fn duration_every_value_round_trips() {
    for v in 0..=900 {
        assert_eq!(DurationMSToValue(DurationValueToMS(v)), v);
    }
}

#[test]
fn duration_ms_between_knots_rounds_up() {
    assert_eq!(DurationMSToValue(0), 0);
    assert_eq!(DurationMSToValue(i32::MIN), 0);
    assert_eq!(DurationMSToValue(501), 1);
    assert_eq!(DurationMSToValue(120001), 900);
    assert_eq!(DurationMSToValue(i32::MAX), 900);
    assert_eq!(DurationMSToValue(119401), 900);
}
