use recorder::settings::{validate, RecordingMode, Settings, ValidationError};

fn snapshot(frequency: u32, zoom: u8) -> Settings {
    Settings { mode: RecordingMode::Snapshot, frequency, zoom, auto_stop: 0 }
}

#[test]
fn full_range_window_fits_only_at_center() {
    assert_eq!(validate(&snapshot(15_000_000, 0)), Ok(()));
    assert_eq!(validate(&snapshot(15_000_001, 0)), Err(ValidationError::RangeExceedsMaximum));
    assert_eq!(validate(&snapshot(14_999_999, 0)), Err(ValidationError::RangeExceedsMinimum));
}

#[test]
fn half_range_window_bounds() {
    assert_eq!(validate(&snapshot(7_500_000, 1)), Ok(()));
    assert_eq!(validate(&snapshot(22_500_000, 1)), Ok(()));
    assert_eq!(validate(&snapshot(7_499_999, 1)), Err(ValidationError::RangeExceedsMinimum));
    assert_eq!(validate(&snapshot(22_500_001, 1)), Err(ValidationError::RangeExceedsMaximum));
}

#[test]
fn zoom_above_limit_is_refused_for_any_frequency() {
    for f in [0u32, 15_000_000, 30_000_000, u32::MAX] {
        assert_eq!(validate(&snapshot(f, 32)), Err(ValidationError::ZoomTooHigh));
        assert_eq!(validate(&snapshot(f, 255)), Err(ValidationError::ZoomTooHigh));
    }
}

#[test]
fn highest_zoom_at_zero_frequency_is_accepted() {
    // At zoom 31 the bandwidth rounds down to 0 Hz: the window is the center alone.
    assert_eq!(validate(&snapshot(0, 31)), Ok(()));
    assert_eq!(validate(&snapshot(30_000_000, 31)), Ok(()));
    assert_eq!(validate(&snapshot(30_000_001, 31)), Err(ValidationError::RangeExceedsMaximum));
}

#[test]
fn largest_frequency_saturates_and_is_refused() {
    assert_eq!(validate(&snapshot(u32::MAX, 0)), Err(ValidationError::RangeExceedsMaximum));
    assert_eq!(validate(&snapshot(u32::MAX, 31)), Err(ValidationError::RangeExceedsMaximum));
}

#[test]
fn raw_mode_is_not_held_to_the_zoom_window() {
    let raw = Settings { mode: RecordingMode::Raw, frequency: 10_000_000, zoom: 0, auto_stop: 0 };
    assert_eq!(validate(&raw), Ok(()));
    assert_eq!(validate(&Settings { frequency: 0, ..raw }), Ok(()));
    let snapshot = Settings { mode: RecordingMode::Snapshot, ..raw };
    assert_eq!(validate(&snapshot), Err(ValidationError::RangeExceedsMinimum));
    assert_eq!(validate(&Settings { zoom: 32, ..raw }), Err(ValidationError::ZoomTooHigh));
}

#[test]
fn validation_matches_window_formula_for_every_zoom() {
    for zoom in 0u8..=31 {
        let half = (30_000_000u64 >> zoom) / 2;
        for center in [0u64, half, 15_000_000, 30_000_000 - half, 30_000_000] {
            let fits = center >= half && center + half <= 30_000_000;
            let r = validate(&snapshot(center as u32, zoom));
            assert_eq!(r.is_ok(), fits, "zoom {} center {}", zoom, center);
        }
    }
}

#[test]
fn validation_messages_differ() {
    let a = ValidationError::ZoomTooHigh.message();
    let b = ValidationError::RangeExceedsMaximum.message();
    let c = ValidationError::RangeExceedsMinimum.message();
    assert_eq!(a, "Zoom too high");
    assert!(a != b && b != c && a != c);
}

#[test]
fn settings_summary_text() {
    let s = Settings { mode: RecordingMode::Snapshot, frequency: 7_000_000, zoom: 3, auto_stop: 60 };
    assert_eq!(s.summary(), "Type: Png, Frequency: 7000000 Hz, Zoom: 3 Autostop: 60 sec");
    let r = Settings { mode: RecordingMode::Raw, frequency: 10_000_000, zoom: 0, auto_stop: 0 };
    assert_eq!(r.summary(), "Type: Iq, Frequency: 10000000 Hz, Autostop: Off");
    assert_eq!(RecordingMode::Snapshot.label(), "Png");
    assert_eq!(RecordingMode::Raw.label(), "Iq");
}
