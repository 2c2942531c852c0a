use recorder::clock::MAX_STAMP_SECS;
use recorder::launch::{check_start, prepare_start, prepare_start_at, recorder_args, station_name, StartError};
use recorder::registry::Registry;
use recorder::settings::{RecordingMode, Settings, ValidationError};

const STAMP: &str = "2024-01-02_03-04-05_UTC";

#[test]
fn raw_arguments() {
    let s = Settings { mode: RecordingMode::Raw, frequency: 10_000_000, zoom: 0, auto_stop: 0 };
    let expected = vec![
        "-s", "127.0.0.1", "-p", "8073", "--freq=10000.000", "-d", "/var/recorder/recorded-files/",
        "--filename=KiwiRec", "--station=2024-01-02_03-04-05_UTC_Fq1e7_Bw1d2e4", "--kiwi-wav",
        "--modulation=iq",
    ];
    assert_eq!(recorder_args(&s, STAMP), expected);
}

#[test]
fn snapshot_arguments_with_time_limit() {
    let s = Settings { mode: RecordingMode::Snapshot, frequency: 7_100_000, zoom: 3, auto_stop: 60 };
    let expected = vec![
        "-s", "127.0.0.1", "-p", "8073", "--freq=7100.000", "-d", "/var/recorder/recorded-files/",
        "--filename=KiwiRec", "--station=2024-01-02_03-04-05_UTC_Fq7d1e6_Zm3", "--wf", "--wf-png",
        "--speed=4", "--modulation=am", "--zoom=3", "--time-limit=60",
    ];
    assert_eq!(recorder_args(&s, STAMP), expected);
}

#[test]
fn frequency_in_khz_keeps_three_decimals() {
    let s = Settings { mode: RecordingMode::Raw, frequency: 14_074_123, zoom: 0, auto_stop: 1 };
    let args = recorder_args(&s, STAMP);
    assert_eq!(args[4], "--freq=14074.123");
    assert_eq!(args.last().unwrap(), "--time-limit=1");
    let low = Settings { frequency: 1_005, ..s };
    assert_eq!(recorder_args(&low, STAMP)[4], "--freq=1.005");
    let zero = Settings { frequency: 0, ..s };
    assert_eq!(recorder_args(&zero, STAMP)[4], "--freq=0.000");
}

#[test]
fn station_names() {
    let s = Settings { mode: RecordingMode::Snapshot, frequency: 14_074_000, zoom: 12, auto_stop: 0 };
    assert_eq!(station_name(&s, "T"), "T_Fq1d407e7_Zm12");
    let r = Settings { mode: RecordingMode::Raw, ..s };
    assert_eq!(station_name(&r, "T"), "T_Fq1d407e7_Bw1d2e4");
}

#[test]
fn settings_are_checked_before_admission() {
    let reg: Registry<u8> = Registry::new(0);
    let bad = Settings { mode: RecordingMode::Snapshot, frequency: 1, zoom: 40, auto_stop: 0 };
    assert_eq!(check_start(&reg, &bad), Err(StartError::Invalid(ValidationError::ZoomTooHigh)));
    let good = Settings { mode: RecordingMode::Snapshot, frequency: 15_000_000, zoom: 0, auto_stop: 0 };
    assert_eq!(
        check_start(&reg, &good),
        Err(StartError::Admission(recorder::registry::AdmissionError::CapacityExceeded))
    );
}

#[test]
fn prepare_start_stamps_the_station_with_the_date() {
    let mut reg: Registry<u8> = Registry::new(2);
    assert!(reg.try_insert(0, 1).is_ok());
    let s = Settings { mode: RecordingMode::Raw, frequency: 15_000_000, zoom: 0, auto_stop: 0 };
    let launch = prepare_start(&reg, &s).unwrap();
    assert_eq!(launch.id, 1);
    assert!(launch.started_at > 1_600_000_000);
    let station = &launch.args[8];
    assert!(station.starts_with("--station="));
    let stamp = &station["--station=".len()..];
    // YYYY-MM-DD_HH-MM-SS_UTC followed by the frequency part.
    assert_eq!(&stamp[4..5], "-");
    assert_eq!(&stamp[7..8], "-");
    assert_eq!(&stamp[10..11], "_");
    assert_eq!(&stamp[19..], "_UTC_Fq1d5e7_Bw1d2e4");
    assert_eq!(launch.args.len(), 11);
}

#[test]
fn prepare_start_reports_refusals() {
    let reg: Registry<u8> = Registry::new(1);
    let bad = Settings { mode: RecordingMode::Snapshot, frequency: 29_000_000, zoom: 0, auto_stop: 0 };
    assert_eq!(
        prepare_start(&reg, &bad).err(),
        Some(StartError::Invalid(ValidationError::RangeExceedsMaximum))
    );
    assert_eq!(StartError::ClockOutOfRange.message(), "The system clock is out of range");
    assert_eq!(StartError::ClockBeforeEpoch.message(), "The system clock reads before 1970");
}

#[test]
fn prepare_start_at_a_given_time() {
    let reg: Registry<u8> = Registry::new(3);
    let s = Settings { mode: RecordingMode::Raw, frequency: 10_000_000, zoom: 0, auto_stop: 0 };
    let launch = prepare_start_at(&reg, &s, 1_704_164_645).unwrap();
    assert_eq!(launch.id, 0);
    assert_eq!(launch.started_at, 1_704_164_645);
    assert_eq!(launch.args[8], "--station=2024-01-02_03-04-05_UTC_Fq1e7_Bw1d2e4");
    let epoch = prepare_start_at(&reg, &s, 0).unwrap();
    assert_eq!(epoch.args[8], "--station=1970-01-01_00-00-00_UTC_Fq1e7_Bw1d2e4");
}

#[test]
fn prepare_start_at_the_last_representable_second() {
    let reg: Registry<u8> = Registry::new(3);
    let s = Settings { mode: RecordingMode::Snapshot, frequency: 0, zoom: 31, auto_stop: 0 };
    let last = prepare_start_at(&reg, &s, MAX_STAMP_SECS).unwrap();
    assert_eq!(last.id, 0);
    assert!(last.args[8].contains("262142-12-31_23-59-59_UTC"));
    assert_eq!(
        prepare_start_at(&reg, &s, MAX_STAMP_SECS + 1).err(),
        Some(StartError::ClockOutOfRange)
    );
}
