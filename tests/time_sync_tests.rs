use blockchainlib::{TimeSync, TrustedTime};

#[test]
fn test_time_sync_creation() {
    let time_sync = TimeSync::new();
    assert_eq!(time_sync.tolerance_ms, 500);
}

#[test]
fn test_time_sync_with_custom_tolerance() {
    let time_sync = TimeSync::new_with_tolerance(1000);
    assert_eq!(time_sync.tolerance_ms, 1000);
}

#[test]
fn test_validate_current_timestamp() {
    let time_sync = TimeSync::new();
    let current_time = TimeSync::get_system_time();
    assert!(time_sync.validate_timestamp(current_time));
}

#[test]
fn test_validate_future_timestamp() {
    let time_sync = TimeSync::new();
    let future_time = TimeSync::get_system_time() + 1000;
    assert!(!time_sync.validate_timestamp(future_time));
}

#[test]
fn test_validate_past_timestamp() {
    let time_sync = TimeSync::new();
    let past_time = TimeSync::get_system_time() - 100_000;
    assert!(time_sync.validate_timestamp(past_time));

    let very_old_time = TimeSync::get_system_time() - 400_000;
    assert!(!time_sync.validate_timestamp(very_old_time));
}

#[test]
fn tolerance_bounds_are_inclusive() {
    let time_sync = TimeSync::new();
    let now: u128 = 10_000_000;
    assert!(time_sync.validate_timestamp_at(now + 500, now));
    assert!(!time_sync.validate_timestamp_at(now + 501, now));
    assert!(time_sync.validate_timestamp_at(now - 300_000, now));
    assert!(!time_sync.validate_timestamp_at(now - 300_001, now));
    assert!(time_sync.validate_timestamp_at(0, 1000));
}

#[test]
fn test_time_diff() {
    let time_sync = TimeSync::new();
    let current_time = TimeSync::get_system_time();
    let past_time = current_time - 1000;
    let future_time = current_time + 1000;

    let diff_past = time_sync.time_diff(past_time);
    let diff_future = time_sync.time_diff(future_time);

    assert!(diff_past < 0);
    assert!(diff_future > 0);
}

#[test]
fn test_has_hour_passed() {
    let time_sync = TimeSync::new();
    let current_time = TimeSync::get_system_time();

    assert!(!time_sync.has_hour_passed(current_time));

    let old_time = current_time - 3_700_000;
    assert!(time_sync.has_hour_passed(old_time));
}

#[test]
fn test_seconds_until_hour_passed() {
    let time_sync = TimeSync::new();
    let current_time = TimeSync::get_system_time();

    let half_hour_ago = current_time - 1_800_000;
    let seconds_left = time_sync.seconds_until_hour_passed(half_hour_ago);
    assert!(seconds_left >= 1790 && seconds_left <= 1810);

    let old_time = current_time - 3_700_000;
    assert_eq!(time_sync.seconds_until_hour_passed(old_time), 0);
}

#[test]
fn hour_checks_at_fixed_times() {
    let time_sync = TimeSync::new();
    assert!(!time_sync.has_hour_passed_at(1_000, 3_600_999));
    assert!(time_sync.has_hour_passed_at(1_000, 3_601_000));
    assert_eq!(time_sync.seconds_until_hour_passed_at(1_000, 1_801_000), 1800);
    assert_eq!(time_sync.seconds_until_hour_passed_at(5_000_000, 1_000), 8599);
    assert_eq!(time_sync.seconds_until_hour_passed_at(1_000, 9_000_000), 0);
}

#[test]
fn record_sync_keeps_the_reading() {
    let mut time_sync = TimeSync::new();
    assert_eq!(time_sync.last_sync_time, None);
    let reading = TrustedTime { timestamp_ms: 1234, source: "system".to_string() };
    let back = time_sync.record_sync(reading);
    assert_eq!(back.timestamp_ms, 1234);
    assert_eq!(time_sync.last_sync_time, Some(1234));
}

#[test]
fn trusted_time_from_unix_seconds() {
    let t = TrustedTime::from_unix_seconds(1_700_000_000, "test".to_string()).unwrap();
    assert_eq!(t.timestamp_ms, 1_700_000_000_000);
    assert_eq!(t.source, "test");
    assert!(TrustedTime::from_unix_seconds(-1, "test".to_string()).is_none());
}

#[test]
fn system_clock_fallback_records_reading() {
    let mut time_sync = TimeSync::new();
    let reading = time_sync.sync_with_system_clock();
    assert_eq!(reading.source, "system");
    assert_eq!(time_sync.last_sync_time, Some(reading.timestamp_ms));
    assert!(reading.timestamp_ms > 1577836800000);
}
