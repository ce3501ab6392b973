use blockchainlib::{
    get_leap_seconds, get_tai_offset, is_near_leap_second, now_tai_millis, tai_to_utc_millis,
    utc_to_tai_millis, validate_time_ordering,
};

#[test]
fn test_get_tai_offset() {
    assert_eq!(get_tai_offset(0), 10);
    assert_eq!(get_tai_offset(63072001), 10);
    assert_eq!(get_tai_offset(1483228801), 37);
    let now = chrono::Utc::now().timestamp();
    assert_eq!(get_tai_offset(now), 37);
}

#[test]
fn tai_offset_between_leap_seconds() {
    assert_eq!(get_tai_offset(78796799), 10);
    assert_eq!(get_tai_offset(78796800), 11);
    assert_eq!(get_tai_offset(1483228799), 36);
    assert_eq!(get_tai_offset(-1_000_000), 10);
}

#[test]
fn test_utc_to_tai_conversion() {
    let utc_millis = 1577836800000_i64;
    let tai_millis = utc_to_tai_millis(utc_millis);
    assert_eq!(tai_millis, utc_millis + 37000);
}

#[test]
fn test_tai_to_utc_conversion() {
    let tai_millis = 1577836837000_i64;
    let utc_millis = tai_to_utc_millis(tai_millis);
    assert_eq!(utc_millis, tai_millis - 37000);
}

#[test]
fn test_round_trip_conversion() {
    let utc_millis = 1577836800000_i64;
    let tai_millis = utc_to_tai_millis(utc_millis);
    let back_to_utc = tai_to_utc_millis(tai_millis);
    assert_eq!(utc_millis, back_to_utc);
}

#[test]
fn test_now_tai_millis() {
    let tai_now = now_tai_millis();
    let utc_now = chrono::Utc::now().timestamp_millis();
    let diff_seconds = (tai_now - utc_now) / 1000;
    assert_eq!(diff_seconds, 37);
}

#[test]
fn test_is_near_leap_second() {
    let leap_second = 1483228800000_i64;
    assert!(is_near_leap_second(leap_second));
    assert!(is_near_leap_second(leap_second - 1000));
    assert!(is_near_leap_second(leap_second + 1000));
    assert!(!is_near_leap_second(leap_second + 2000));
    assert!(!is_near_leap_second(1577836800000));
}

#[test]
fn test_validate_time_ordering() {
    let time1 = now_tai_millis();
    let time2 = time1 + 10;
    assert!(validate_time_ordering(time1, time2));
    assert!(!validate_time_ordering(time1, time1));
    assert!(!validate_time_ordering(time2, time1));
}

#[test]
fn test_tai_is_monotonic_during_leap_second() {
    let before_leap = 1483228799000_i64;
    let at_leap = 1483228800000_i64;
    let after_leap = 1483228801000_i64;

    let tai_before = utc_to_tai_millis(before_leap);
    let tai_at = utc_to_tai_millis(at_leap);
    let tai_after = utc_to_tai_millis(after_leap);

    assert!(tai_at > tai_before);
    assert!(tai_after > tai_at);
    assert_eq!(tai_at - tai_before, 2000);
    assert_eq!(tai_after - tai_at, 1000);
}

#[test]
fn test_leap_second_table_is_sorted() {
    let leap_seconds = get_leap_seconds();
    for i in 1..leap_seconds.len() {
        assert!(leap_seconds[i].timestamp > leap_seconds[i - 1].timestamp);
        assert_eq!(leap_seconds[i].tai_offset, leap_seconds[i - 1].tai_offset + 1);
    }
}
