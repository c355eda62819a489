use alarm_clock::net::facade::NetworkError;
use alarm_clock::time_lib::model::ApiTimeType;
use alarm_clock::time_lib::time::{TimeError, TimeManager, MAX_UNIX_TS};

fn sample(ts: u64) -> ApiTimeType {
    ApiTimeType { utc_offset: 0, timestamp: ts }
}

#[test]
fn query_before_any_sync_is_not_synchronized() {
    let tm = TimeManager::new();
    assert_eq!(tm.current_time_at(0), Err(TimeError::NotSynchronized));
    assert_eq!(tm.current_time_at(12345), Err(TimeError::NotSynchronized));
    assert_eq!(tm.get_current_time(), Err(TimeError::NotSynchronized));
}

#[test]
fn offset_correct_after_successful_sync() {
    let mut tm = TimeManager::new();
    let r = tm.apply_sample(sample(1_700_000_000), 100);
    assert_eq!(r, Ok(1_700_000_000));
    // Two seconds of monotonic time later the clock has advanced two seconds.
    assert_eq!(tm.current_time_at(102), Ok(1_700_000_002));
    // And with no elapsed time it answers the sample's timestamp exactly.
    assert_eq!(tm.current_time_at(100), Ok(1_700_000_000));
}

#[test]
fn resync_replaces_offset() {
    let mut tm = TimeManager::new();
    tm.apply_sample(sample(1_000), 0).unwrap();
    assert_eq!(tm.current_time_at(5), Ok(1_005));
    tm.apply_sample(sample(2_000_000), 5).unwrap();
    assert_eq!(tm.current_time_at(5), Ok(2_000_000));
}

#[test]
fn failed_sync_keeps_previous_offset() {
    let mut tm = TimeManager::new();
    tm.apply_sample(sample(1_700_000_000), 100).unwrap();
    let before = tm.current_time_at(200);
    let r = tm.sync_time(Err(NetworkError::RequestFailed));
    assert_eq!(r, Err(TimeError::NetworkError));
    assert_eq!(tm.current_time_at(200), before);
    let r = tm.sync_time(Err(NetworkError::ReadError));
    assert_eq!(r, Err(TimeError::NetworkError));
    assert_eq!(tm.current_time_at(200), before);
}

#[test]
fn failed_sync_before_first_success_stays_unsynchronized() {
    let mut tm = TimeManager::new();
    let r = tm.sync_time(Err(NetworkError::ParseError));
    assert_eq!(r, Err(TimeError::NetworkError));
    assert_eq!(tm.current_time_at(7), Err(TimeError::NotSynchronized));
}

#[test]
fn out_of_range_timestamp_is_invalid_response() {
    let mut tm = TimeManager::new();
    let r = tm.apply_sample(sample(MAX_UNIX_TS as u64 + 1), 0);
    assert_eq!(r, Err(TimeError::InvalidResponse));
    assert_eq!(tm.current_time_at(0), Err(TimeError::NotSynchronized));
    // A timestamp that wraps past i64::MAX is rejected the same way.
    let r = tm.apply_sample(sample(u64::MAX), 0);
    assert_eq!(r, Err(TimeError::InvalidResponse));
    assert_eq!(tm.current_time_at(0), Err(TimeError::NotSynchronized));
}

#[test]
fn largest_valid_timestamp_is_accepted() {
    let mut tm = TimeManager::new();
    let r = tm.apply_sample(sample(MAX_UNIX_TS as u64), 0);
    assert_eq!(r, Ok(MAX_UNIX_TS));
    assert_eq!(tm.current_time_at(0), Ok(MAX_UNIX_TS));
    // One second later the derived time leaves the calendar range.
    assert_eq!(tm.current_time_at(1), Err(TimeError::InvalidResponse));
}

#[test]
fn invalid_sample_keeps_previous_offset() {
    let mut tm = TimeManager::new();
    tm.apply_sample(sample(500), 0).unwrap();
    let r = tm.sync_time(Ok(sample(u64::MAX)));
    assert_eq!(r, Err(TimeError::InvalidResponse));
    assert_eq!(tm.current_time_at(3), Ok(503));
}

#[test]
fn negative_offset_yields_pre_epoch_times() {
    let mut tm = TimeManager::new();
    // A sample taken late in the monotonic counter's life gives a negative
    // offset; times before the epoch are still valid calendar times.
    tm.apply_sample(sample(0), 1_000).unwrap();
    assert_eq!(tm.current_time_at(0), Ok(-1_000));
    assert_eq!(tm.current_time_at(1_000), Ok(0));
    assert_eq!(tm.current_time_at(1_010), Ok(10));
}

#[test]
fn sync_time_against_real_monotonic_counter() {
    let mut tm = TimeManager::new();
    let r = tm.sync_time(Ok(sample(1_700_000_000)));
    assert_eq!(r, Ok(1_700_000_000));
    let t = tm.get_current_time().unwrap();
    // The monotonic counter only moved forward, and by far less than a minute.
    assert!(t >= 1_700_000_000);
    assert!(t < 1_700_000_060);
}
