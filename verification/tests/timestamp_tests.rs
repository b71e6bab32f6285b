use settings_lib::timestamp::{
    check_timestamps_fit, generate_timestamp, timestamps_at, timestamps_from_reading,
    TimestampError,
};
use settings_lib::{EndTimestampTypes, SettingsJson, SettingsJsonTrait, StartTimestampTypes};

const NOW: i64 = 1_700_000_123; // 1_699_920_000 is the start of that UTC day

#[test]
fn unset_timestamps_stay_unset() {
    let t = timestamps_at(&StartTimestampTypes::Unset, &EndTimestampTypes::Unset, NOW, 3600).unwrap();
    assert_eq!(t.start, None);
    assert_eq!(t.end, None);
}

#[test]
fn launch_time_is_now() {
    let t = timestamps_at(&StartTimestampTypes::LaunchTime, &EndTimestampTypes::Unset, NOW, -7200)
        .unwrap();
    assert_eq!(t.start, Some(NOW));
}

#[test]
fn local_day_spans_one_day() {
    let t = timestamps_at(&StartTimestampTypes::LocalTime, &EndTimestampTypes::DayEnd, NOW, -7200)
        .unwrap();
    assert_eq!(t.start, Some(1_699_920_000 - 7200));
    assert_eq!(t.end, Some(1_699_920_000 - 7200 + 86400));
}

#[test]
fn numbers_are_shifted_by_the_offset() {
    let t = timestamps_at(&StartTimestampTypes::Number(1000), &EndTimestampTypes::Number(5000), NOW, 60)
        .unwrap();
    assert_eq!(t.start, Some(1060));
    assert_eq!(t.end, Some(5060));
}

#[test]
fn numbers_beyond_i64_are_refused() {
    let big = i64::MAX as u64 + 1;
    let r = timestamps_at(&StartTimestampTypes::Number(big), &EndTimestampTypes::Unset, NOW, 0);
    assert!(matches!(r, Err(TimestampError::NumberOutOfRange)));
    let r = timestamps_at(&StartTimestampTypes::LaunchTime, &EndTimestampTypes::Number(big), NOW, 0);
    assert!(matches!(r, Err(TimestampError::NumberOutOfRange)));
}

#[test]
fn overflowing_sums_are_detected() {
    let max = i64::MAX as u64;
    assert!(!check_timestamps_fit(&StartTimestampTypes::Number(max), &EndTimestampTypes::Unset, NOW, 1));
    assert!(check_timestamps_fit(&StartTimestampTypes::Number(max), &EndTimestampTypes::Unset, NOW, 0));
    assert!(!check_timestamps_fit(&StartTimestampTypes::LaunchTime, &EndTimestampTypes::DayEnd, i64::MAX, 0));
    assert!(check_timestamps_fit(&StartTimestampTypes::Number(max + 1), &EndTimestampTypes::Unset, NOW, 5));
}

#[test]
fn default_settings_give_a_local_day_start() {
    let s = SettingsJson::new_default().unwrap();
    let t = generate_timestamp(&s, 0).unwrap();
    let start = t.start.unwrap();
    assert!(t.end.is_none());
    let now = std::time::SystemTime::now()
        .duration_since(std::time::UNIX_EPOCH)
        .unwrap()
        .as_secs() as i64;
    assert_eq!(start, now - now % 86400);
}

#[test]
fn readings_are_checked_in_order() {
    let big = i64::MAX as u64 + 1;
    let r = timestamps_from_reading(&StartTimestampTypes::LaunchTime, &EndTimestampTypes::Unset, big, 0);
    assert!(matches!(r, Err(TimestampError::ClockOutOfRange)));
    let r = timestamps_from_reading(&StartTimestampTypes::LocalTime, &EndTimestampTypes::Unset, i64::MAX as u64, 1);
    assert!(matches!(r, Err(TimestampError::Overflow)));
    let r = timestamps_from_reading(&StartTimestampTypes::Number(big), &EndTimestampTypes::Unset, 10, 0);
    assert!(matches!(r, Err(TimestampError::NumberOutOfRange)));
    let t = timestamps_from_reading(&StartTimestampTypes::LocalTime, &EndTimestampTypes::DayEnd, 100000, -3600).unwrap();
    assert_eq!(t.start, Some(86400 - 3600));
    assert_eq!(t.end, Some(172800 - 3600));
}
