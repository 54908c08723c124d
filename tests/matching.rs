use bell_scheduler::clock::WallClock;
use bell_scheduler::matcher::{
    custom_day_matches, day_policy_matches, evaluate, parse_custom_days, time_window_matches,
    Verdict,
};
use bell_scheduler::task::{RepeatMode, Task};

fn task(mode: RepeatMode, hour: i64, minute: i64, custom_days: Option<&str>) -> Task {
    Task {
        id: 7,
        name: "morning bell".to_string(),
        hour,
        minute,
        repeat_mode: mode,
        custom_days: custom_days.map(|s| s.to_string()),
        playlist_id: 1,
        volume: 80,
        fade_in_duration: 0,
        duration_minutes: None,
        priority: 0,
    }
}

fn clock(hour: u32, minute: u32, weekday: u32) -> WallClock {
    WallClock { year: 2024, month: 5, day: 13, hour, minute, weekday }
}

#[test]
fn window_opens_at_trigger_and_lasts_three_minutes() {
    assert!(time_window_matches(8, 0, 8, 0));
    assert!(time_window_matches(8, 0, 8, 1));
    assert!(time_window_matches(8, 0, 8, 2));
    assert!(!time_window_matches(8, 0, 7, 59));
    assert!(!time_window_matches(8, 0, 8, 3));
}

#[test]
fn window_spans_an_hour_boundary() {
    assert!(time_window_matches(9, 59, 10, 1));
    assert!(!time_window_matches(9, 59, 10, 2));
}

#[test]
fn window_does_not_wrap_past_midnight() {
    assert!(time_window_matches(23, 59, 23, 59));
    assert!(!time_window_matches(23, 59, 0, 0));
}

#[test]
fn window_with_extreme_stored_values() {
    assert!(!time_window_matches(i64::MAX, i64::MAX, 0, 0));
    assert!(!time_window_matches(i64::MIN, 0, 0, 0));
}

#[test]
fn daily_matches_every_weekday() {
    for w in 0..7u32 {
        assert!(day_policy_matches(RepeatMode::Daily, &None, w, 0));
        assert!(day_policy_matches(RepeatMode::Daily, &None, w, 3));
    }
}

#[test]
fn weekday_and_weekend_policies() {
    let expected_weekday = [false, true, true, true, true, true, false];
    for w in 0..7u32 {
        assert_eq!(day_policy_matches(RepeatMode::Weekday, &None, w, 0), expected_weekday[w as usize]);
        assert_eq!(day_policy_matches(RepeatMode::Weekend, &None, w, 0), !expected_weekday[w as usize]);
    }
}

#[test]
fn custom_days_match_listed_weekdays() {
    let days = Some("[1, 3, 5]".to_string());
    assert!(day_policy_matches(RepeatMode::Custom, &days, 3, 0));
    assert!(!day_policy_matches(RepeatMode::Custom, &days, 2, 0));
    assert!(!day_policy_matches(RepeatMode::Custom, &days, 0, 0));
}

#[test]
fn custom_days_absent_or_malformed_never_match() {
    assert!(!day_policy_matches(RepeatMode::Custom, &None, 3, 0));
    assert!(!day_policy_matches(RepeatMode::Custom, &Some("monday".to_string()), 1, 0));
    assert!(!day_policy_matches(RepeatMode::Custom, &Some("[1, \"x\"]".to_string()), 1, 0));
}

#[test]
fn parse_custom_days_reads_json_arrays() {
    assert_eq!(parse_custom_days(&Some("[0,6]".to_string())), Some(vec![0, 6]));
    assert_eq!(parse_custom_days(&Some("[]".to_string())), Some(vec![]));
    assert_eq!(parse_custom_days(&Some("{}".to_string())), None);
    assert_eq!(parse_custom_days(&None), None);
}

#[test]
fn custom_day_lookup() {
    assert!(custom_day_matches(&Some(vec![2, 4]), 4));
    assert!(!custom_day_matches(&Some(vec![2, 4]), 5));
    assert!(!custom_day_matches(&Some(vec![]), 0));
    assert!(!custom_day_matches(&None, 0));
}

#[test]
fn once_matches_until_any_record_exists() {
    assert!(day_policy_matches(RepeatMode::Once, &None, 2, 0));
    assert!(!day_policy_matches(RepeatMode::Once, &None, 2, 1));
    assert!(!day_policy_matches(RepeatMode::Once, &None, 2, 5));
}

#[test]
fn once_task_fires_then_never_again() {
    let t = task(RepeatMode::Once, 12, 30, None);
    let now = clock(12, 31, 2);
    assert_eq!(evaluate(&t, &now, 0, 0), Verdict::Fire);
    let next_day = clock(12, 31, 3);
    assert_eq!(evaluate(&t, &next_day, 1, 0), Verdict::NotToday);
}

#[test]
fn unknown_mode_never_matches() {
    for w in 0..7u32 {
        assert!(!day_policy_matches(RepeatMode::Unknown, &None, w, 0));
    }
}

#[test]
fn mode_names() {
    assert_eq!(RepeatMode::from_name("daily"), RepeatMode::Daily);
    assert_eq!(RepeatMode::from_name("weekday"), RepeatMode::Weekday);
    assert_eq!(RepeatMode::from_name("weekend"), RepeatMode::Weekend);
    assert_eq!(RepeatMode::from_name("custom"), RepeatMode::Custom);
    assert_eq!(RepeatMode::from_name("once"), RepeatMode::Once);
    assert_eq!(RepeatMode::from_name("Daily"), RepeatMode::Unknown);
    assert_eq!(RepeatMode::from_name(""), RepeatMode::Unknown);
}

#[test]
fn guard_allows_first_cycle_and_blocks_second() {
    let t = task(RepeatMode::Daily, 7, 45, None);
    let first = clock(7, 45, 1);
    let second = clock(7, 46, 1);
    assert_eq!(evaluate(&t, &first, 4, 0), Verdict::Fire);
    assert_eq!(evaluate(&t, &second, 5, 1), Verdict::AlreadyRunToday);
}

#[test]
fn evaluate_outside_window_and_wrong_day() {
    let t = task(RepeatMode::Weekday, 7, 45, None);
    assert_eq!(evaluate(&t, &clock(7, 48, 1), 0, 0), Verdict::OutsideWindow);
    assert_eq!(evaluate(&t, &clock(7, 45, 0), 0, 0), Verdict::NotToday);
    assert_eq!(evaluate(&t, &clock(7, 45, 1), 0, 0), Verdict::Fire);
}

#[test]
fn clock_reading_is_in_range() {
    let c = WallClock::now();
    assert!(c.hour < 24 && c.minute < 60 && c.weekday < 7);
    assert!((1..=12).contains(&c.month) && (1..=31).contains(&c.day));
}
