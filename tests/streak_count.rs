use streaks::frequency::StreakFrequency;
use streaks::moment::Moment;
use streaks::streak::{calculate_streak_count, is_skipping_weekend};

fn at(s: &str) -> Moment {
    Moment::parse_rfc3339(s).unwrap()
}

#[test]
fn test_streak_count_1() {
    let current_timestamp = at("2021-01-13T00:00:00+00:00");
    let timestamps = vec![
        at("2021-01-13T00:00:00+00:00"),
        at("2021-01-12T00:00:00+00:00"),
        at("2021-01-11T00:00:00+00:00"),
        at("2021-01-01T00:00:00+00:00"),
    ];
    assert_eq!(
        calculate_streak_count(timestamps, current_timestamp, StreakFrequency::alldays),
        3
    );
}

#[test]
fn test_streak_count_2() {
    let current_timestamp = at("2021-01-13T00:00:00+00:00");
    let timestamps = vec![
        at("2021-01-12T00:00:00+00:00"),
        at("2021-01-10T00:00:00+00:00"),
        at("2021-01-09T00:00:00+00:00"),
    ];
    assert_eq!(
        calculate_streak_count(timestamps, current_timestamp, StreakFrequency::alldays),
        1
    );
}

#[test]
fn test_streak_count_3() {
    let current_timestamp = at("2021-01-13T00:00:00+00:00");
    let timestamps = vec![at("2021-01-10T00:00:00+00:00")];
    assert_eq!(
        calculate_streak_count(timestamps, current_timestamp, StreakFrequency::alldays),
        0
    );
}

#[test]
fn empty_history_is_no_streak() {
    let now = at("2021-01-13T00:00:00+00:00");
    assert_eq!(calculate_streak_count(vec![], now, StreakFrequency::alldays), 0);
    assert_eq!(calculate_streak_count(vec![], now, StreakFrequency::weekdays), 0);
}

#[test]
fn reference_alone_counts_one() {
    let now = at("2021-01-13T17:45:12+02:00");
    assert_eq!(calculate_streak_count(vec![now], now, StreakFrequency::alldays), 1);
}

#[test]
fn daily_chain_counts_its_length() {
    let now = at("2021-01-13T08:00:00+00:00");
    let timestamps = vec![
        at("2021-01-13T08:00:00+00:00"),
        at("2021-01-12T08:00:00+00:00"),
        at("2021-01-11T08:00:00+00:00"),
        at("2021-01-10T08:00:00+00:00"),
    ];
    assert_eq!(calculate_streak_count(timestamps, now, StreakFrequency::alldays), 4);
}

#[test]
fn lone_event_three_days_back_is_no_streak() {
    let now = at("2021-01-13T00:00:00+00:00");
    let timestamps = vec![at("2021-01-10T00:00:00+00:00")];
    assert_eq!(calculate_streak_count(timestamps.clone(), now, StreakFrequency::alldays), 0);
    assert_eq!(calculate_streak_count(timestamps, now, StreakFrequency::weekdays), 0);
}

#[test]
fn gap_under_a_day_counts_as_same_day() {
    // 47 hours back is one whole day.
    let now = at("2021-01-13T23:00:00+00:00");
    let timestamps = vec![at("2021-01-12T00:00:00+00:00")];
    assert_eq!(calculate_streak_count(timestamps, now, StreakFrequency::alldays), 1);
}

#[test]
fn weekend_gap_is_passed_over_under_weekdays() {
    // Monday 2021-01-11; Friday 2021-01-08; Thursday 2021-01-07.
    let monday = at("2021-01-11T09:00:00+00:00");
    let timestamps = vec![
        at("2021-01-11T09:00:00+00:00"),
        at("2021-01-08T09:00:00+00:00"),
        at("2021-01-07T09:00:00+00:00"),
    ];
    // Friday is passed over without counting and the cursor stays on
    // Monday, so Thursday is four days back and ends the walk.
    assert_eq!(calculate_streak_count(timestamps.clone(), monday, StreakFrequency::weekdays), 1);
    assert_eq!(calculate_streak_count(timestamps, monday, StreakFrequency::alldays), 1);
}

#[test]
fn lone_friday_before_monday_is_no_streak_under_weekdays() {
    let monday = at("2021-01-11T00:00:00+00:00");
    let timestamps = vec![at("2021-01-08T00:00:00+00:00")];
    assert_eq!(calculate_streak_count(timestamps, monday, StreakFrequency::weekdays), 0);
}

#[test]
fn thursday_to_saturday_breaks_under_weekdays() {
    let saturday = at("2021-01-09T10:00:00+00:00");
    let timestamps = vec![
        at("2021-01-09T10:00:00+00:00"),
        at("2021-01-07T10:00:00+00:00"),
        at("2021-01-06T10:00:00+00:00"),
    ];
    assert_eq!(calculate_streak_count(timestamps.clone(), saturday, StreakFrequency::weekdays), 1);
    assert_eq!(calculate_streak_count(timestamps, saturday, StreakFrequency::alldays), 1);
}

#[test]
fn same_arguments_give_same_count() {
    let now = at("2021-01-13T00:00:00+00:00");
    let timestamps = vec![
        at("2021-01-13T00:00:00+00:00"),
        at("2021-01-12T00:00:00+00:00"),
    ];
    let first = calculate_streak_count(timestamps.clone(), now, StreakFrequency::weekdays);
    let second = calculate_streak_count(timestamps, now, StreakFrequency::weekdays);
    assert_eq!(first, second);
    assert_eq!(first, 2);
}

#[test]
fn same_day_duplicates_do_not_add() {
    let now = at("2021-01-13T12:00:00+00:00");
    let with_duplicates = vec![
        at("2021-01-13T10:00:00+00:00"),
        at("2021-01-13T08:00:00+00:00"),
        at("2021-01-13T01:00:00+00:00"),
        at("2021-01-12T09:00:00+00:00"),
    ];
    let without = vec![at("2021-01-13T10:00:00+00:00"), at("2021-01-12T09:00:00+00:00")];
    assert_eq!(calculate_streak_count(with_duplicates, now, StreakFrequency::alldays), 2);
    assert_eq!(calculate_streak_count(without, now, StreakFrequency::alldays), 2);
}

#[test]
fn excused_weekend_gaps() {
    let thursday = at("2021-01-07T12:00:00+00:00");
    let friday = at("2021-01-08T12:00:00+00:00");
    let saturday = at("2021-01-09T12:00:00+00:00");
    let sunday = at("2021-01-10T12:00:00+00:00");
    let monday = at("2021-01-11T12:00:00+00:00");
    assert!(is_skipping_weekend(friday, monday));
    assert!(is_skipping_weekend(friday, sunday));
    assert!(is_skipping_weekend(saturday, monday));
    assert!(!is_skipping_weekend(thursday, saturday));
    assert!(!is_skipping_weekend(thursday, sunday));
    assert!(!is_skipping_weekend(friday, saturday));
    assert!(!is_skipping_weekend(monday, friday));
}

#[test]
fn weekend_gap_with_short_span_is_not_excused() {
    // Friday 23:00 to Monday 01:00 is two whole days, not three.
    let friday = at("2021-01-08T23:00:00+00:00");
    let monday = at("2021-01-11T01:00:00+00:00");
    assert!(!is_skipping_weekend(friday, monday));
}
