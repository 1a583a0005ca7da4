use chrono::NaiveDateTime;
use time_left::day_left::{day_left_from, TimeLeft};
use time_left::time_point::TimePoint;

fn create_time_from(datetime: &str) -> TimePoint {
    let t: NaiveDateTime = NaiveDateTime::parse_from_str(datetime, "%Y-%m-%d %H:%M:%S").unwrap();
    TimePoint::from_millis(t.and_utc().timestamp_millis())
}

fn as_decimal(units: i128) -> f64 {
    units as f64 / 1000.0
}

#[test]
fn given_last_second_of_day_when_get_day_left_then_returns_zero() {
    let expected = 0.0;

    let actual = as_decimal(TimeLeft::new(create_time_from("2015-09-05 23:59:59")).get_day_left().unwrap());

    assert_eq!(expected, actual);
}

#[test]
fn given_first_second_of_day_when_get_day_left_then_returns_one() {
    let expected = 1.0;

    let actual = as_decimal(TimeLeft::new(create_time_from("2023-01-01 00:00:00")).get_day_left().unwrap());

    assert_eq!(expected, actual);
}

#[test]
fn given_middle_of_day_when_get_day_left_then_returns_half() {
    let expected = 0.5;

    let actual = as_decimal(TimeLeft::new(create_time_from("2023-01-01 12:00:00")).get_day_left().unwrap());

    assert_eq!(expected, actual);
}

#[test]
fn given_arbitrary_time_of_day_when_get_day_left_then_returns_correct() {
    let expected = 0.436;

    let actual = as_decimal(TimeLeft::new(create_time_from("2023-01-01 13:31:45")).get_day_left().unwrap());

    assert_eq!(expected, actual);
}

#[test]
fn sub_second_part_is_dropped() {
    let t = create_time_from("2015-09-05 23:59:59");
    let late = TimeLeft::new(TimePoint::from_millis(t.millis() + 999));
    assert_eq!(late.get_day_left(), Some(0));
}

#[test]
fn day_left_before_the_epoch() {
    assert_eq!(TimeLeft::new(TimePoint::from_millis(-1)).get_day_left(), Some(0));
    assert_eq!(TimeLeft::new(TimePoint::from_millis(-86_400_000)).get_day_left(), Some(1000));
    let t = create_time_from("1969-12-31 06:00:00");
    assert_eq!(TimeLeft::new(t).get_day_left(), Some(750));
}

#[test]
fn day_left_outside_the_calendar_is_none() {
    assert_eq!(TimeLeft::new(TimePoint::from_millis(i64::MAX)).get_day_left(), None);
    assert_eq!(TimeLeft::new(TimePoint::from_millis(i64::MIN)).get_day_left(), None);
}

#[test]
fn day_left_from_rounds_the_ratio() {
    assert_eq!(day_left_from(48705, 86400), 436);
    assert_eq!(day_left_from(0, 86400), 1000);
    assert_eq!(day_left_from(86357, 86400), 0);
    assert_eq!(day_left_from(86356, 86400), 1);
}

#[test]
fn unix_seconds_round_down() {
    assert_eq!(TimePoint::from_millis(1999).unix_seconds(), 1);
    assert_eq!(TimePoint::from_millis(-1).unix_seconds(), -1);
    assert_eq!(TimePoint::from_millis(-1000).unix_seconds(), -1);
    assert_eq!(TimePoint::from_millis(-1001).unix_seconds(), -2);
    assert_eq!(TimePoint::from_millis(i64::MIN).unix_seconds(), -9_223_372_036_854_776);
}

#[test]
fn default_reads_the_clock() {
    assert!(TimeLeft::default().get_day_left().is_some());
}
