use namushul::duration::{
    Humanize, SECONDS_IN_A_DAY, SECONDS_IN_A_HOUR, SECONDS_IN_A_MINUTE, SECONDS_IN_A_MONTH,
    SECONDS_IN_A_WEEK, SECONDS_IN_A_YEAR,
};
use namushul::duration::humanize_seconds;
use std::time::Duration;

#[test]
fn test_humanize() {
    assert_eq!(Duration::from_micros(17).humanize(), "less than a second");
    assert_eq!(Duration::from_millis(17).humanize(), "less than a second");
    assert_eq!(Duration::from_secs(0).humanize(), "less than a second");
    assert_eq!(Duration::from_secs(1).humanize(), "a second");
    assert_eq!(Duration::from_secs(17).humanize(), "17 seconds");
    assert_eq!(Duration::from_secs(59).humanize(), "59 seconds");
    assert_eq!(Duration::from_secs(60).humanize(), "a minute");
    assert_eq!(Duration::from_secs(61).humanize(), "a minute");
    assert_eq!(Duration::from_secs(119).humanize(), "a minute");
    assert_eq!(Duration::from_secs(120).humanize(), "2 minutes");
    assert_eq!(Duration::from_secs(17 * SECONDS_IN_A_MINUTE).humanize(), "17 minutes");
    assert_eq!(Duration::from_secs(1 * SECONDS_IN_A_HOUR).humanize(), "an hour");
    assert_eq!(Duration::from_secs(17 * SECONDS_IN_A_HOUR).humanize(), "17 hours");
    assert_eq!(Duration::from_secs(1 * SECONDS_IN_A_DAY).humanize(), "a day");
    assert_eq!(Duration::from_secs(5 * SECONDS_IN_A_DAY).humanize(), "5 days");
    assert_eq!(Duration::from_secs(1 * SECONDS_IN_A_WEEK).humanize(), "a week");
    assert_eq!(Duration::from_secs(3 * SECONDS_IN_A_WEEK).humanize(), "3 weeks");
    assert_eq!(Duration::from_secs(1 * SECONDS_IN_A_MONTH).humanize(), "a month");
    assert_eq!(Duration::from_secs(3 * SECONDS_IN_A_MONTH).humanize(), "3 months");
    assert_eq!(Duration::from_secs(1 * SECONDS_IN_A_YEAR).humanize(), "a year");
    assert_eq!(Duration::from_secs(3 * SECONDS_IN_A_YEAR).humanize(), "3 years");
}

#[test]
fn humanize_large_counts() {
    assert_eq!(humanize_seconds(1234 * SECONDS_IN_A_YEAR), "1234 years");
    assert_eq!(humanize_seconds(u64::MAX), "584942417355 years");
    assert_eq!(humanize_seconds(2 * SECONDS_IN_A_HOUR - 1), "an hour");
}
