//! The calendar conversions on concrete dates.

use kdb_model::calendar::{dj, ymd};

#[test]
fn days_since_epoch_of_2020_04_01_is_7396() {
    assert_eq!(ymd(2020, 4, 1), 7396);
}

#[test]
fn day_7396_is_20200401() {
    assert_eq!(dj(7396), 20200401);
}

#[test]
fn epoch_boundaries() {
    assert_eq!(ymd(2000, 1, 1), 0);
    assert_eq!(dj(0), 20000101);
    assert_eq!(ymd(1999, 12, 25), -7);
    assert_eq!(dj(-7), 19991225);
    assert_eq!(ymd(2000, 12, 31), 365);
    assert_eq!(dj(365), 20001231);
}

#[test]
fn leap_year_handling() {
    // 2000 is a leap year; 1900 and 2100 are not; 2004 is.
    assert_eq!(ymd(2000, 3, 1) - ymd(2000, 2, 1), 29);
    assert_eq!(ymd(1900, 3, 1) - ymd(1900, 2, 1), 28);
    assert_eq!(ymd(2100, 3, 1) - ymd(2100, 2, 1), 28);
    assert_eq!(ymd(2004, 3, 1) - ymd(2004, 2, 1), 29);
    assert_eq!(dj(ymd(2004, 2, 29)), 20040229);
}

#[test]
fn round_trips_across_the_supported_range() {
    for &(y, m, d) in &[
        (1709, 1, 1),
        (1776, 7, 4),
        (1900, 2, 28),
        (1970, 1, 1),
        (1999, 12, 31),
        (2000, 2, 29),
        (2038, 1, 19),
        (2290, 12, 31),
    ] {
        let days = ymd(y, m, d);
        assert_eq!(dj(days), y * 10000 + m * 100 + d, "date {:04}-{:02}-{:02}", y, m, d);
    }
}

#[test]
fn consecutive_days_are_consecutive() {
    // Across a month end, a year end and a leap day.
    assert_eq!(ymd(2020, 2, 29), ymd(2020, 2, 28) + 1);
    assert_eq!(ymd(2020, 3, 1), ymd(2020, 2, 29) + 1);
    assert_eq!(ymd(2021, 1, 1), ymd(2020, 12, 31) + 1);
}
