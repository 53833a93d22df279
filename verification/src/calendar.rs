//! Calendar conversions between dates and day counts.
//!
//! The epoch is 2000-01-01: day 0.  [`ymd`] turns a Gregorian date into the
//! signed day count from the epoch; [`dj`] turns a day count back into the
//! date, encoded as the familiar `yyyymmdd` integer.  Both are verified
//! against one mathematical model, [`days_from_epoch`], and
//! [`lemma_days_from_epoch_injective`] shows the model maps distinct valid
//! dates to distinct day counts, so `dj`'s result is uniquely determined.

use vstd::prelude::*;

verus! {

/// The first year the conversions accept.
pub const MIN_YEAR: i32 = 1709;

/// The last year the conversions accept.
pub const MAX_YEAR: i32 = 2290;

/// Gregorian leap year rule.
pub open spec fn is_leap(y: int) -> bool {
    y % 4 == 0 && (y % 100 != 0 || y % 400 == 0)
}

/// Days in year `y`.
pub open spec fn year_days(y: int) -> int {
    if is_leap(y) {
        366
    } else {
        365
    }
}

/// Days in month `m` of year `y`.
pub open spec fn month_days(y: int, m: int) -> int {
    if m == 2 {
        if is_leap(y) {
            29
        } else {
            28
        }
    } else if m == 4 || m == 6 || m == 9 || m == 11 {
        30
    } else {
        31
    }
}

/// A Gregorian date the conversions accept.
pub open spec fn valid_date(y: int, m: int, d: int) -> bool {
    MIN_YEAR <= y <= MAX_YEAR && 1 <= m <= 12 && 1 <= d <= month_days(y, m)
}

/// Days from the epoch to the first day of year `y`.
pub open spec fn days_to_year(y: int) -> int
    decreases
            (if y >= 2000 {
                y - 2000
            } else {
                2000 - y
            }),
{
    if y > 2000 {
        days_to_year(y - 1) + year_days(y - 1)
    } else if y < 2000 {
        days_to_year(y + 1) - year_days(y)
    } else {
        0
    }
}

/// Days from the first day of year `y` to the first day of its month `m`.
pub open spec fn days_to_month(y: int, m: int) -> int
    decreases m,
{
    if m <= 1 {
        0
    } else {
        days_to_month(y, m - 1) + month_days(y, m - 1)
    }
}

/// Days from the epoch to the date `y`-`m`-`d`.
pub open spec fn days_from_epoch(y: int, m: int, d: int) -> int {
    days_to_year(y) + days_to_month(y, m) + (d - 1)
}

/// The `yyyymmdd` encoding of a date.
pub open spec fn yyyymmdd(y: int, m: int, d: int) -> int {
    y * 10000 + m * 100 + d
}

/// One year forward moves the year start by that year's length.
pub proof fn lemma_days_to_year_step(y: int)
    ensures
        days_to_year(y + 1) == days_to_year(y) + year_days(y),
{
}

/// Year starts are strictly increasing, by at least 365 and at most 366 days
/// per year.
pub proof fn lemma_days_to_year_bounds(y1: int, y2: int)
    requires
        y1 <= y2,
    ensures
        365 * (y2 - y1) <= days_to_year(y2) - days_to_year(y1) <= 366 * (y2 - y1),
    decreases y2 - y1,
{
    if y1 < y2 {
        lemma_days_to_year_bounds(y1, y2 - 1);
        lemma_days_to_year_step(y2 - 1);
    }
}

/// Month starts within a year are strictly increasing.
pub proof fn lemma_days_to_month_bounds(y: int, m1: int, m2: int)
    requires
        1 <= m1 <= m2,
    ensures
        28 * (m2 - m1) <= days_to_month(y, m2) - days_to_month(y, m1) <= 31 * (m2 - m1),
    decreases m2 - m1,
{
    if m1 < m2 {
        lemma_days_to_month_bounds(y, m1, m2 - 1);
    }
}

/// The months of a year account for exactly its length.
pub proof fn lemma_year_total(y: int)
    ensures
        days_to_month(y, 13) == year_days(y),
{
    assert(days_to_month(y, 13) == year_days(y)) by {
        assert(days_to_month(y, 1) == 0);
        assert(days_to_month(y, 2) == days_to_month(y, 1) + month_days(y, 1));
        assert(days_to_month(y, 3) == days_to_month(y, 2) + month_days(y, 2));
        assert(days_to_month(y, 4) == days_to_month(y, 3) + 31);
        assert(days_to_month(y, 5) == days_to_month(y, 4) + 30);
        assert(days_to_month(y, 6) == days_to_month(y, 5) + 31);
        assert(days_to_month(y, 7) == days_to_month(y, 6) + 30);
        assert(days_to_month(y, 8) == days_to_month(y, 7) + 31);
        assert(days_to_month(y, 9) == days_to_month(y, 8) + 31);
        assert(days_to_month(y, 10) == days_to_month(y, 9) + 30);
        assert(days_to_month(y, 11) == days_to_month(y, 10) + 31);
        assert(days_to_month(y, 12) == days_to_month(y, 11) + 30);
        assert(days_to_month(y, 13) == days_to_month(y, 12) + 31);
    }
}

/// A valid date's day count stays within its year: at or after the year's
/// first day, before the next year's first day.
pub proof fn lemma_date_within_year(y: int, m: int, d: int)
    requires
        1 <= m <= 12,
        1 <= d <= month_days(y, m),
    ensures
        days_to_year(y) <= days_from_epoch(y, m, d) < days_to_year(y + 1),
{
    lemma_days_to_month_bounds(y, 1, m);
    lemma_days_to_month_bounds(y, m + 1, 13);
    lemma_year_total(y);
    lemma_days_to_year_step(y);
}

/// The model maps distinct valid dates to distinct day counts.
pub proof fn lemma_days_from_epoch_injective(y1: int, m1: int, d1: int, y2: int, m2: int, d2: int)
    requires
        valid_date(y1, m1, d1),
        valid_date(y2, m2, d2),
        days_from_epoch(y1, m1, d1) == days_from_epoch(y2, m2, d2),
    ensures
        y1 == y2 && m1 == m2 && d1 == d2,
{
    lemma_date_within_year(y1, m1, d1);
    lemma_date_within_year(y2, m2, d2);
    if y1 < y2 {
        lemma_days_to_year_bounds(y1 + 1, y2);
        assert(false);
    } else if y2 < y1 {
        lemma_days_to_year_bounds(y2 + 1, y1);
        assert(false);
    }
    if m1 < m2 {
        lemma_days_to_month_bounds(y1, m1 + 1, m2);
        assert(false);
    } else if m2 < m1 {
        lemma_days_to_month_bounds(y1, m2 + 1, m1);
        assert(false);
    }
}

/// Whether year `y` is a leap year.
pub fn is_leap_year(y: i32) -> (r: bool)
    requires
        y >= 1,
    ensures
        r == is_leap(y as int),
{
    y % 4 == 0 && (y % 100 != 0 || y % 400 == 0)
}

/// The number of days in year `y`.
pub fn days_in_year(y: i32) -> (r: i32)
    requires
        y >= 1,
    ensures
        r == year_days(y as int),
{
    if is_leap_year(y) {
        366
    } else {
        365
    }
}

/// The number of days in month `m` of year `y`.
pub fn days_in_month(y: i32, m: i32) -> (r: i32)
    requires
        y >= 1,
        1 <= m <= 12,
    ensures
        r == month_days(y as int, m as int),
{
    if m == 2 {
        if is_leap_year(y) {
            29
        } else {
            28
        }
    } else if m == 4 || m == 6 || m == 9 || m == 11 {
        30
    } else {
        31
    }
}

/// Convert a date to days from the epoch.
pub fn ymd(year: i32, month: i32, date: i32) -> (r: i32)
    requires
        valid_date(year as int, month as int, date as int),
    ensures
        r == days_from_epoch(year as int, month as int, date as int),
{
    let mut days: i32 = 0;
    if year >= 2000 {
        let mut y: i32 = 2000;
        while y < year
            invariant
                2000 <= y <= year <= MAX_YEAR,
                days == days_to_year(y as int),
                0 <= days <= 366 * (y - 2000),
            decreases year - y,
        {
            days = days + days_in_year(y);
            proof {
                lemma_days_to_year_step(y as int);
            }
            y = y + 1;
        }
    } else {
        let mut y: i32 = 2000;
        while y > year
            invariant
                MIN_YEAR <= year <= y <= 2000,
                days == days_to_year(y as int),
                366 * (y - 2000) <= days <= 0,
            decreases y - year,
        {
            y = y - 1;
            proof {
                lemma_days_to_year_step(y as int);
            }
            days = days - days_in_year(y);
        }
    }
    let mut m: i32 = 1;
    while m < month
        invariant
            1 <= m <= month <= 12,
            MIN_YEAR <= year <= MAX_YEAR,
            days == days_to_year(year as int) + days_to_month(year as int, m as int),
            -107000 <= days <= 107000,
        decreases month - m,
    {
        proof {
            if year >= 2000 {
                lemma_days_to_year_bounds(2000, year as int);
            } else {
                lemma_days_to_year_bounds(year as int, 2000);
            }
            lemma_days_to_month_bounds(year as int, 1, m as int + 1);
        }
        days = days + days_in_month(year, m);
        m = m + 1;
    }
    days + date - 1
}

/// Convert days from the epoch to the date's `yyyymmdd` encoding.
pub fn dj(days: i32) -> (r: i32)
    requires
        days_from_epoch(MIN_YEAR as int, 1, 1) <= days <= days_from_epoch(MAX_YEAR as int, 12, 31),
    ensures
        exists|y: int, m: int, d: int|
            valid_date(y, m, d) && days_from_epoch(y, m, d) == days && r == yyyymmdd(y, m, d),
{
    let mut y: i32 = 2000;
    let mut rem: i32 = days;
    if rem >= 0 {
        while rem >= days_in_year(y)
            invariant
                2000 <= y <= MAX_YEAR,
                days == days_to_year(y as int) + rem,
                0 <= rem,
                days_from_epoch(MIN_YEAR as int, 1, 1) <= days <= days_from_epoch(
                    MAX_YEAR as int,
                    12,
                    31,
                ),
            decreases rem,
        {
            proof {
                lemma_days_to_year_step(y as int);
                if y == MAX_YEAR {
                    lemma_year_total(MAX_YEAR as int);
                    assert(days_to_month(MAX_YEAR as int, 13) == days_to_month(MAX_YEAR as int, 12)
                        + 31);
                    assert(false);
                }
            }
            rem = rem - days_in_year(y);
            y = y + 1;
        }
    } else {
        proof {
            lemma_days_to_year_bounds(MIN_YEAR as int, 2000);
            assert(days_to_month(MIN_YEAR as int, 1) == 0);
        }
        while rem < 0
            invariant
                MIN_YEAR <= y <= 2000,
                days == days_to_year(y as int) + rem,
                rem < year_days(y as int),
                days_from_epoch(MIN_YEAR as int, 1, 1) <= days,
                -107000 <= rem,
            decreases y,
        {
            proof {
                if y == MIN_YEAR {
                    assert(days_to_month(MIN_YEAR as int, 1) == 0);
                    assert(false);
                }
                lemma_days_to_year_step(y as int - 1);
                lemma_days_to_year_bounds(MIN_YEAR as int, y as int - 1);
                assert(days_to_month(MIN_YEAR as int, 1) == 0);
            }
            y = y - 1;
            rem = rem + days_in_year(y);
        }
    }
    let mut m: i32 = 1;
    while rem >= days_in_month(y, m)
        invariant
            1 <= m <= 12,
            MIN_YEAR <= y <= MAX_YEAR,
            0 <= rem,
            days == days_to_year(y as int) + days_to_month(y as int, m as int) + rem,
            days_to_month(y as int, m as int) + rem < year_days(y as int),
        decreases rem,
    {
        proof {
            if m == 12 {
                lemma_year_total(y as int);
                assert(days_to_month(y as int, 13) == days_to_month(y as int, 12) + month_days(
                    y as int,
                    12,
                ));
                assert(false);
            }
        }
        rem = rem - days_in_month(y, m);
        m = m + 1;
    }
    let d: i32 = rem + 1;
    proof {
        assert(valid_date(y as int, m as int, d as int));
        assert(days_from_epoch(y as int, m as int, d as int) == days);
    }
    y * 10000 + m * 100 + d
}

} // verus!
