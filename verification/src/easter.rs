//! The date of Easter Sunday in the Gregorian calendar.

use crate::calendar::{
    day_of_year, days_before_year, is_calendar_date, is_leap_year, is_representable,
    lemma_days_before_month, lemma_leap_days, weekday_of, CalendarDate, Weekday,
};
use crate::error::HolidayError;
use vstd::prelude::*;

verus! {

/// The first year for which Easter is computed.
pub const FIRST_YEAR: i32 = 1583;

/// The last year for which Easter is computed.
pub const LAST_YEAR: i32 = 9999;

/// Whether Easter is computed for `year`.
pub open spec fn has_easter(year: int) -> bool {
    FIRST_YEAR <= year <= LAST_YEAR
}

/// The month and the day of Easter Sunday.
#[derive(Clone, Copy, Debug, PartialEq, Eq, Structural)]
pub struct EasterDate {
    /// The month: 3 for March, 4 for April.
    pub month: u32,
    /// The day of the month.
    pub day: u32,
}

/// The number of days from the 21st of March to the Paschal full moon of
/// `year`, between 0 and 29.
pub open spec fn paschal_moon_offset(year: int) -> int {
    let a = year % 19;
    let b = year / 100;
    let d = b / 4;
    let f = (b + 8) / 25;
    let g = (b - f + 1) / 3;
    (19 * a + b - d - g + 15) % 30
}

/// One less than the number of days from the Paschal full moon of `year` to
/// the Sunday after it, between 0 and 6.
pub open spec fn sunday_offset(year: int) -> int {
    let b = year / 100;
    let c = year % 100;
    let e = b % 4;
    let i = c / 4;
    let k = c % 4;
    (32 + 2 * e + 2 * i - paschal_moon_offset(year) - k) % 7
}

/// Easter Sunday of `year` as month and day, by the anonymous Gregorian
/// algorithm: the Sunday after the Paschal full moon, with the two customary
/// exceptions that move it a week earlier.
pub open spec fn easter_sunday(year: int) -> (int, int) {
    let a = year % 19;
    let h = paschal_moon_offset(year);
    let l = sunday_offset(year);
    let m = (a + 11 * h + 22 * l) / 451;
    let n = h + l - 7 * m + 114;
    (n / 31, n % 31 + 1)
}

/// Easter Sunday's place in its year, counted from 1.
pub open spec fn spec_easter_ordinal(year: int) -> int {
    day_of_year(year, easter_sunday(year).0, easter_sunday(year).1)
}

impl EasterDate {
    /// The month and day as a pair of integers.
    pub open spec fn pair(self) -> (int, int) {
        (self.month as int, self.day as int)
    }

    /// The date lies between the 22nd of March and the 25th of April.
    pub open spec fn is_valid(self) -> bool {
        (self.month == 3 && 22 <= self.day <= 31) || (self.month == 4 && 1 <= self.day <= 25)
    }

    /// Whether `year` has this month and day, and a `CalendarDate` can hold
    /// the date.
    pub open spec fn is_date_in(self, year: int) -> bool {
        is_representable(year, self.month as int, self.day as int)
    }

    /// The place of this month and day in `year`, counted from 1 for the
    /// first of January; an error where `year` has no such day.
    pub fn ordinal_in(&self, year: i32) -> (r: Result<u32, HolidayError>)
        ensures
            match r {
                Ok(ordinal) => self.is_date_in(year as int) && ordinal == day_of_year(
                    year as int,
                    self.month as int,
                    self.day as int,
                ),
                Err(error) => !self.is_date_in(year as int) && error
                    == HolidayError::EasterNotADate,
            },
    {
        match CalendarDate::from_ymd(year, self.month, self.day) {
            Some(date) => Ok(date.ordinal),
            None => Err(HolidayError::EasterNotADate),
        }
    }
}

/// An error of `computus`, which holds the year that it refused.
#[verifier::external_type_specification]
#[verifier::external_body]
pub struct ExOutOfRangeErr(computus::OutOfRangeErr);

/// Calls `computus::gregorian`.
///
/// Trusted: the call succeeds exactly for the years from 1583 to 9999, and
/// the month and day that it then gives are those of `easter_sunday`, whose
/// steps are the ones that `computus` takes, on numbers that are never
/// negative in those years.
#[verifier::external_body]
fn gregorian(year: i32) -> (r: Result<EasterDate, computus::OutOfRangeErr>)
    ensures
        r.is_ok() == has_easter(year as int),
        r matches Ok(date) ==> date.pair() == easter_sunday(year as int),
{
    match computus::gregorian(year) {
        Ok(date) => Ok(EasterDate { month: date.month, day: date.day }),
        Err(error) => Err(error),
    }
}

/// Easter Sunday of `year`, for the years from `FIRST_YEAR` to `LAST_YEAR`.
pub fn easter_date(year: i32) -> (r: Result<EasterDate, HolidayError>)
    ensures
        match r {
            Ok(date) => has_easter(year as int) && date.pair() == easter_sunday(year as int)
                && date.is_valid(),
            Err(error) => !has_easter(year as int) && error == HolidayError::EasterOutOfRange,
        },
{
    match gregorian(year) {
        Ok(date) => {
            proof {
                lemma_easter_sunday_range(year as int);
            }
            Ok(date)
        },
        Err(_) => Err(HolidayError::EasterOutOfRange),
    }
}

/// Easter Sunday's place in `year`, counted from 1 for the first of January,
/// for the years from `FIRST_YEAR` to `LAST_YEAR`.
pub fn easter_ordinal(year: i32) -> (r: Result<u32, HolidayError>)
    ensures
        match r {
            Ok(ordinal) => has_easter(year as int) && ordinal == spec_easter_ordinal(year as int),
            Err(error) => !has_easter(year as int) && error == HolidayError::EasterOutOfRange,
        },
{
    match easter_date(year) {
        Ok(date) => {
            proof {
                lemma_easter_sunday_range(year as int);
                lemma_easter_ordinal_range(year as int);
            }
            date.ordinal_in(year)
        },
        Err(error) => Err(error),
    }
}

/// Easter Sunday lies between the 22nd of March and the 25th of April.
pub proof fn lemma_easter_sunday_range(year: int)
    requires
        has_easter(year),
    ensures
        easter_sunday(year).0 == 3 || easter_sunday(year).0 == 4,
        easter_sunday(year).0 == 3 ==> 22 <= easter_sunday(year).1 <= 31,
        easter_sunday(year).0 == 4 ==> 1 <= easter_sunday(year).1 <= 25,
        is_calendar_date(year, easter_sunday(year).0, easter_sunday(year).1),
{
}

/// Easter Sunday is at the earliest the 81st and at the latest the 116th day
/// of its year.
pub proof fn lemma_easter_ordinal_range(year: int)
    requires
        has_easter(year),
    ensures
        81 <= spec_easter_ordinal(year) <= 116,
{
    lemma_easter_sunday_range(year);
    lemma_days_before_month(year, easter_sunday(year).0);
}

/// Easter Sunday's place in its year, written with the numbers from which
/// `easter_sunday` is made: the 22nd of March is day 81 of a common year.
proof fn lemma_easter_ordinal_sum(year: int)
    requires
        has_easter(year),
    ensures
        spec_easter_ordinal(year) == paschal_moon_offset(year) + sunday_offset(year) - 7 * ((year
            % 19 + 11 * paschal_moon_offset(year) + 22 * sunday_offset(year)) / 451) + 81 + (
        if is_leap_year(year) {
            1int
        } else {
            0
        }),
{
    lemma_easter_sunday_range(year);
    lemma_days_before_month(year, easter_sunday(year).0);
}

/// The sum that decides the weekday of Easter Sunday leaves 6 when divided
/// by 7. The year is `400 * q + 100 * e + 4 * i + k`, `leap_days` counts its
/// leap days, and `t` is the quotient that `sunday_offset` drops.
proof fn lemma_sunday_sum(q: int, e: int, i: int, k: int, h: int, m: int, t: int)
    ensures
        ({
            let year = 400 * q + 100 * e + 4 * i + k;
            let leap_days = 97 * q + 24 * e + i;
            let l = 32 + 2 * e + 2 * i - h - k - 7 * t;
            (365 * (year - 1) + leap_days + h + l - 7 * m + 80) % 7 == 6
        }),
{
    let year = 400 * q + 100 * e + 4 * i + k;
    let leap_days = 97 * q + 24 * e + i;
    let l = 32 + 2 * e + 2 * i - h - k - 7 * t;
    let sum = 365 * (year - 1) + leap_days + h + l - 7 * m + 80;
    let weeks = 20871 * q + 5218 * e + 209 * i + 52 * k - t - m - 37;
    assert(sum == 7 * weeks + 6);
}

/// Easter Sunday falls on a Sunday.
pub proof fn lemma_easter_sunday_is_a_sunday(year: int)
    requires
        has_easter(year),
    ensures
        weekday_of(year, easter_sunday(year).0, easter_sunday(year).1) == Weekday::Sun,
{
    let h = paschal_moon_offset(year);
    let l = sunday_offset(year);
    let m = (year % 19 + 11 * h + 22 * l) / 451;
    let b = year / 100;
    let c = year % 100;
    let q = b / 4;
    let e = b % 4;
    let i = c / 4;
    let k = c % 4;
    let t = (32 + 2 * e + 2 * i - h - k) / 7;
    assert(year == 400 * q + 100 * e + 4 * i + k);
    assert(l == 32 + 2 * e + 2 * i - h - k - 7 * t);
    lemma_sunday_sum(q, e, i, k, h, m, t);
    lemma_easter_ordinal_sum(year);
    lemma_leap_days(year);
    assert(year / 4 - year / 100 + year / 400 == 97 * q + 24 * e + i);
}

} // verus!
