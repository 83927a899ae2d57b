//! Dates of the proleptic Gregorian calendar, as plain values.

use chrono::{Datelike, NaiveDate};
use vstd::prelude::*;

verus! {

/// The first year for which a date can be built.
pub const MIN_YEAR: i32 = -262_143;

/// The last year for which a date can be built.
pub const MAX_YEAR: i32 = 262_142;

/// The day of the week.
#[derive(Clone, Copy, Debug, PartialEq, Eq, Structural)]
pub enum Weekday {
    Mon,
    Tue,
    Wed,
    Thu,
    Fri,
    Sat,
    Sun,
}

impl Weekday {
    /// The number of days since Monday: 0 for Monday up to 6 for Sunday.
    pub open spec fn index(self) -> int {
        match self {
            Weekday::Mon => 0,
            Weekday::Tue => 1,
            Weekday::Wed => 2,
            Weekday::Thu => 3,
            Weekday::Fri => 4,
            Weekday::Sat => 5,
            Weekday::Sun => 6,
        }
    }

    /// The weekday that lies `i` days after a Monday, for `i` in `0..7`.
    pub open spec fn spec_from_index(i: int) -> Weekday {
        if i == 0 {
            Weekday::Mon
        } else if i == 1 {
            Weekday::Tue
        } else if i == 2 {
            Weekday::Wed
        } else if i == 3 {
            Weekday::Thu
        } else if i == 4 {
            Weekday::Fri
        } else if i == 5 {
            Weekday::Sat
        } else {
            Weekday::Sun
        }
    }

    /// The weekday that lies `i` days after a Monday; Sunday for 6 and above.
    pub fn from_index(i: u32) -> (r: Weekday)
        ensures
            r == Weekday::spec_from_index(i as int),
            i < 7 ==> r.index() == i,
    {
        if i == 0 {
            Weekday::Mon
        } else if i == 1 {
            Weekday::Tue
        } else if i == 2 {
            Weekday::Wed
        } else if i == 3 {
            Weekday::Thu
        } else if i == 4 {
            Weekday::Fri
        } else if i == 5 {
            Weekday::Sat
        } else {
            Weekday::Sun
        }
    }

    /// Saturday and Sunday.
    pub open spec fn spec_is_weekend(self) -> bool {
        self == Weekday::Sat || self == Weekday::Sun
    }

    /// Whether the day is a Saturday or a Sunday.
    #[verifier::when_used_as_spec(spec_is_weekend)]
    pub fn is_weekend(self) -> (r: bool)
        ensures
            r == self.spec_is_weekend(),
    {
        match self {
            Weekday::Sat | Weekday::Sun => true,
            _ => false,
        }
    }
}

/// Whether `year` has a 29th of February.
pub open spec fn is_leap_year(year: int) -> bool {
    year % 4 == 0 && (year % 100 != 0 || year % 400 == 0)
}

/// The number of days in a year: 365, or 366 in a leap year.
pub open spec fn days_in_year(year: int) -> int {
    if is_leap_year(year) {
        366
    } else {
        365
    }
}

/// The number of days in a month of a year; 0 where `month` is no month.
pub open spec fn days_in_month(year: int, month: int) -> int {
    if month == 2 {
        if is_leap_year(year) {
            29
        } else {
            28
        }
    } else if month == 4 || month == 6 || month == 9 || month == 11 {
        30
    } else if 1 <= month <= 12 {
        31
    } else {
        0
    }
}

/// The number of days of `year` that lie before the first day of `month`.
pub open spec fn days_before_month(year: int, month: int) -> int
    decreases month,
{
    if month <= 1 {
        0
    } else {
        days_before_month(year, month - 1) + days_in_month(year, month - 1)
    }
}

/// Whether the calendar has a day `day` in month `month` of `year`.
pub open spec fn is_calendar_date(year: int, month: int, day: int) -> bool {
    1 <= month <= 12 && 1 <= day <= days_in_month(year, month)
}

/// Whether the date exists and its year lies between `MIN_YEAR` and
/// `MAX_YEAR`, so that a `CalendarDate` can hold it.
pub open spec fn is_representable(year: int, month: int, day: int) -> bool {
    is_calendar_date(year, month, day) && MIN_YEAR <= year <= MAX_YEAR
}

/// The place of a day within its year, counted from 1 for the first of
/// January.
pub open spec fn day_of_year(year: int, month: int, day: int) -> int {
    days_before_month(year, month) + day
}

/// The number of days between the first of January of year 1 and the first
/// of January of `year`; negative for earlier years.
pub open spec fn days_before_year(year: int) -> int {
    365 * (year - 1) + (year - 1) / 4 - (year - 1) / 100 + (year - 1) / 400
}

/// The weekday of a date. The first of January of year 1 is a Monday, and
/// the weekdays follow each other without a gap.
pub open spec fn weekday_of(year: int, month: int, day: int) -> Weekday {
    Weekday::spec_from_index(
        (days_before_year(year) + day_of_year(year, month, day) - 1) % 7,
    )
}

/// The days that lie before each month, written out.
pub proof fn lemma_days_before_month(year: int, month: int)
    requires
        1 <= month <= 12,
    ensures
        days_before_month(year, month) == (if month == 1 {
            0int
        } else if month == 2 {
            31
        } else {
            let leap: int = if is_leap_year(year) {
                1
            } else {
                0
            };
            leap + (if month == 3 {
                59int
            } else if month == 4 {
                90
            } else if month == 5 {
                120
            } else if month == 6 {
                151
            } else if month == 7 {
                181
            } else if month == 8 {
                212
            } else if month == 9 {
                243
            } else if month == 10 {
                273
            } else if month == 11 {
                304
            } else {
                334
            })
        }),
{
    reveal_with_fuel(days_before_month, 13);
}

/// A date's place in its year lies between 1 and the length of the year.
pub proof fn lemma_day_of_year_bounds(year: int, month: int, day: int)
    requires
        is_calendar_date(year, month, day),
    ensures
        1 <= day_of_year(year, month, day) <= days_in_year(year),
{
    lemma_days_before_month(year, month);
}

/// The days before a year, together with the year's own leap day if it has
/// one, are 365 for each earlier year and one for each leap year up to and
/// with the year itself.
pub proof fn lemma_leap_days(year: int)
    ensures
        days_before_year(year) + (if is_leap_year(year) {
            1int
        } else {
            0
        }) == 365 * (year - 1) + year / 4 - year / 100 + year / 400,
{
}

/// Two days of one year that lie `shift` days apart fall on weekdays that
/// lie `shift` days apart.
pub proof fn lemma_weekday_shift(
    year: int,
    month: int,
    day: int,
    other_month: int,
    other_day: int,
    shift: int,
)
    requires
        day_of_year(year, other_month, other_day) == day_of_year(year, month, day) + shift,
    ensures
        weekday_of(year, other_month, other_day).index() == (weekday_of(year, month, day).index()
            + shift) % 7,
{
}

/// A calendar date: year, month and day, with the weekday on which it falls
/// and its place in the year.
#[derive(Clone, Copy, Debug, PartialEq, Eq, Structural)]
pub struct CalendarDate {
    /// The year; 0 is the year before year 1.
    pub year: i32,
    /// The month, from 1 for January to 12 for December.
    pub month: u32,
    /// The day of the month, from 1.
    pub day: u32,
    /// The day of the week.
    pub weekday: Weekday,
    /// The day of the year, from 1 for the first of January.
    pub ordinal: u32,
}

impl CalendarDate {
    /// The date exists, and its weekday and its place in the year are those
    /// that the calendar gives it.
    pub open spec fn is_valid(self) -> bool {
        &&& is_calendar_date(self.year as int, self.month as int, self.day as int)
        &&& self.ordinal == day_of_year(self.year as int, self.month as int, self.day as int)
        &&& self.weekday == weekday_of(self.year as int, self.month as int, self.day as int)
    }

    /// The date of the given year, month and day, if there is one and its
    /// year lies between `MIN_YEAR` and `MAX_YEAR`.
    pub fn from_ymd(year: i32, month: u32, day: u32) -> (r: Option<CalendarDate>)
        ensures
            r.is_some() == is_representable(year as int, month as int, day as int),
            r matches Some(date) ==> date.is_valid() && date.year == year && date.month == month
                && date.day == day,
    {
        match ordinal_and_weekday(year, month, day) {
            Some((ordinal, index)) => Some(
                CalendarDate { year, month, day, weekday: Weekday::from_index(index), ordinal },
            ),
            None => None,
        }
    }
}

/// Calls `NaiveDate::from_ymd_opt`, and on the date it gives `Datelike::ordinal`
/// and `Datelike::weekday` with `Weekday::num_days_from_monday`.
///
/// Trusted: a date comes back exactly for the days that the proleptic
/// Gregorian calendar has in the years from `MIN_YEAR` to `MAX_YEAR`. The
/// first number is then the day of the year, counted from 1, and the second
/// the number of days from Monday to the date's weekday.
#[verifier::external_body]
fn ordinal_and_weekday(year: i32, month: u32, day: u32) -> (r: Option<(u32, u32)>)
    ensures
        r.is_some() == is_representable(year as int, month as int, day as int),
        r matches Some(found) ==> found.0 == day_of_year(year as int, month as int, day as int),
        r matches Some(found) ==> found.1 == weekday_of(year as int, month as int, day as int).index(),
{
    match NaiveDate::from_ymd_opt(year, month, day) {
        Some(date) => Some((date.ordinal(), date.weekday().num_days_from_monday())),
        None => None,
    }
}

} // verus!
