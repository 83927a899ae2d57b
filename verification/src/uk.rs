//! Bank holidays of the United Kingdom.
//!
//! A date is first looked up in a table of one-off exceptions. A date that
//! the table does not hold is judged by rules that depend on its weekday:
//! fixed days, Mondays that stand in for a day lost to a weekend, and the
//! two days around Easter Sunday. Where several readings of the rules are in
//! use, this module takes the one that asks for Good Friday to be a Friday
//! and for both Easter days to lie in March or April.

use crate::calendar::{lemma_days_before_month, lemma_weekday_shift, CalendarDate, Weekday};
use crate::easter::{
    easter_ordinal, easter_sunday, has_easter, lemma_easter_ordinal_range,
    lemma_easter_sunday_is_a_sunday, spec_easter_ordinal,
};
use crate::error::HolidayError;
use vstd::prelude::*;

verus! {

/// The one-off exceptions: for a year, month and day, whether the day was a
/// holiday, whatever the rules say.
pub open spec fn exceptions() -> Map<(int, int, int), bool> {
    map![
        (1995int, 5int, 1int) => false,
        (1995int, 5int, 8int) => true,
        (1999int, 12int, 31int) => true,
        (2002int, 5int, 27int) => false,
        (2002int, 6int, 3int) => true,
        (2002int, 6int, 4int) => true,
        (2011int, 4int, 29int) => true,
        (2012int, 5int, 28int) => false,
        (2012int, 6int, 4int) => true,
        (2012int, 6int, 5int) => true,
        (2020int, 5int, 4int) => false,
        (2020int, 5int, 8int) => true,
        (2022int, 5int, 30int) => false,
        (2022int, 6int, 2int) => true,
        (2022int, 6int, 3int) => true,
        (2022int, 9int, 19int) => true,
    ]
}

/// What the table of exceptions says of a day, if it holds the day.
pub open spec fn spec_exception(year: int, month: int, day: int) -> Option<bool> {
    if exceptions().contains_key((year, month, day)) {
        Some(exceptions()[(year, month, day)])
    } else {
        None
    }
}

/// Looks a day up in the table of exceptions.
pub fn exception(year: i32, month: u32, day: u32) -> (r: Option<bool>)
    ensures
        r == spec_exception(year as int, month as int, day as int),
{
    match (year, month, day) {
        (1995, 5, 1) => Some(false),  // moved for VE Day
        (1995, 5, 8) => Some(true),
        (1999, 12, 31) => Some(true),  // extra for the millennium
        (2002, 5, 27) => Some(false),  // moved for the Golden Jubilee
        (2002, 6, 3) => Some(true),
        (2002, 6, 4) => Some(true),  // extra for the Golden Jubilee
        (2011, 4, 29) => Some(true),  // extra for the royal wedding
        (2012, 5, 28) => Some(false),  // moved for the Diamond Jubilee
        (2012, 6, 4) => Some(true),
        (2012, 6, 5) => Some(true),  // extra for the Diamond Jubilee
        (2020, 5, 4) => Some(false),  // moved for VE Day
        (2020, 5, 8) => Some(true),
        (2022, 5, 30) => Some(false),  // moved for the Platinum Jubilee
        (2022, 6, 2) => Some(true),
        (2022, 6, 3) => Some(true),  // extra for the Platinum Jubilee
        (2022, 9, 19) => Some(true),  // extra for the state funeral
        _ => None,
    }
}

/// New Year's Day itself.
pub open spec fn spec_new_years_day(month: int, day: int) -> bool {
    month == 1 && day == 1
}

/// New Year's Day, or the Monday that stands in for it.
pub open spec fn spec_new_years_substitute(month: int, day: int) -> bool {
    month == 1 && day <= 3
}

/// The first seven days of May, which hold the early May bank holiday.
pub open spec fn spec_early_may(month: int, day: int) -> bool {
    month == 5 && day <= 7
}

/// The last seven days of May, which hold the spring bank holiday.
pub open spec fn spec_spring(month: int, day: int) -> bool {
    month == 5 && 31 - 7 < day
}

/// The last seven days of August, which hold the summer bank holiday.
pub open spec fn spec_summer(month: int, day: int) -> bool {
    month == 8 && 31 - 7 < day
}

/// Christmas Day and Boxing Day. On a Monday and on a Tuesday the two days
/// after them count as well, to make up for a day lost to the weekend.
pub open spec fn spec_christmas_or_boxing_day(weekday: Weekday, month: int, day: int) -> bool {
    month == 12 && (if weekday == Weekday::Mon || weekday == Weekday::Tue {
        25 <= day < 29
    } else {
        25 <= day < 27
    })
}

/// Whether the rules look at Easter for this date: on a Monday and on a
/// Friday in March or April.
pub open spec fn needs_easter(date: CalendarDate) -> bool {
    (date.weekday == Weekday::Mon || date.weekday == Weekday::Fri) && (date.month == 3
        || date.month == 4)
}

/// The rules that do not depend on Easter: on a Monday the five windows, from
/// Tuesday to Friday New Year's Day and Christmas, at the weekend nothing.
pub open spec fn fixed_rule(date: CalendarDate) -> bool {
    let month = date.month as int;
    let day = date.day as int;
    match date.weekday {
        Weekday::Sat | Weekday::Sun => false,
        Weekday::Mon => spec_new_years_substitute(month, day) || spec_early_may(month, day)
            || spec_spring(month, day) || spec_summer(month, day) || spec_christmas_or_boxing_day(
            date.weekday,
            month,
            day,
        ),
        _ => spec_new_years_day(month, day) || spec_christmas_or_boxing_day(
            date.weekday,
            month,
            day,
        ),
    }
}

/// The rules around Easter, for a date on which `needs_easter` holds and a
/// year whose Easter Sunday is day `easter` of the year: the Monday that
/// follows Easter Sunday, and the Friday two days before it.
pub open spec fn easter_rule(date: CalendarDate, easter: int) -> bool {
    if date.weekday == Weekday::Mon {
        easter + 1 == date.ordinal
    } else {
        easter == date.ordinal + 2
    }
}

/// Whether a date is a bank holiday. The table of exceptions decides where
/// it holds the date. Otherwise the fixed rules decide, and after them the
/// rules around Easter, which have no answer outside the years for which
/// Easter is computed.
pub open spec fn holiday(date: CalendarDate) -> Result<bool, HolidayError> {
    match spec_exception(date.year as int, date.month as int, date.day as int) {
        Some(forced) => Ok(forced),
        None => if fixed_rule(date) {
            Ok(true)
        } else if !needs_easter(date) {
            Ok(false)
        } else if has_easter(date.year as int) {
            Ok(easter_rule(date, spec_easter_ordinal(date.year as int)))
        } else {
            Err(HolidayError::EasterOutOfRange)
        },
    }
}

/// Whether a month and day are New Year's Day.
pub fn new_years_day(month: u32, day: u32) -> (r: bool)
    ensures
        r == spec_new_years_day(month as int, day as int),
{
    month == 1 && day == 1
}

/// Whether a month and day lie in the first three days of January.
pub fn new_years_substitute(month: u32, day: u32) -> (r: bool)
    ensures
        r == spec_new_years_substitute(month as int, day as int),
{
    month == 1 && day <= 3
}

/// Whether a month and day lie in the first seven days of May.
pub fn early_may(month: u32, day: u32) -> (r: bool)
    ensures
        r == spec_early_may(month as int, day as int),
{
    month == 5 && day <= 7
}

/// Whether a month and day lie in the last seven days of May.
pub fn spring(month: u32, day: u32) -> (r: bool)
    ensures
        r == spec_spring(month as int, day as int),
{
    month == 5 && 31 - 7 < day
}

/// Whether a month and day lie in the last seven days of August.
pub fn summer(month: u32, day: u32) -> (r: bool)
    ensures
        r == spec_summer(month as int, day as int),
{
    month == 8 && 31 - 7 < day
}

/// Whether a month and day lie in the days kept for Christmas and Boxing Day
/// on the given weekday.
pub fn christmas_or_boxing_day(weekday: Weekday, month: u32, day: u32) -> (r: bool)
    ensures
        r == spec_christmas_or_boxing_day(weekday, month as int, day as int),
{
    month == 12 && match weekday {
        Weekday::Mon | Weekday::Tue => day >= 25 && day < 29,
        _ => day >= 25 && day < 27,
    }
}

/// Whether a date is a bank holiday of the United Kingdom.
///
/// The only dates without an answer are the Mondays and Fridays of March and
/// April in a year for which Easter is not computed.
pub fn is_bankholiday(date: &CalendarDate) -> (r: Result<bool, HolidayError>)
    ensures
        r == holiday(*date),
{
    let weekday = date.weekday;
    let (year, month, day) = (date.year, date.month, date.day);
    match exception(year, month, day) {
        Some(forced) => {
            return Ok(forced);
        },
        None => {},
    }
    match weekday {
        Weekday::Sat | Weekday::Sun => Ok(false),
        Weekday::Mon => {
            if new_years_substitute(month, day) || early_may(month, day) || spring(month, day)
                || summer(month, day) || christmas_or_boxing_day(weekday, month, day) {
                Ok(true)
            } else if month == 3 || month == 4 {
                match easter_ordinal(year) {
                    Ok(easter) => {
                        proof {
                            lemma_easter_ordinal_range(year as int);
                        }
                        Ok(easter + 1 == date.ordinal)
                    },
                    Err(error) => Err(error),
                }
            } else {
                Ok(false)
            }
        },
        _ => {
            if new_years_day(month, day) || christmas_or_boxing_day(weekday, month, day) {
                Ok(true)
            } else if weekday == Weekday::Fri && (month == 3 || month == 4) {
                match easter_ordinal(year) {
                    Ok(easter) => {
                        proof {
                            lemma_easter_ordinal_range(year as int);
                        }
                        Ok(easter - 2 == date.ordinal)
                    },
                    Err(error) => Err(error),
                }
            } else {
                Ok(false)
            }
        },
    }
}

/// A date that can be asked whether it is a bank holiday.
pub trait BankHoliday {
    /// What `is_bankholiday` returns.
    spec fn bank_holiday(&self) -> Result<bool, HolidayError>;

    /// Whether the date is a bank holiday of the United Kingdom.
    fn is_bankholiday(&self) -> (r: Result<bool, HolidayError>)
        ensures
            r == self.bank_holiday(),
    ;
}

impl BankHoliday for CalendarDate {
    open spec fn bank_holiday(&self) -> Result<bool, HolidayError> {
        holiday(*self)
    }

    fn is_bankholiday(&self) -> (r: Result<bool, HolidayError>) {
        is_bankholiday(self)
    }
}

/// A date that the table of exceptions holds is a holiday exactly if the
/// table says so, whatever its weekday and whatever the rules would say.
pub proof fn lemma_exception_wins(date: CalendarDate, forced: bool)
    requires
        spec_exception(date.year as int, date.month as int, date.day as int) == Some(forced),
    ensures
        holiday(date) == Ok::<bool, HolidayError>(forced),
{
}

/// A Saturday or Sunday that the table of exceptions does not hold is no
/// holiday.
pub proof fn lemma_weekend_is_no_holiday(date: CalendarDate)
    requires
        date.weekday.is_weekend(),
        spec_exception(date.year as int, date.month as int, date.day as int) is None,
    ensures
        holiday(date) == Ok::<bool, HolidayError>(false),
{
}

/// Every date has an answer in the years for which Easter is computed.
pub proof fn lemma_answer_in_easter_years(date: CalendarDate)
    requires
        has_easter(date.year as int),
    ensures
        holiday(date) is Ok,
{
}

/// A date has no answer exactly if the table of exceptions does not hold it,
/// the rules look at Easter for it, and Easter is not computed for its year.
pub proof fn lemma_no_answer(date: CalendarDate)
    ensures
        holiday(date) is Err <==> spec_exception(
            date.year as int,
            date.month as int,
            date.day as int,
        ) is None && needs_easter(date) && !has_easter(date.year as int),
        holiday(date) is Err ==> holiday(date) == Err::<bool, HolidayError>(
            HolidayError::EasterOutOfRange,
        ),
{
}

/// On a date that exists, the days next to Easter Sunday lie in March or
/// April by themselves: a rule that compares the day of the year with Easter
/// decides the same with and without a test of the month.
pub proof fn lemma_easter_days_in_march_or_april(date: CalendarDate)
    requires
        date.is_valid(),
        has_easter(date.year as int),
        date.ordinal == spec_easter_ordinal(date.year as int) + 1 || date.ordinal + 2
            == spec_easter_ordinal(date.year as int),
    ensures
        date.month == 3 || date.month == 4,
{
    lemma_easter_ordinal_range(date.year as int);
    lemma_days_before_month(date.year as int, date.month as int);
}

/// The Friday two days before Easter Sunday and the Monday after it are
/// holidays, unless the table of exceptions says otherwise.
pub proof fn lemma_good_friday_and_easter_monday(date: CalendarDate)
    requires
        date.is_valid(),
        has_easter(date.year as int),
        spec_exception(date.year as int, date.month as int, date.day as int) is None,
        (date.weekday == Weekday::Fri && date.ordinal + 2 == spec_easter_ordinal(
            date.year as int,
        )) || (date.weekday == Weekday::Mon && date.ordinal == spec_easter_ordinal(
            date.year as int,
        ) + 1),
    ensures
        holiday(date) == Ok::<bool, HolidayError>(true),
{
    lemma_easter_days_in_march_or_april(date);
}

/// On a date that exists, the day two days before Easter Sunday is a Friday,
/// and the day after Easter Sunday is a Monday.
pub proof fn lemma_weekdays_around_easter(date: CalendarDate)
    requires
        date.is_valid(),
        has_easter(date.year as int),
    ensures
        date.ordinal + 2 == spec_easter_ordinal(date.year as int) ==> date.weekday
            == Weekday::Fri,
        date.ordinal == spec_easter_ordinal(date.year as int) + 1 ==> date.weekday
            == Weekday::Mon,
{
    let year = date.year as int;
    let (month, day) = easter_sunday(year);
    lemma_easter_sunday_is_a_sunday(year);
    if date.ordinal + 2 == spec_easter_ordinal(year) {
        lemma_weekday_shift(year, month, day, date.month as int, date.day as int, -2);
    }
    if date.ordinal == spec_easter_ordinal(year) + 1 {
        lemma_weekday_shift(year, month, day, date.month as int, date.day as int, 1);
    }
}

/// On the dates that exist, in the years for which Easter is computed, the
/// tests of the month and of the Friday add nothing: a date outside the table
/// of exceptions is a holiday exactly if a fixed rule holds, or it is the
/// Monday after Easter Sunday, or it is a working day from Tuesday to Friday
/// two days before Easter Sunday.
pub proof fn lemma_rules_without_guards(date: CalendarDate)
    requires
        date.is_valid(),
        has_easter(date.year as int),
        spec_exception(date.year as int, date.month as int, date.day as int) is None,
    ensures
        holiday(date) == Ok::<bool, HolidayError>(
            fixed_rule(date) || (date.weekday == Weekday::Mon && date.ordinal
                == spec_easter_ordinal(date.year as int) + 1) || (!date.weekday.is_weekend()
                && date.weekday != Weekday::Mon && date.ordinal + 2 == spec_easter_ordinal(
                date.year as int,
            )),
        ),
{
    lemma_weekdays_around_easter(date);
    if date.ordinal == spec_easter_ordinal(date.year as int) + 1 || date.ordinal + 2
        == spec_easter_ordinal(date.year as int) {
        lemma_easter_days_in_march_or_april(date);
    }
}

/// The table of exceptions holds sixteen days, each once.
pub proof fn lemma_exceptions_are_sixteen_days()
    ensures
        exceptions().dom().finite(),
        exceptions().dom().len() == 16,
{
}

} // verus!
