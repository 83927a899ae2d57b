//! Observed public holidays, decided from a calendar date.
//!
//! The crate answers one question: is a given day a public holiday in a given
//! jurisdiction? The answer is built from the date of Easter Sunday, a layered
//! set of weekday rules and a fixed table of one-off exceptions.

use crate::calendar::CalendarDate;
use crate::error::HolidayError;
use vstd::prelude::*;

pub mod calendar;
pub mod easter;
pub mod error;
pub mod uk;
pub mod us;

verus! {

/// The jurisdictions that can be asked about.
#[derive(Clone, Copy, Debug, PartialEq, Eq, Structural)]
pub enum Jurisdiction {
    /// The United Kingdom.
    Uk,
    /// The United States, whose rule set is not written yet.
    Us,
}

/// What `is_holiday` returns: the answer of the jurisdiction's own rule set.
pub open spec fn holiday(date: CalendarDate, jurisdiction: Jurisdiction) -> Result<
    bool,
    HolidayError,
> {
    match jurisdiction {
        Jurisdiction::Uk => uk::holiday(date),
        Jurisdiction::Us => us::holiday(date),
    }
}

/// Whether a date is a public holiday in a jurisdiction.
pub fn is_holiday(date: &CalendarDate, jurisdiction: Jurisdiction) -> (r: Result<
    bool,
    HolidayError,
>)
    ensures
        r == holiday(*date, jurisdiction),
{
    match jurisdiction {
        Jurisdiction::Uk => uk::is_bankholiday(date),
        Jurisdiction::Us => us::is_bankholiday(date),
    }
}

} // verus!
