//! Bank holidays of the United States: a place kept for a rule set that is
//! not written yet. Every query fails, so that no caller takes a missing
//! rule set for the answer "no holiday".

use crate::calendar::CalendarDate;
use crate::error::HolidayError;
use vstd::prelude::*;

verus! {

/// What a query returns: the rule set is missing, for every date.
pub open spec fn holiday(date: CalendarDate) -> Result<bool, HolidayError> {
    Err(HolidayError::NotImplemented)
}

/// Whether a date is a bank holiday of the United States. There is no rule
/// set yet: the call fails with `HolidayError::NotImplemented` on every date.
pub fn is_bankholiday(date: &CalendarDate) -> (r: Result<bool, HolidayError>)
    ensures
        r == holiday(*date),
{
    Err(HolidayError::NotImplemented)
}

/// A date that can be asked whether it is a bank holiday.
pub trait BankHoliday {
    /// What `is_bankholiday` returns.
    spec fn bank_holiday(&self) -> Result<bool, HolidayError>;

    /// Whether the date is a bank holiday of the United States.
    fn is_bankholiday(&self) -> (r: Result<bool, HolidayError>)
        ensures
            r == self.bank_holiday(),
    ;
}

impl BankHoliday for CalendarDate {
    open spec fn bank_holiday(&self) -> Result<bool, HolidayError> {
        holiday(*self)
    }

    fn is_bankholiday(&self) -> (r: Result<bool, HolidayError>) {
        is_bankholiday(self)
    }
}

} // verus!
