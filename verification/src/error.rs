//! The ways in which a holiday query can fail.

use vstd::prelude::*;

verus! {

/// Why a query has no answer.
#[derive(Clone, Copy, Debug, PartialEq, Eq, Structural)]
pub enum HolidayError {
    /// The year lies outside the years for which Easter is computed.
    EasterOutOfRange,
    /// The month and day given for Easter are no date of the year.
    EasterNotADate,
    /// The jurisdiction has no rule set yet.
    NotImplemented,
}

} // verus!
