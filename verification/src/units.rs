//! Units of date and time that `date_part` and `date_trunc` understand.

use vstd::prelude::*;

verus! {

/// A named part of a date, time or interval.
#[derive(Clone, Copy, Debug, PartialEq, Eq, Structural, Hash)]
pub enum DateTimeUnits {
    Epoch,
    Millennium,
    Century,
    Decade,
    Year,
    Quarter,
    Week,
    Month,
    Hour,
    Day,
    DayOfWeek,
    DayOfYear,
    IsoDayOfWeek,
    IsoDayOfYear,
    Minute,
    Second,
    Milliseconds,
    Microseconds,
    Timezone,
    TimezoneHour,
    TimezoneMinute,
}

} // verus!
