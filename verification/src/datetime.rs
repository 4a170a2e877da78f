//! Dates, times and intervals: their arithmetic, and the calendar, which
//! the `chrono` crate keeps.

use vstd::prelude::*;
use chrono::Datelike;
use crate::datum::{Date, Interval, Time, Timestamp, MAX_DAYS, MIN_DAYS, NANOS_PER_SEC, SECS_PER_DAY};

verus! {

/// Nanoseconds in a day.
pub const NANOS_PER_DAY: i128 = 86_400_000_000_000i128;

/// The longest clock time of an interval, in nanoseconds: 2147483647 days
/// 2147483647 hours 59 minutes 59.999999 seconds.
pub const MAX_DURATION: i128 = 193_273_528_233_599_999_999_000i128;

/// The day number of January 1, 1970.
pub const EPOCH_DAYS: i32 = 719_163i32;

/// A date of the calendar: its year, its month from 1, its day of the
/// month from 1 and its day of the year from 1.
#[derive(Clone, Copy, Debug, PartialEq, Eq, Structural)]
pub struct Civil {
    pub year: i32,
    pub month: u32,
    pub day: u32,
    pub ordinal: u32,
}

/// The date of the calendar that the day with a number is.
pub uninterp spec fn civil(days: i32) -> Civil;

/// The number of the day that a year, a month and a day of the month
/// name, if they name one.
pub uninterp spec fn civil_days(year: i32, month: u32, day: u32) -> Option<i32>;

/// The year and the week of the ISO week date of the day with a number.
pub uninterp spec fn iso_week(days: i32) -> (i32, u32);

/// Asks `chrono::NaiveDate` for the year, month, day and ordinal of the
/// day that `from_num_days_from_ce_opt` gives for the number. The contract
/// claims that they are a function of the number, names it, and claims the
/// ranges that the crate documents for them.
#[verifier::external_body]
pub(crate) fn civil_of(days: i32) -> (r: Civil)
    requires
        MIN_DAYS <= days <= MAX_DAYS,
    ensures
        r == civil(days),
        1 <= r.month <= 12,
        1 <= r.day <= 31,
        1 <= r.ordinal <= 366,
        -262_143 <= r.year <= 262_142,
{
    let d = chrono::NaiveDate::from_num_days_from_ce_opt(days).unwrap();
    Civil { year: d.year(), month: d.month(), day: d.day(), ordinal: d.ordinal() }
}

/// Asks `chrono::NaiveDate::from_ymd_opt` for the date and gives the
/// number of its day. The contract claims that the outcome is a function
/// of year, month and day, names it, and claims that a number that comes
/// out lies in the range of dates.
#[verifier::external_body]
pub(crate) fn days_of_civil(year: i32, month: u32, day: u32) -> (r: Option<i32>)
    ensures
        r == civil_days(year, month, day),
        r is Some ==> MIN_DAYS <= r->0 <= MAX_DAYS,
{
    chrono::NaiveDate::from_ymd_opt(year, month, day).map(|d| d.num_days_from_ce())
}

/// Asks `chrono::NaiveDate::iso_week` for the ISO week of the day with the
/// number. The contract claims that year and week are a function of the
/// number, names it, and claims the range that the crate documents for
/// the week.
#[verifier::external_body]
pub(crate) fn iso_week_of(days: i32) -> (r: (i32, u32))
    requires
        MIN_DAYS <= days <= MAX_DAYS,
    ensures
        r == iso_week(days),
        1 <= r.1 <= 53,
{
    let w = chrono::NaiveDate::from_num_days_from_ce_opt(days).unwrap().iso_week();
    (w.year(), w.week())
}

/// The day of the week of the day with a number, Monday being 0: day 1 is
/// a Monday.
pub open spec fn weekday_from_monday(days: int) -> int {
    (days - 1) % 7
}

/// The day of the week of a date, Monday being 0.
pub fn day_of_week(d: Date) -> (r: u32)
    ensures
        r == weekday_from_monday(d.days as int),
        r < 7,
{
    let x = d.days as i64 - 1;
    let m = x % 7;
    let r = if m < 0 {
        m + 7
    } else {
        m
    };
    assert(r == (x as int) % 7) by {
        if x < 0 {
            assert((x as int) % 7 == ((-x) as int * -1) % 7);
            vstd::arithmetic::div_mod::lemma_fundamental_div_mod(x as int, 7);
        }
    }
    r as u32
}

impl Time {
    /// The time of day of a number of nanoseconds since midnight.
    pub open spec fn of_nanos(n: int) -> Time {
        Time { secs: (n / 1_000_000_000) as u32, nanos: (n % 1_000_000_000) as u32 }
    }

    /// The nanoseconds since midnight.
    pub fn to_nanos(self) -> (r: i128)
        requires
            self.wf(),
        ensures
            r == self.nanos_of_day(),
            0 <= r < NANOS_PER_DAY,
    {
        self.secs as i128 * 1_000_000_000 + self.nanos as i128
    }

    /// The time of day of a number of nanoseconds since midnight.
    pub fn from_nanos(n: i128) -> (r: Time)
        requires
            0 <= n < NANOS_PER_DAY,
        ensures
            r == Time::of_nanos(n as int),
            r.wf(),
            r.nanos_of_day() == n,
    {
        Time { secs: (n / 1_000_000_000) as u32, nanos: (n % 1_000_000_000) as u32 }
    }

    /// Midnight.
    pub fn midnight() -> (r: Time)
        ensures
            r == (Time { secs: 0, nanos: 0 }),
            r.wf(),
    {
        Time { secs: 0, nanos: 0 }
    }

    /// Whether the time lies within one day.
    pub fn is_wf(&self) -> (r: bool)
        ensures
            r == self.wf(),
    {
        self.secs < SECS_PER_DAY && self.nanos < NANOS_PER_SEC
    }
}

impl Date {
    /// Whether the day lies in the range of the calendar.
    pub fn is_wf(&self) -> (r: bool)
        ensures
            r == self.wf(),
    {
        MIN_DAYS <= self.days && self.days <= MAX_DAYS
    }

    /// The date of a year, a month and a day of the month, if there is
    /// one.
    pub fn from_ymd(year: i32, month: u32, day: u32) -> (r: Option<Date>)
        ensures
            match r {
                Some(d) => civil_days(year, month, day) == Some(d.days) && d.wf(),
                None => civil_days(year, month, day) is None,
            },
    {
        match days_of_civil(year, month, day) {
            Some(days) => Some(Date { days }),
            None => None,
        }
    }
}

impl Timestamp {
    /// The nanoseconds from midnight before day 0 to the timestamp.
    pub open spec fn nanos(self) -> int {
        self.date.days as int * 86_400_000_000_000 + self.time.nanos_of_day()
    }

    /// The timestamp of a number of nanoseconds, if its day lies in the
    /// range of the calendar.
    pub open spec fn of_nanos(n: int) -> Option<Timestamp> {
        let days = n / 86_400_000_000_000;
        if MIN_DAYS <= days <= MAX_DAYS {
            Some(Timestamp { date: Date { days: days as i32 }, time: Time::of_nanos(n % 86_400_000_000_000) })
        } else {
            None
        }
    }

    /// Whether date and time are well formed.
    pub fn is_wf(&self) -> (r: bool)
        ensures
            r == self.wf(),
    {
        self.date.is_wf() && self.time.is_wf()
    }

    /// The nanoseconds from midnight before day 0 to the timestamp.
    pub fn to_nanos(self) -> (r: i128)
        requires
            self.wf(),
        ensures
            r == self.nanos(),
            -8_272_465_545_600_000_000_000 <= r <= 8_272_465_545_600_000_000_000,
    {
        self.date.days as i128 * NANOS_PER_DAY + self.time.to_nanos()
    }

    /// The timestamp of a number of nanoseconds.
    pub fn from_nanos(n: i128) -> (r: Option<Timestamp>)
        ensures
            r == Timestamp::of_nanos(n as int),
            r is Some ==> r->0.wf(),
    {
        let q = n / NANOS_PER_DAY;
        let m = n % NANOS_PER_DAY;
        let (days, rest) = if m < 0 {
            (q - 1, m + NANOS_PER_DAY)
        } else {
            (q, m)
        };
        proof {
            lemma_floor_div(n as int, 86_400_000_000_000, days as int, rest as int);
        }
        if (MIN_DAYS as i128) <= days && days <= (MAX_DAYS as i128) {
            Some(Timestamp { date: Date { days: days as i32 }, time: Time::from_nanos(rest) })
        } else {
            None
        }
    }

    /// The timestamp a number of nanoseconds later, or earlier for a
    /// negative number.
    pub open spec fn plus_nanos(self, n: int) -> Option<Timestamp> {
        Timestamp::of_nanos(self.nanos() + n)
    }

    /// The timestamp a number of nanoseconds later.
    pub fn add_nanos(self, n: i128) -> (r: Option<Timestamp>)
        requires
            self.wf(),
            -MAX_DURATION <= n <= MAX_DURATION,
        ensures
            r == self.plus_nanos(n as int),
            r is Some ==> r->0.wf(),
    {
        Timestamp::from_nanos(self.to_nanos() + n)
    }
}

/// A quotient and a remainder that fit the division by a positive divisor
/// are the quotient and the remainder of it.
pub proof fn lemma_floor_div(n: int, d: int, q: int, r: int)
    requires
        d > 0,
        n == q * d + r,
        0 <= r < d,
    ensures
        n / d == q,
        n % d == r,
{
    vstd::arithmetic::div_mod::lemma_fundamental_div_mod_converse(n, d, q, r);
}

impl Interval {
    /// An interval is well formed when its clock time is not longer than the
    /// longest.
    pub open spec fn wf(self) -> bool {
        -MAX_DURATION <= self.duration <= MAX_DURATION
    }

    /// Whether the interval is well formed.
    pub fn is_wf(&self) -> (r: bool)
        ensures
            r == self.wf(),
    {
        -MAX_DURATION <= self.duration && self.duration <= MAX_DURATION
    }

    /// The interval of months, seconds and nanoseconds, if its clock time is
    /// not too long.
    pub open spec fn new_spec(months: i32, seconds: i64, nanos: i64) -> Option<Interval> {
        let duration = seconds as int * 1_000_000_000 + nanos;
        if -MAX_DURATION <= duration <= MAX_DURATION {
            Some(Interval { months, duration: duration as i128 })
        } else {
            None
        }
    }

    /// The interval of months, seconds and nanoseconds.
    pub fn new(months: i32, seconds: i64, nanos: i64) -> (r: Option<Interval>)
        ensures
            r == Self::new_spec(months, seconds, nanos),
            r is Some ==> r->0.wf(),
    {
        let duration = seconds as i128 * 1_000_000_000 + nanos as i128;
        if duration > MAX_DURATION || duration < -MAX_DURATION {
            None
        } else {
            Some(Interval { months, duration })
        }
    }

    /// The sum of two intervals, if its months fit 32 bits and its clock
    /// time is not too long.
    pub open spec fn plus(self, other: Interval) -> Option<Interval> {
        let months = self.months + other.months;
        let duration = self.duration + other.duration;
        if i32::MIN <= months <= i32::MAX && -MAX_DURATION <= duration <= MAX_DURATION {
            Some(Interval { months: months as i32, duration: duration as i128 })
        } else {
            None
        }
    }

    /// The sum of two intervals.
    pub fn checked_add(&self, other: &Interval) -> (r: Option<Interval>)
        requires
            self.wf(),
            other.wf(),
        ensures
            r == self.plus(*other),
            r is Some ==> r->0.wf(),
    {
        let months = self.months as i64 + other.months as i64;
        let duration = self.duration + other.duration;
        if months < i32::MIN as i64 || months > i32::MAX as i64 || duration > MAX_DURATION || duration < -MAX_DURATION {
            None
        } else {
            Some(Interval { months: months as i32, duration })
        }
    }

    /// The interval the other way, if its months fit 32 bits.
    pub open spec fn negated(self) -> Option<Interval> {
        if self.months == i32::MIN {
            None
        } else {
            Some(Interval { months: (-self.months) as i32, duration: (-self.duration) as i128 })
        }
    }

    /// The interval the other way.
    pub fn checked_neg(&self) -> (r: Option<Interval>)
        requires
            self.wf(),
        ensures
            r == self.negated(),
            r is Some ==> r->0.wf(),
    {
        if self.months == i32::MIN {
            None
        } else {
            Some(Interval { months: -self.months, duration: -self.duration })
        }
    }

    /// The whole seconds of the clock time, toward zero.
    pub fn dur_as_secs(&self) -> (r: i64)
        requires
            self.wf(),
        ensures
            r == crate::func_int::trunc_div(self.duration as int, 1_000_000_000),
    {
        (self.duration / 1_000_000_000) as i64
    }

    /// The nanoseconds of the clock time beyond its whole seconds.
    pub fn nanoseconds(&self) -> (r: i32)
        requires
            self.wf(),
        ensures
            r == crate::func_int::trunc_rem(self.duration as int, 1_000_000_000),
            -1_000_000_000 < r < 1_000_000_000,
    {
        (self.duration % 1_000_000_000) as i32
    }
}

} // verus!
