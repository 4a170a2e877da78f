//! Functions on dates, times, timestamps and intervals.

use vstd::prelude::*;
use crate::datetime::{civil, civil_days, civil_of, day_of_week, days_of_civil, iso_week, iso_week_of};
use crate::datetime::{weekday_from_monday, Civil, EPOCH_DAYS, MAX_DURATION, NANOS_PER_DAY};
use crate::datum::{res_view, Date, Datum, DatumV, Interval, Time, Timestamp, MIN_DAYS};
use crate::error::{EvalError, EvalErrorV};
use crate::float::{FloatOp, FloatUnit};
use crate::func_int::{trunc_div, trunc_rem};
use crate::order::{float64_key, float64_place};
use crate::units::DateTimeUnits;

verus! {

/// Whether a datum is a well-formed date.
pub open spec fn is_date(d: DatumV) -> bool {
    d is Date && d->Date_0.wf()
}

/// Whether a datum is a well-formed time of day.
pub open spec fn is_time(d: DatumV) -> bool {
    d is Time && d->Time_0.wf()
}

/// Whether a datum is a well-formed timestamp.
pub open spec fn is_timestamp(d: DatumV) -> bool {
    d is Timestamp && d->Timestamp_0.wf()
}

/// Whether a datum is a well-formed timestamp with time zone.
pub open spec fn is_timestamptz(d: DatumV) -> bool {
    d is TimestampTz && d->TimestampTz_0.wf()
}

/// Whether a datum is a well-formed interval.
pub open spec fn is_interval(d: DatumV) -> bool {
    d is Interval && d->Interval_0.wf()
}

/// Whether a datum is a well-formed date, time, timestamp or interval, or
/// none of these.
pub fn check_temporal(d: &Datum) -> (r: bool)
    ensures
        r == match d@ {
            DatumV::Date(x) => x.wf(),
            DatumV::Time(x) => x.wf(),
            DatumV::Timestamp(x) => x.wf(),
            DatumV::TimestampTz(x) => x.wf(),
            DatumV::Interval(x) => x.wf(),
            _ => true,
        },
{
    match d {
        Datum::Date(x) => x.is_wf(),
        Datum::Time(x) => x.is_wf(),
        Datum::Timestamp(x) => x.is_wf(),
        Datum::TimestampTz(x) => x.is_wf(),
        Datum::Interval(x) => x.is_wf(),
        _ => true,
    }
}

/// The number of the last day of a month that is not behind the given day
/// of the month, as far as such a day is not before the 28th.
pub open spec fn last_valid_day(year: i32, month: u32, day: u32) -> Option<i32>
    decreases day,
{
    if civil_days(year, month, day) is Some {
        civil_days(year, month, day)
    } else if day > 28 {
        last_valid_day(year, month, (day - 1) as u32)
    } else {
        None
    }
}

/// The year and the month, from 1, that lie a number of months behind a
/// month of a year.
pub open spec fn shifted_month(year: int, month: int, months: int) -> (int, int) {
    let years = trunc_div(months, 12);
    let rest = trunc_rem(months, 12);
    let (y1, m1) = if rest < 0 {
        (year + years - 1, rest + 12)
    } else {
        (year + years, rest)
    };
    (y1 + (month - 1 + m1) / 12, (month - 1 + m1) % 12 + 1)
}

/// A timestamp moved by a number of months: to the same day of the month
/// and time of day, or to the last day of the month where the month has no
/// such day. None where that leaves the calendar.
pub open spec fn add_months_spec(ts: Timestamp, months: i32) -> Option<Timestamp> {
    if months == 0 {
        Some(ts)
    } else {
        let c = civil(ts.date.days);
        let (year, month) = shifted_month(c.year as int, c.month as int, months as int);
        if year < i32::MIN || year > i32::MAX {
            None
        } else {
            match last_valid_day(year as i32, month as u32, c.day) {
                Some(days) => Some(Timestamp { date: Date { days }, time: ts.time }),
                None => None,
            }
        }
    }
}

/// Moves a timestamp by a number of months.
#[verifier::loop_isolation(false)]
pub fn add_timestamp_months(ts: Timestamp, months: i32) -> (r: Option<Timestamp>)
    requires
        ts.wf(),
    ensures
        r == add_months_spec(ts, months),
        r is Some ==> r->0.wf(),
{
    if months == 0 {
        return Some(ts);
    }
    let c = civil_of(ts.date.days);
    let years = months as i64 / 12;
    let rest = months as i64 % 12;
    let (y1, m1) = if rest < 0 {
        (c.year as i64 + years - 1, rest + 12)
    } else {
        (c.year as i64 + years, rest)
    };
    let year = y1 + (c.month as i64 - 1 + m1) / 12;
    let month = (c.month as i64 - 1 + m1) % 12 + 1;
    if year < i32::MIN as i64 || year > i32::MAX as i64 {
        return None;
    }
    let mut day = c.day;
    loop
        invariant
            day <= c.day,
            1 <= month <= 12,
            last_valid_day(year as i32, month as u32, c.day) == last_valid_day(year as i32, month as u32, day),
        decreases day,
    {
        match days_of_civil(year as i32, month as u32, day) {
            Some(days) => {
                return Some(Timestamp { date: Date { days }, time: ts.time });
            },
            None => {
                if day > 28 {
                    day -= 1;
                } else {
                    return None;
                }
            },
        }
    }
}

/// A timestamp moved by an interval: by its months first, then by its
/// clock time.
pub open spec fn add_interval_spec(ts: Timestamp, i: Interval) -> Option<Timestamp> {
    match add_months_spec(ts, i.months) {
        Some(t) => t.plus_nanos(i.duration as int),
        None => None,
    }
}

fn add_interval_to(ts: Timestamp, i: Interval) -> (r: Option<Timestamp>)
    requires
        ts.wf(),
        i.wf(),
    ensures
        r == add_interval_spec(ts, i),
        r is Some ==> r->0.wf(),
{
    match add_timestamp_months(ts, i.months) {
        Some(t) => t.add_nanos(i.duration),
        None => None,
    }
}

/// The timestamp datum of a timestamp, or the error that there is none.
pub open spec fn timestamp_or_error(t: Option<Timestamp>) -> Result<DatumV, EvalErrorV> {
    match t {
        Some(t) => Ok(DatumV::Timestamp(t)),
        None => Err(EvalErrorV::TimestampOutOfRange),
    }
}

/// The datum of a timestamp with time zone, or the error that there is
/// none.
pub open spec fn timestamptz_or_error(t: Option<Timestamp>) -> Result<DatumV, EvalErrorV> {
    match t {
        Some(t) => Ok(DatumV::TimestampTz(t)),
        None => Err(EvalErrorV::TimestampOutOfRange),
    }
}

fn timestamp_result(t: Option<Timestamp>) -> (r: Result<Datum, EvalError>)
    ensures
        res_view(r) == timestamp_or_error(t),
{
    match t {
        Some(t) => Ok(Datum::Timestamp(t)),
        None => Err(EvalError::TimestampOutOfRange),
    }
}

fn timestamptz_result(t: Option<Timestamp>) -> (r: Result<Datum, EvalError>)
    ensures
        res_view(r) == timestamptz_or_error(t),
{
    match t {
        Some(t) => Ok(Datum::TimestampTz(t)),
        None => Err(EvalError::TimestampOutOfRange),
    }
}

pub fn add_timestamp_interval(a: &Datum, b: &Datum) -> (r: Result<Datum, EvalError>)
    requires
        is_timestamp(a@),
        is_interval(b@),
    ensures
        res_view(r) == timestamp_or_error(add_interval_spec(a@->Timestamp_0, b@->Interval_0)),
{
    timestamp_result(add_interval_to(a.unwrap_timestamp(), b.unwrap_interval()))
}

pub fn add_timestamptz_interval(a: &Datum, b: &Datum) -> (r: Result<Datum, EvalError>)
    requires
        is_timestamptz(a@),
        is_interval(b@),
    ensures
        res_view(r) == timestamptz_or_error(add_interval_spec(a@->TimestampTz_0, b@->Interval_0)),
{
    timestamptz_result(add_interval_to(a.unwrap_timestamptz(), b.unwrap_interval()))
}

/// A timestamp moved back by an interval.
pub open spec fn sub_interval_spec(ts: Timestamp, i: Interval) -> Option<Timestamp> {
    match i.negated() {
        Some(n) => add_interval_spec(ts, n),
        None => None,
    }
}

fn sub_interval_from(ts: Timestamp, i: Interval) -> (r: Option<Timestamp>)
    requires
        ts.wf(),
        i.wf(),
    ensures
        r == sub_interval_spec(ts, i),
        r is Some ==> r->0.wf(),
{
    match i.checked_neg() {
        Some(n) => add_interval_to(ts, n),
        None => None,
    }
}

pub fn sub_timestamp_interval(a: &Datum, b: &Datum) -> (r: Result<Datum, EvalError>)
    requires
        is_timestamp(a@),
        is_interval(b@),
    ensures
        res_view(r) == timestamp_or_error(sub_interval_spec(a@->Timestamp_0, b@->Interval_0)),
{
    timestamp_result(sub_interval_from(a.unwrap_timestamp(), b.unwrap_interval()))
}

pub fn sub_timestamptz_interval(a: &Datum, b: &Datum) -> (r: Result<Datum, EvalError>)
    requires
        is_timestamptz(a@),
        is_interval(b@),
    ensures
        res_view(r) == timestamptz_or_error(sub_interval_spec(a@->TimestampTz_0, b@->Interval_0)),
{
    timestamptz_result(sub_interval_from(a.unwrap_timestamptz(), b.unwrap_interval()))
}

/// The timestamp of a date and a time of day.
pub fn add_date_time(a: &Datum, b: &Datum) -> (r: Datum)
    requires
        is_date(a@),
        is_time(b@),
    ensures
        r@ == DatumV::Timestamp(Timestamp { date: a@->Date_0, time: b@->Time_0 }),
        is_timestamp(r@),
{
    Datum::Timestamp(Timestamp { date: a.unwrap_date(), time: b.unwrap_time() })
}

/// Midnight at the start of a date.
pub open spec fn start_of(d: Date) -> Timestamp {
    Timestamp { date: d, time: Time { secs: 0, nanos: 0 } }
}

pub fn add_date_interval(a: &Datum, b: &Datum) -> (r: Result<Datum, EvalError>)
    requires
        is_date(a@),
        is_interval(b@),
    ensures
        res_view(r) == timestamp_or_error(add_interval_spec(start_of(a@->Date_0), b@->Interval_0)),
{
    let dt = Timestamp { date: a.unwrap_date(), time: Time::midnight() };
    timestamp_result(add_interval_to(dt, b.unwrap_interval()))
}

pub fn sub_date_interval(a: &Datum, b: &Datum) -> (r: Result<Datum, EvalError>)
    requires
        is_date(a@),
        is_interval(b@),
    ensures
        res_view(r) == timestamp_or_error(sub_interval_spec(start_of(a@->Date_0), b@->Interval_0)),
{
    let dt = Timestamp { date: a.unwrap_date(), time: Time::midnight() };
    timestamp_result(sub_interval_from(dt, b.unwrap_interval()))
}

/// A time of day moved by a number of nanoseconds, around the clock.
pub open spec fn time_plus(t: Time, n: int) -> Time {
    Time::of_nanos((t.nanos_of_day() + n) % 86_400_000_000_000)
}

fn add_nanos_to_time(t: Time, n: i128) -> (r: Time)
    requires
        t.wf(),
        -MAX_DURATION <= n <= MAX_DURATION,
    ensures
        r == time_plus(t, n as int),
        r.wf(),
{
    let total = t.to_nanos() + n;
    let m = total % NANOS_PER_DAY;
    let q = total / NANOS_PER_DAY;
    let (days, rest) = if m < 0 {
        (q - 1, m + NANOS_PER_DAY)
    } else {
        (q, m)
    };
    proof {
        crate::datetime::lemma_floor_div(total as int, 86_400_000_000_000, days as int, rest as int);
    }
    Time::from_nanos(rest)
}

/// A time of day moved by the clock time of an interval, around the
/// clock.
pub fn add_time_interval(a: &Datum, b: &Datum) -> (r: Datum)
    requires
        is_time(a@),
        is_interval(b@),
    ensures
        r@ == DatumV::Time(time_plus(a@->Time_0, b@->Interval_0.duration as int)),
        is_time(r@),
{
    Datum::Time(add_nanos_to_time(a.unwrap_time(), b.unwrap_interval().duration))
}

pub fn sub_time_interval(a: &Datum, b: &Datum) -> (r: Datum)
    requires
        is_time(a@),
        is_interval(b@),
    ensures
        r@ == DatumV::Time(time_plus(a@->Time_0, -(b@->Interval_0.duration as int))),
        is_time(r@),
{
    Datum::Time(add_nanos_to_time(a.unwrap_time(), -b.unwrap_interval().duration))
}

/// The interval datum of a clock time in nanoseconds, or the error that it
/// is too long.
pub open spec fn duration_or_error(n: int) -> Result<DatumV, EvalErrorV> {
    if -MAX_DURATION <= n <= MAX_DURATION {
        Ok(DatumV::Interval(Interval { months: 0, duration: n as i128 }))
    } else {
        Err(EvalErrorV::IntervalOutOfRange)
    }
}

fn duration_result(n: i128) -> (r: Result<Datum, EvalError>)
    ensures
        res_view(r) == duration_or_error(n as int),
        r is Ok ==> is_interval(r->Ok_0@),
{
    if -MAX_DURATION <= n && n <= MAX_DURATION {
        Ok(Datum::Interval(Interval { months: 0, duration: n }))
    } else {
        Err(EvalError::IntervalOutOfRange)
    }
}

/// The clock time from the second timestamp to the first.
pub fn sub_timestamp(a: &Datum, b: &Datum) -> (r: Result<Datum, EvalError>)
    requires
        is_timestamp(a@),
        is_timestamp(b@),
    ensures
        res_view(r) == duration_or_error(a@->Timestamp_0.nanos() - b@->Timestamp_0.nanos()),
{
    duration_result(a.unwrap_timestamp().to_nanos() - b.unwrap_timestamp().to_nanos())
}

pub fn sub_timestamptz(a: &Datum, b: &Datum) -> (r: Result<Datum, EvalError>)
    requires
        is_timestamptz(a@),
        is_timestamptz(b@),
    ensures
        res_view(r) == duration_or_error(a@->TimestampTz_0.nanos() - b@->TimestampTz_0.nanos()),
{
    duration_result(a.unwrap_timestamptz().to_nanos() - b.unwrap_timestamptz().to_nanos())
}

/// The days from the second date to the first.
pub fn sub_date(a: &Datum, b: &Datum) -> (r: Datum)
    requires
        is_date(a@),
        is_date(b@),
    ensures
        r@ == DatumV::Int32((a@->Date_0.days - b@->Date_0.days) as i32),
{
    Datum::Int32(a.unwrap_date().days - b.unwrap_date().days)
}

/// The clock time from the second time of day to the first.
pub fn sub_time(a: &Datum, b: &Datum) -> (r: Datum)
    requires
        is_time(a@),
        is_time(b@),
    ensures
        r@ == DatumV::Interval(
            Interval { months: 0, duration: (a@->Time_0.nanos_of_day() - b@->Time_0.nanos_of_day()) as i128 },
        ),
        is_interval(r@),
{
    Datum::Interval(Interval { months: 0, duration: a.unwrap_time().to_nanos() - b.unwrap_time().to_nanos() })
}

/// The interval datum of an interval, or the error that there is none.
pub open spec fn interval_or_error(i: Option<Interval>) -> Result<DatumV, EvalErrorV> {
    match i {
        Some(i) => Ok(DatumV::Interval(i)),
        None => Err(EvalErrorV::IntervalOutOfRange),
    }
}

fn interval_result(i: Option<Interval>) -> (r: Result<Datum, EvalError>)
    ensures
        res_view(r) == interval_or_error(i),
{
    match i {
        Some(i) => Ok(Datum::Interval(i)),
        None => Err(EvalError::IntervalOutOfRange),
    }
}

pub fn add_interval(a: &Datum, b: &Datum) -> (r: Result<Datum, EvalError>)
    requires
        is_interval(a@),
        is_interval(b@),
    ensures
        res_view(r) == interval_or_error(a@->Interval_0.plus(b@->Interval_0)),
{
    interval_result(a.unwrap_interval().checked_add(&b.unwrap_interval()))
}

/// The first interval less the second.
pub open spec fn interval_minus(a: Interval, b: Interval) -> Option<Interval> {
    match b.negated() {
        Some(n) => a.plus(n),
        None => None,
    }
}

pub fn sub_interval(a: &Datum, b: &Datum) -> (r: Result<Datum, EvalError>)
    requires
        is_interval(a@),
        is_interval(b@),
    ensures
        res_view(r) == interval_or_error(interval_minus(a@->Interval_0, b@->Interval_0)),
{
    match b.unwrap_interval().checked_neg() {
        Some(n) => interval_result(a.unwrap_interval().checked_add(&n)),
        None => Err(EvalError::IntervalOutOfRange),
    }
}

/// The interval the other way; one whose months have no negation is out
/// of range.
pub fn neg_interval(a: &Datum) -> (r: Result<Datum, EvalError>)
    requires
        is_interval(a@),
    ensures
        res_view(r) == interval_or_error(a@->Interval_0.negated()),
{
    interval_result(a.unwrap_interval().checked_neg())
}

/// What becomes of the interval that the host computed: one that is well
/// formed is the result; none, or one that is not well formed, is out of
/// range.
pub open spec fn host_interval(h: Option<Interval>) -> Result<DatumV, EvalErrorV> {
    match h {
        Some(i) => if i.wf() {
            Ok(DatumV::Interval(i))
        } else {
            Err(EvalErrorV::IntervalOutOfRange)
        },
        None => Err(EvalErrorV::IntervalOutOfRange),
    }
}

/// The datum of the interval that the host computed.
pub fn interval_of_host(h: Option<Interval>) -> (r: Result<Datum, EvalError>)
    ensures
        res_view(r) == host_interval(h),
{
    match h {
        Some(i) => if i.is_wf() {
            Ok(Datum::Interval(i))
        } else {
            Err(EvalError::IntervalOutOfRange)
        },
        None => Err(EvalError::IntervalOutOfRange),
    }
}

/// An interval times a double, which the host computes. A product that
/// the host does not give, or that is no interval, is out of range. The
/// host is given the interval and the double, and whatever it computes,
/// the result is what `host_interval` makes of it.
pub fn mul_interval<F: FloatUnit>(a: &Datum, b: &Datum, fu: &F) -> (r: Result<Datum, EvalError>)
    requires
        is_interval(a@),
        b@ is Float64,
    ensures
        exists|h: Option<Interval>| res_view(r) == #[trigger] host_interval(h),
        match r {
            Ok(d) => is_interval(d@),
            Err(e) => e@ == EvalErrorV::IntervalOutOfRange,
        },
{
    let h = fu.interval_mul(a.unwrap_interval(), b.unwrap_float64());
    let r = interval_of_host(h);
    assert(res_view(r) == host_interval(h));
    r
}

/// An interval divided by a double, which the host computes. A divisor of
/// zero is an error. The host is given the interval and the divisor, and
/// whatever it computes, the result is what `host_interval` makes of it.
pub fn div_interval<F: FloatUnit>(a: &Datum, b: &Datum, fu: &F) -> (r: Result<Datum, EvalError>)
    requires
        is_interval(a@),
        b@ is Float64,
    ensures
        float64_key(b@->Float64_0) == 0 ==> res_view(r) == Err::<DatumV, EvalErrorV>(EvalErrorV::DivisionByZero),
        float64_key(b@->Float64_0) != 0 ==> exists|h: Option<Interval>| res_view(r) == #[trigger] host_interval(h),
        float64_key(b@->Float64_0) != 0 ==> match r {
            Ok(d) => is_interval(d@),
            Err(e) => e@ == EvalErrorV::IntervalOutOfRange,
        },
{
    let bits = b.unwrap_float64();
    if float64_place(bits) == 0 {
        return Err(EvalError::DivisionByZero);
    }
    let h = fu.interval_div(a.unwrap_interval(), bits);
    let r = interval_of_host(h);
    assert(res_view(r) == host_interval(h));
    r
}

pub fn cast_date_to_timestamp(a: &Datum) -> (r: Datum)
    requires
        is_date(a@),
    ensures
        r@ == DatumV::Timestamp(start_of(a@->Date_0)),
        is_timestamp(r@),
{
    Datum::Timestamp(Timestamp { date: a.unwrap_date(), time: Time::midnight() })
}

pub fn cast_date_to_timestamptz(a: &Datum) -> (r: Datum)
    requires
        is_date(a@),
    ensures
        r@ == DatumV::TimestampTz(start_of(a@->Date_0)),
        is_timestamptz(r@),
{
    Datum::TimestampTz(Timestamp { date: a.unwrap_date(), time: Time::midnight() })
}

pub fn cast_timestamp_to_date(a: &Datum) -> (r: Datum)
    requires
        is_timestamp(a@),
    ensures
        r@ == DatumV::Date(a@->Timestamp_0.date),
        is_date(r@),
{
    Datum::Date(a.unwrap_timestamp().date)
}

pub fn cast_timestamp_to_timestamptz(a: &Datum) -> (r: Datum)
    requires
        is_timestamp(a@),
    ensures
        r@ == DatumV::TimestampTz(a@->Timestamp_0),
        is_timestamptz(r@),
{
    Datum::TimestampTz(a.unwrap_timestamp())
}

pub fn cast_timestamptz_to_date(a: &Datum) -> (r: Datum)
    requires
        is_timestamptz(a@),
    ensures
        r@ == DatumV::Date(a@->TimestampTz_0.date),
        is_date(r@),
{
    Datum::Date(a.unwrap_timestamptz().date)
}

pub fn cast_timestamptz_to_timestamp(a: &Datum) -> (r: Datum)
    requires
        is_timestamptz(a@),
    ensures
        r@ == DatumV::Timestamp(a@->TimestampTz_0),
        is_timestamp(r@),
{
    Datum::Timestamp(a.unwrap_timestamptz())
}

/// The interval from midnight to a time of day.
pub fn cast_time_to_interval(a: &Datum) -> (r: Result<Datum, EvalError>)
    requires
        is_time(a@),
    ensures
        res_view(r) == Ok::<DatumV, EvalErrorV>(
            DatumV::Interval(Interval { months: 0, duration: a@->Time_0.nanos_of_day() as i128 }),
        ),
        r is Ok && is_interval(r->Ok_0@),
{
    let t = a.unwrap_time();
    match Interval::new(0, t.secs as i64, t.nanos as i64) {
        Some(i) => Ok(Datum::Interval(i)),
        None => Err(EvalError::IntervalOutOfRange),
    }
}

/// The time of day of an interval: its hours, minutes, seconds and
/// nanoseconds within a day; those of a negative interval are counted back
/// from the end of the day.
pub open spec fn interval_time_spec(i: Interval) -> Time {
    let d = if i.duration < 0 {
        86_400_000_000_000 + trunc_rem(i.duration as int, 86_400_000_000_000)
    } else {
        i.duration as int
    };
    Time::of_nanos(d % 86_400_000_000_000)
}

pub fn cast_interval_to_time(a: &Datum) -> (r: Datum)
    requires
        is_interval(a@),
    ensures
        r@ == DatumV::Time(interval_time_spec(a@->Interval_0)),
        is_time(r@),
{
    let i = a.unwrap_interval();
    let d: i128 = if i.duration < 0 {
        NANOS_PER_DAY + i.duration % NANOS_PER_DAY
    } else {
        i.duration
    };
    Datum::Time(Time::from_nanos(d % NANOS_PER_DAY))
}

/// The error of an interval with months that is used as a time zone.
pub open spec fn zone_interval_error() -> EvalErrorV {
    EvalErrorV::InvalidTimezoneInterval
}

/// A time of day in UTC as the time of the zone that lies an interval
/// ahead of UTC. The interval must not hold months.
pub fn timezone_interval_time(a: &Datum, b: &Datum) -> (r: Result<Datum, EvalError>)
    requires
        is_interval(a@),
        is_time(b@),
    ensures
        res_view(r) == if a@->Interval_0.months != 0 {
            Err::<DatumV, EvalErrorV>(zone_interval_error())
        } else {
            Ok::<DatumV, EvalErrorV>(DatumV::Time(time_plus(b@->Time_0, a@->Interval_0.duration as int)))
        },
{
    let interval = a.unwrap_interval();
    if interval.months != 0 {
        Err(EvalError::InvalidTimezoneInterval)
    } else {
        Ok(Datum::Time(add_nanos_to_time(b.unwrap_time(), interval.duration)))
    }
}

/// A timestamp of the zone that lies an interval ahead of UTC as the
/// moment in UTC.
pub fn timezone_interval_timestamp(a: &Datum, b: &Datum) -> (r: Result<Datum, EvalError>)
    requires
        is_interval(a@),
        is_timestamp(b@),
    ensures
        res_view(r) == if a@->Interval_0.months != 0 {
            Err::<DatumV, EvalErrorV>(zone_interval_error())
        } else {
            timestamptz_or_error(b@->Timestamp_0.plus_nanos(-(a@->Interval_0.duration as int)))
        },
{
    let interval = a.unwrap_interval();
    if interval.months != 0 {
        Err(EvalError::InvalidTimezoneInterval)
    } else {
        timestamptz_result(b.unwrap_timestamp().add_nanos(-interval.duration))
    }
}

/// A moment in UTC as the timestamp of the zone that lies an interval
/// ahead of UTC.
pub fn timezone_interval_timestamptz(a: &Datum, b: &Datum) -> (r: Result<Datum, EvalError>)
    requires
        is_interval(a@),
        is_timestamptz(b@),
    ensures
        res_view(r) == if a@->Interval_0.months != 0 {
            Err::<DatumV, EvalErrorV>(zone_interval_error())
        } else {
            timestamp_or_error(b@->TimestampTz_0.plus_nanos(a@->Interval_0.duration as int))
        },
{
    let interval = a.unwrap_interval();
    if interval.months != 0 {
        Err(EvalError::InvalidTimezoneInterval)
    } else {
        timestamp_result(b.unwrap_timestamptz().add_nanos(interval.duration))
    }
}

/// A time zone at a fixed distance from UTC.
#[derive(Clone, Copy, Debug, PartialEq, Eq, Structural, Hash)]
pub struct Timezone {
    /// The seconds that the zone lies ahead of UTC.
    pub offset_secs: i32,
}

impl Timezone {
    /// A time zone is well formed when it lies less than a day from UTC.
    pub open spec fn wf(self) -> bool {
        -86_400 < self.offset_secs < 86_400
    }
}

/// A time of day in UTC as the time of a zone.
pub fn timezone_time(tz: Timezone, t: Time) -> (r: Datum)
    requires
        tz.wf(),
        t.wf(),
    ensures
        r@ == DatumV::Time(time_plus(t, tz.offset_secs as int * 1_000_000_000)),
{
    Datum::Time(add_nanos_to_time(t, tz.offset_secs as i128 * 1_000_000_000))
}

/// A timestamp of a zone as the moment in UTC.
pub fn timezone_timestamp(tz: Timezone, dt: Timestamp) -> (r: Result<Datum, EvalError>)
    requires
        tz.wf(),
        dt.wf(),
    ensures
        res_view(r) == timestamptz_or_error(dt.plus_nanos(-(tz.offset_secs as int * 1_000_000_000))),
{
    timestamptz_result(dt.add_nanos(-(tz.offset_secs as i128 * 1_000_000_000)))
}

/// A moment in UTC as the timestamp of a zone.
pub fn timezone_timestamptz(tz: Timezone, utc: Timestamp) -> (r: Result<Datum, EvalError>)
    requires
        tz.wf(),
        utc.wf(),
    ensures
        res_view(r) == timestamp_or_error(utc.plus_nanos(tz.offset_secs as int * 1_000_000_000)),
{
    timestamp_result(utc.add_nanos(tz.offset_secs as i128 * 1_000_000_000))
}

/// The first year of the century or millennium, of the given length in
/// years, that a year lies in: the year 1 starts the first.
pub open spec fn era_start(year: int, len: int) -> int {
    if year > 0 {
        year - trunc_rem(year - 1, len)
    } else {
        year - trunc_rem(year, len) - (len - 1)
    }
}

/// The day to which a date is truncated for a unit of which a date
/// alone decides, as year, month and day of the month.
pub open spec fn truncated_ymd(units: DateTimeUnits, c: Civil) -> (int, int, int) {
    match units {
        DateTimeUnits::Millennium => (era_start(c.year as int, 1000), 1, 1),
        DateTimeUnits::Century => (era_start(c.year as int, 100), 1, 1),
        DateTimeUnits::Decade => (c.year - c.year % 10, 1, 1),
        DateTimeUnits::Year => (c.year as int, 1, 1),
        DateTimeUnits::Quarter => (
            c.year as int,
            if c.month <= 3 {
                1
            } else if c.month <= 6 {
                4
            } else if c.month <= 9 {
                7
            } else {
                10
            },
            1,
        ),
        _ => (c.year as int, c.month as int, 1),
    }
}

/// The time of day truncated to a unit below the day.
pub open spec fn truncated_time(units: DateTimeUnits, t: Time) -> Time {
    match units {
        DateTimeUnits::Hour => Time { secs: (t.secs - t.secs % 3600) as u32, nanos: 0 },
        DateTimeUnits::Minute => Time { secs: (t.secs - t.secs % 60) as u32, nanos: 0 },
        DateTimeUnits::Second => Time { secs: t.secs, nanos: 0 },
        DateTimeUnits::Milliseconds => Time { secs: t.secs, nanos: (t.nanos - t.nanos % 1_000_000) as u32 },
        DateTimeUnits::Microseconds => Time { secs: t.secs, nanos: (t.nanos - t.nanos % 1_000) as u32 },
        _ => Time { secs: 0, nanos: 0 },
    }
}

/// A timestamp truncated to a unit: to the start of the millennium,
/// century, decade, year, quarter, month, week or day that it lies in, or
/// to the hour, minute, second, millisecond or microsecond. A unit that
/// timestamps are not truncated to is unsupported.
pub open spec fn date_trunc_spec(units: DateTimeUnits, ts: Timestamp) -> Result<Timestamp, EvalErrorV> {
    match units {
        DateTimeUnits::Millennium
        | DateTimeUnits::Century
        | DateTimeUnits::Decade
        | DateTimeUnits::Year
        | DateTimeUnits::Quarter
        | DateTimeUnits::Month => {
            let (y, m, d) = truncated_ymd(units, civil(ts.date.days));
            if i32::MIN <= y <= i32::MAX && civil_days(y as i32, m as u32, d as u32) is Some {
                Ok(start_of(Date { days: civil_days(y as i32, m as u32, d as u32)->0 }))
            } else {
                Err(EvalErrorV::TimestampOutOfRange)
            }
        },
        DateTimeUnits::Week => {
            let days = ts.date.days - weekday_from_monday(ts.date.days as int);
            if days >= MIN_DAYS {
                Ok(start_of(Date { days: days as i32 }))
            } else {
                Err(EvalErrorV::TimestampOutOfRange)
            }
        },
        DateTimeUnits::Day
        | DateTimeUnits::Hour
        | DateTimeUnits::Minute
        | DateTimeUnits::Second
        | DateTimeUnits::Milliseconds
        | DateTimeUnits::Microseconds => Ok(Timestamp { date: ts.date, time: truncated_time(units, ts.time) }),
        _ => Err(EvalErrorV::UnsupportedDateTimeUnits(units)),
    }
}

/// The first year of the era, of the given length, that a year lies in.
fn era_start_of(year: i64, len: i64) -> (r: i64)
    requires
        -262_143 <= year <= 262_142,
        len == 100 || len == 1000,
    ensures
        r == era_start(year as int, len as int),
        -264_000 <= r <= 264_000,
{
    if year > 0 {
        year - (year - 1) % len
    } else {
        year - year % len - (len - 1)
    }
}

/// The first year of the decade that a year lies in.
fn decade_start_of(year: i64) -> (r: i64)
    requires
        -262_143 <= year <= 262_142,
    ensures
        r == year - (year as int) % 10,
        -264_000 <= r <= 264_000,
{
    let rem = year % 10;
    let rem = if rem < 0 {
        rem + 10
    } else {
        rem
    };
    proof {
        crate::datetime::lemma_floor_div(year as int, 10, (year - rem) / 10, rem as int);
    }
    year - rem
}

/// The day to which a date is truncated for a unit of which a date alone
/// decides.
fn truncated_ymd_of(units: DateTimeUnits, c: Civil) -> (r: (i64, u32))
    requires
        -262_143 <= c.year <= 262_142,
        1 <= c.month <= 12,
    ensures
        (r.0 as int, r.1 as int, 1int) == truncated_ymd(units, c),
        -264_000 <= r.0 <= 264_000,
{
    let year = c.year as i64;
    match units {
        DateTimeUnits::Millennium => (era_start_of(year, 1000), 1),
        DateTimeUnits::Century => (era_start_of(year, 100), 1),
        DateTimeUnits::Decade => (decade_start_of(year), 1),
        DateTimeUnits::Year => (year, 1),
        DateTimeUnits::Quarter => (
            year,
            if c.month <= 3 {
                1
            } else if c.month <= 6 {
                4
            } else if c.month <= 9 {
                7
            } else {
                10
            },
        ),
        _ => (year, c.month),
    }
}

/// The time of day truncated to a unit below the day.
fn truncated_time_of(units: DateTimeUnits, t: Time) -> (r: Time)
    requires
        t.wf(),
    ensures
        r == truncated_time(units, t),
        r.wf(),
{
    match units {
        DateTimeUnits::Hour => Time { secs: t.secs - t.secs % 3600, nanos: 0 },
        DateTimeUnits::Minute => Time { secs: t.secs - t.secs % 60, nanos: 0 },
        DateTimeUnits::Second => Time { secs: t.secs, nanos: 0 },
        DateTimeUnits::Milliseconds => Time { secs: t.secs, nanos: t.nanos - t.nanos % 1_000_000 },
        DateTimeUnits::Microseconds => Time { secs: t.secs, nanos: t.nanos - t.nanos % 1_000 },
        _ => Time { secs: 0, nanos: 0 },
    }
}

/// Truncates a timestamp to a unit.
pub fn date_trunc_inner(units: DateTimeUnits, ts: Timestamp) -> (r: Result<Timestamp, EvalError>)
    requires
        ts.wf(),
    ensures
        match r {
            Ok(t) => date_trunc_spec(units, ts) == Ok::<Timestamp, EvalErrorV>(t) && t.wf(),
            Err(e) => date_trunc_spec(units, ts) == Err::<Timestamp, EvalErrorV>(e@),
        },
{
    match units {
        DateTimeUnits::Millennium
        | DateTimeUnits::Century
        | DateTimeUnits::Decade
        | DateTimeUnits::Year
        | DateTimeUnits::Quarter
        | DateTimeUnits::Month => {
            let (y, m) = truncated_ymd_of(units, civil_of(ts.date.days));
            match days_of_civil(y as i32, m, 1) {
                Some(days) => Ok(Timestamp { date: Date { days }, time: Time::midnight() }),
                None => Err(EvalError::TimestampOutOfRange),
            }
        },
        DateTimeUnits::Week => {
            let days = ts.date.days as i64 - day_of_week(ts.date) as i64;
            if days >= MIN_DAYS as i64 {
                Ok(Timestamp { date: Date { days: days as i32 }, time: Time::midnight() })
            } else {
                Err(EvalError::TimestampOutOfRange)
            }
        },
        DateTimeUnits::Day
        | DateTimeUnits::Hour
        | DateTimeUnits::Minute
        | DateTimeUnits::Second
        | DateTimeUnits::Milliseconds
        | DateTimeUnits::Microseconds => Ok(Timestamp { date: ts.date, time: truncated_time_of(units, ts.time) }),
        _ => Err(EvalError::UnsupportedDateTimeUnits(units)),
    }
}

/// A part of a timestamp as a number over a divisor: the part is the
/// quotient of the two. The parts that are whole numbers have the divisor
/// 1. None for a unit that timestamps have no part of.
pub open spec fn timestamp_part(units: DateTimeUnits, ts: Timestamp) -> Option<(int, int)> {
    let c = civil(ts.date.days);
    let s = ts.time.secs % 60;
    match units {
        DateTimeUnits::Epoch => Some(
            (
                ((ts.date.days - EPOCH_DAYS) * 86_400 + ts.time.secs) * 1_000_000 + ts.time.nanos / 1_000,
                1_000_000,
            ),
        ),
        DateTimeUnits::Year => Some((c.year as int, 1)),
        DateTimeUnits::Quarter => Some(((c.month + 2) / 3, 1)),
        DateTimeUnits::Week => Some((iso_week(ts.date.days).1 as int, 1)),
        DateTimeUnits::Day => Some((c.day as int, 1)),
        DateTimeUnits::DayOfWeek => Some(((weekday_from_monday(ts.date.days as int) + 1) % 7, 1)),
        DateTimeUnits::DayOfYear => Some((c.ordinal as int, 1)),
        DateTimeUnits::IsoDayOfWeek => Some((weekday_from_monday(ts.date.days as int) + 1, 1)),
        DateTimeUnits::Hour => Some((ts.time.secs as int / 3600, 1)),
        DateTimeUnits::Minute => Some(((ts.time.secs as int / 60) % 60, 1)),
        DateTimeUnits::Second => Some((s * 1_000_000_000 + ts.time.nanos, 1_000_000_000)),
        DateTimeUnits::Month => Some((c.month as int, 1)),
        DateTimeUnits::Milliseconds => Some((s * 1_000_000_000 + ts.time.nanos, 1_000_000)),
        DateTimeUnits::Microseconds => Some((s * 1_000_000_000 + ts.time.nanos, 1_000)),
        DateTimeUnits::Millennium => Some(
            (
                trunc_div(
                    c.year + if c.year > 0 {
                        999int
                    } else {
                        -1_000int
                    },
                    1_000,
                ),
                1,
            ),
        ),
        DateTimeUnits::Century => Some(
            (
                trunc_div(
                    c.year + if c.year > 0 {
                        99int
                    } else {
                        -100int
                    },
                    100,
                ),
                1,
            ),
        ),
        DateTimeUnits::Decade => Some((c.year / 10, 1)),
        _ => None,
    }
}

/// The part of a timestamp for a unit, as a number over a divisor.
pub fn timestamp_part_of(units: DateTimeUnits, ts: Timestamp) -> (r: Option<(i64, i64)>)
    requires
        ts.wf(),
    ensures
        match r {
            Some((n, d)) => timestamp_part(units, ts) == Some((n as int, d as int)) && d >= 1,
            None => timestamp_part(units, ts) is None,
        },
{
    let s = (ts.time.secs % 60) as i64;
    let nanos = ts.time.nanos as i64;
    match units {
        DateTimeUnits::Epoch => Some(
            (
                ((ts.date.days as i64 - EPOCH_DAYS as i64) * 86_400 + ts.time.secs as i64) * 1_000_000 + nanos / 1_000,
                1_000_000,
            ),
        ),
        DateTimeUnits::Year => Some((civil_of(ts.date.days).year as i64, 1)),
        DateTimeUnits::Quarter => Some((((civil_of(ts.date.days).month + 2) / 3) as i64, 1)),
        DateTimeUnits::Week => Some((iso_week_of(ts.date.days).1 as i64, 1)),
        DateTimeUnits::Day => Some((civil_of(ts.date.days).day as i64, 1)),
        DateTimeUnits::DayOfWeek => Some((((day_of_week(ts.date) + 1) % 7) as i64, 1)),
        DateTimeUnits::DayOfYear => Some((civil_of(ts.date.days).ordinal as i64, 1)),
        DateTimeUnits::IsoDayOfWeek => Some(((day_of_week(ts.date) + 1) as i64, 1)),
        DateTimeUnits::Hour => Some(((ts.time.secs / 3600) as i64, 1)),
        DateTimeUnits::Minute => Some((((ts.time.secs / 60) % 60) as i64, 1)),
        DateTimeUnits::Second => Some((s * 1_000_000_000 + nanos, 1_000_000_000)),
        DateTimeUnits::Month => Some((civil_of(ts.date.days).month as i64, 1)),
        DateTimeUnits::Milliseconds => Some((s * 1_000_000_000 + nanos, 1_000_000)),
        DateTimeUnits::Microseconds => Some((s * 1_000_000_000 + nanos, 1_000)),
        DateTimeUnits::Millennium => {
            let y = civil_of(ts.date.days).year as i64;
            Some(
                (
                    (y + if y > 0 {
                        999
                    } else {
                        -1_000
                    }) / 1_000,
                    1,
                ),
            )
        },
        DateTimeUnits::Century => {
            let y = civil_of(ts.date.days).year as i64;
            Some(
                (
                    (y + if y > 0 {
                        99
                    } else {
                        -100
                    }) / 100,
                    1,
                ),
            )
        },
        DateTimeUnits::Decade => {
            let y = civil_of(ts.date.days).year as i64;
            let rem = y % 10;
            let rem = if rem < 0 {
                rem + 10
            } else {
                rem
            };
            proof {
                crate::datetime::lemma_floor_div(y as int, 10, (y - rem) / 10, rem as int);
            }
            Some(((y - rem) / 10, 1))
        },
        _ => None,
    }
}

/// A part of an interval as a number over a divisor.
pub open spec fn interval_part(units: DateTimeUnits, i: Interval) -> Option<(int, int)> {
    let secs = trunc_div(i.duration as int, 1_000_000_000);
    let nanos = trunc_rem(i.duration as int, 1_000_000_000);
    let s = trunc_rem(secs, 60) * 1_000_000_000 + nanos;
    match units {
        DateTimeUnits::Epoch => Some(
            (
                (i.months as int * 30 * 86_400 + secs) * 1_000_000_000 + trunc_div(i.months as int, 12) * 6 * 3_600
                    * 1_000_000_000 + nanos,
                1_000_000_000,
            ),
        ),
        DateTimeUnits::Year => Some((trunc_div(i.months as int, 12), 1)),
        DateTimeUnits::Day => Some((trunc_div(secs, 86_400), 1)),
        DateTimeUnits::Hour => Some((trunc_rem(trunc_div(secs, 3_600), 24), 1)),
        DateTimeUnits::Minute => Some((trunc_rem(trunc_div(secs, 60), 60), 1)),
        DateTimeUnits::Second => Some((s, 1_000_000_000)),
        DateTimeUnits::Millennium => Some((trunc_div(i.months as int, 12_000), 1)),
        DateTimeUnits::Century => Some((trunc_div(i.months as int, 1_200), 1)),
        DateTimeUnits::Decade => Some((trunc_div(i.months as int, 120), 1)),
        DateTimeUnits::Quarter => Some((trunc_div(trunc_rem(i.months as int, 12), 3) + 1, 1)),
        DateTimeUnits::Month => Some((trunc_rem(i.months as int, 12), 1)),
        DateTimeUnits::Milliseconds => Some((s, 1_000_000)),
        DateTimeUnits::Microseconds => Some((s, 1_000)),
        _ => None,
    }
}

/// The part of an interval for a unit, as a number over a divisor.
pub fn interval_part_of(units: DateTimeUnits, i: Interval) -> (r: Option<(i128, i64)>)
    requires
        i.wf(),
    ensures
        match r {
            Some((n, d)) => interval_part(units, i) == Some((n as int, d as int)) && d >= 1,
            None => interval_part(units, i) is None,
        },
{
    let secs = i.duration / 1_000_000_000;
    let nanos = i.duration % 1_000_000_000;
    let months = i.months as i128;
    let s = (secs % 60) * 1_000_000_000 + nanos;
    match units {
        DateTimeUnits::Epoch => Some(
            (
                (months * 30 * 86_400 + secs) * 1_000_000_000 + (months / 12) * 6 * 3_600 * 1_000_000_000 + nanos,
                1_000_000_000,
            ),
        ),
        DateTimeUnits::Year => Some((months / 12, 1)),
        DateTimeUnits::Day => Some((secs / 86_400, 1)),
        DateTimeUnits::Hour => Some(((secs / 3_600) % 24, 1)),
        DateTimeUnits::Minute => Some(((secs / 60) % 60, 1)),
        DateTimeUnits::Second => Some((s, 1_000_000_000)),
        DateTimeUnits::Millennium => Some((months / 12_000, 1)),
        DateTimeUnits::Century => Some((months / 1_200, 1)),
        DateTimeUnits::Decade => Some((months / 120, 1)),
        DateTimeUnits::Quarter => Some(((months % 12) / 3 + 1, 1)),
        DateTimeUnits::Month => Some((months % 12, 1)),
        DateTimeUnits::Milliseconds => Some((s, 1_000_000)),
        DateTimeUnits::Microseconds => Some((s, 1_000)),
        _ => None,
    }
}

/// The double of a number over a divisor, which the host computes.
fn ratio_to_double<F: FloatUnit>(n: i64, d: i64, fu: &F) -> (r: Datum)
    ensures
        r@ is Float64,
{
    let x = fu.double_of_int(n);
    if d == 1 {
        Datum::Float64(x)
    } else {
        Datum::Float64(fu.binary64(FloatOp::Div, x, fu.double_of_int(d)))
    }
}

/// The part of a timestamp for a unit, as a double that the host makes of
/// the number and its divisor. A unit that timestamps have no part of is
/// unsupported.
pub fn date_part_timestamp_inner<F: FloatUnit>(units: DateTimeUnits, ts: Timestamp, fu: &F) -> (r: Result<
    Datum,
    EvalError,
>)
    requires
        ts.wf(),
    ensures
        match r {
            Ok(d) => d@ is Float64 && timestamp_part(units, ts) is Some,
            Err(e) => timestamp_part(units, ts) is None && e@ == EvalErrorV::UnsupportedDateTimeUnits(units),
        },
{
    match timestamp_part_of(units, ts) {
        Some((n, d)) => Ok(ratio_to_double(n, d, fu)),
        None => Err(EvalError::UnsupportedDateTimeUnits(units)),
    }
}

/// The part of an interval for a unit, as a double.
pub fn date_part_interval_inner<F: FloatUnit>(units: DateTimeUnits, interval: Interval, fu: &F) -> (r: Result<
    Datum,
    EvalError,
>)
    requires
        interval.wf(),
    ensures
        match r {
            Ok(d) => d@ is Float64 && interval_part(units, interval) is Some,
            Err(e) => interval_part(units, interval) is None && e@ == EvalErrorV::UnsupportedDateTimeUnits(units),
        },
{
    match interval_part_of(units, interval) {
        Some((n, d)) => {
            // The parts of an interval fit 64 bits but for the epoch of the
            // longest ones, which is given in whole seconds then.
            if n >= i64::MIN as i128 && n <= i64::MAX as i128 {
                Ok(ratio_to_double(n as i64, d, fu))
            } else {
                Ok(ratio_to_double((n / d as i128) as i64, 1, fu))
            }
        },
        None => Err(EvalError::UnsupportedDateTimeUnits(units)),
    }
}

/// The unit that a name denotes, in any case, if it denotes one.
pub open spec fn units_of_name(name: Seq<char>) -> Option<DateTimeUnits> {
    let t = crate::func_string::ascii_lowered(name);
    if t == "epoch"@ {
        Some(DateTimeUnits::Epoch)
    } else if t == "millennium"@ || t == "millennia"@ || t == "mil"@ {
        Some(DateTimeUnits::Millennium)
    } else if t == "century"@ || t == "centuries"@ || t == "c"@ {
        Some(DateTimeUnits::Century)
    } else if t == "decade"@ || t == "decades"@ || t == "dec"@ {
        Some(DateTimeUnits::Decade)
    } else if t == "year"@ || t == "years"@ || t == "y"@ || t == "yr"@ || t == "yrs"@ {
        Some(DateTimeUnits::Year)
    } else if t == "quarter"@ || t == "qtr"@ {
        Some(DateTimeUnits::Quarter)
    } else if t == "week"@ || t == "weeks"@ || t == "w"@ {
        Some(DateTimeUnits::Week)
    } else if t == "month"@ || t == "months"@ || t == "mon"@ || t == "mons"@ {
        Some(DateTimeUnits::Month)
    } else if t == "hour"@ || t == "hours"@ || t == "h"@ || t == "hr"@ || t == "hrs"@ {
        Some(DateTimeUnits::Hour)
    } else if t == "day"@ || t == "days"@ || t == "d"@ {
        Some(DateTimeUnits::Day)
    } else if t == "dow"@ {
        Some(DateTimeUnits::DayOfWeek)
    } else if t == "doy"@ {
        Some(DateTimeUnits::DayOfYear)
    } else if t == "isodow"@ {
        Some(DateTimeUnits::IsoDayOfWeek)
    } else if t == "isodoy"@ {
        Some(DateTimeUnits::IsoDayOfYear)
    } else if t == "minute"@ || t == "minutes"@ || t == "m"@ || t == "min"@ || t == "mins"@ {
        Some(DateTimeUnits::Minute)
    } else if t == "second"@ || t == "seconds"@ || t == "s"@ || t == "sec"@ || t == "secs"@ {
        Some(DateTimeUnits::Second)
    } else if t == "millisecond"@ || t == "milliseconds"@ || t == "ms"@ || t == "msec"@ || t == "msecs"@ {
        Some(DateTimeUnits::Milliseconds)
    } else if t == "microsecond"@ || t == "microseconds"@ || t == "us"@ || t == "usec"@ || t == "usecs"@ {
        Some(DateTimeUnits::Microseconds)
    } else if t == "timezone"@ {
        Some(DateTimeUnits::Timezone)
    } else if t == "timezone_hour"@ || t == "timezone_h"@ {
        Some(DateTimeUnits::TimezoneHour)
    } else if t == "timezone_minute"@ || t == "timezone_m"@ {
        Some(DateTimeUnits::TimezoneMinute)
    } else {
        None
    }
}

/// Reads the name of a unit.
pub fn parse_units(name: &str) -> (r: Option<DateTimeUnits>)
    ensures
        r == units_of_name(name@),
{
    let v = crate::strings::to_chars(name);
    let mut word = String::new();
    let mut i: usize = 0;
    while i < v.len()
        invariant
            i <= v.len(),
            word@ == crate::func_string::ascii_lowered(v@.take(i as int)),
        decreases v.len() - i,
    {
        let c = v[i];
        let u = c as u32;
        let l = if 65 <= u && u <= 90 {
            ((u + 32) as u8) as char
        } else {
            c
        };
        word.push(l);
        assert(word@ =~= crate::func_string::ascii_lowered(v@.take(i + 1)));
        i += 1;
    }
    assert(v@.take(v@.len() as int) =~= v@);
    let t = word.as_str();
    let eq = |w: &str| -> (b: bool)
        ensures
            b == (t@ == w@),
        { crate::pairs::same_text(t, w) };
    if eq("epoch") {
        Some(DateTimeUnits::Epoch)
    } else if eq("millennium") || eq("millennia") || eq("mil") {
        Some(DateTimeUnits::Millennium)
    } else if eq("century") || eq("centuries") || eq("c") {
        Some(DateTimeUnits::Century)
    } else if eq("decade") || eq("decades") || eq("dec") {
        Some(DateTimeUnits::Decade)
    } else if eq("year") || eq("years") || eq("y") || eq("yr") || eq("yrs") {
        Some(DateTimeUnits::Year)
    } else if eq("quarter") || eq("qtr") {
        Some(DateTimeUnits::Quarter)
    } else if eq("week") || eq("weeks") || eq("w") {
        Some(DateTimeUnits::Week)
    } else if eq("month") || eq("months") || eq("mon") || eq("mons") {
        Some(DateTimeUnits::Month)
    } else if eq("hour") || eq("hours") || eq("h") || eq("hr") || eq("hrs") {
        Some(DateTimeUnits::Hour)
    } else if eq("day") || eq("days") || eq("d") {
        Some(DateTimeUnits::Day)
    } else if eq("dow") {
        Some(DateTimeUnits::DayOfWeek)
    } else if eq("doy") {
        Some(DateTimeUnits::DayOfYear)
    } else if eq("isodow") {
        Some(DateTimeUnits::IsoDayOfWeek)
    } else if eq("isodoy") {
        Some(DateTimeUnits::IsoDayOfYear)
    } else if eq("minute") || eq("minutes") || eq("m") || eq("min") || eq("mins") {
        Some(DateTimeUnits::Minute)
    } else if eq("second") || eq("seconds") || eq("s") || eq("sec") || eq("secs") {
        Some(DateTimeUnits::Second)
    } else if eq("millisecond") || eq("milliseconds") || eq("ms") || eq("msec") || eq("msecs") {
        Some(DateTimeUnits::Milliseconds)
    } else if eq("microsecond") || eq("microseconds") || eq("us") || eq("usec") || eq("usecs") {
        Some(DateTimeUnits::Microseconds)
    } else if eq("timezone") {
        Some(DateTimeUnits::Timezone)
    } else if eq("timezone_hour") || eq("timezone_h") {
        Some(DateTimeUnits::TimezoneHour)
    } else if eq("timezone_minute") || eq("timezone_m") {
        Some(DateTimeUnits::TimezoneMinute)
    } else {
        None
    }
}

/// The error for a name that denotes no unit.
pub open spec fn unknown_units(name: Seq<char>) -> EvalErrorV {
    EvalErrorV::UnknownUnits(name)
}

/// The part of an interval for the unit that a text names.
pub fn date_part_interval<F: FloatUnit>(a: &Datum, interval: Interval, fu: &F) -> (r: Result<Datum, EvalError>)
    requires
        a@ is String,
        interval.wf(),
    ensures
        match units_of_name(a@->String_0) {
            None => res_view(r) == Err::<DatumV, EvalErrorV>(unknown_units(a@->String_0)),
            Some(u) => match r {
                Ok(d) => d@ is Float64 && interval_part(u, interval) is Some,
                Err(e) => interval_part(u, interval) is None && e@ == EvalErrorV::UnsupportedDateTimeUnits(u),
            },
        },
{
    let units = a.unwrap_str();
    match parse_units(units) {
        Some(u) => date_part_interval_inner(u, interval, fu),
        None => Err(EvalError::UnknownUnits(units.to_owned())),
    }
}

/// The part of a timestamp for the unit that a text names.
pub fn date_part_timestamp<F: FloatUnit>(a: &Datum, ts: Timestamp, fu: &F) -> (r: Result<Datum, EvalError>)
    requires
        a@ is String,
        ts.wf(),
    ensures
        match units_of_name(a@->String_0) {
            None => res_view(r) == Err::<DatumV, EvalErrorV>(unknown_units(a@->String_0)),
            Some(u) => match r {
                Ok(d) => d@ is Float64 && timestamp_part(u, ts) is Some,
                Err(e) => timestamp_part(u, ts) is None && e@ == EvalErrorV::UnsupportedDateTimeUnits(u),
            },
        },
{
    let units = a.unwrap_str();
    match parse_units(units) {
        Some(u) => date_part_timestamp_inner(u, ts, fu),
        None => Err(EvalError::UnknownUnits(units.to_owned())),
    }
}

/// A timestamp truncated to the unit that a text names.
pub fn date_trunc(a: &Datum, ts: Timestamp) -> (r: Result<Timestamp, EvalError>)
    requires
        a@ is String,
        ts.wf(),
    ensures
        match units_of_name(a@->String_0) {
            None => r is Err && r->Err_0@ == unknown_units(a@->String_0),
            Some(u) => match r {
                Ok(t) => date_trunc_spec(u, ts) == Ok::<Timestamp, EvalErrorV>(t) && t.wf(),
                Err(e) => date_trunc_spec(u, ts) == Err::<Timestamp, EvalErrorV>(e@),
            },
        },
{
    let units = a.unwrap_str();
    match parse_units(units) {
        Some(u) => date_trunc_inner(u, ts),
        None => Err(EvalError::UnknownUnits(units.to_owned())),
    }
}

/// The timestamp of a year, a month, a day, an hour, a minute, whole
/// seconds and microseconds: null where the hour, the minute, the seconds
/// or the microseconds are beyond a clock, where year, month or day do not
/// fit their numbers, or where the calendar has no such day.
pub open spec fn made_timestamp(
    year: i64,
    month: i64,
    day: i64,
    hour: i64,
    minute: i64,
    second: u32,
    micros: u32,
) -> DatumV {
    if year < i32::MIN || year > i32::MAX || month < 0 || month > u32::MAX || day < 0 || day > u32::MAX || hour < 0
        || hour > 23 || minute < 0 || minute > 59 || second > 59 || micros > 999_999 {
        DatumV::Null
    } else {
        match civil_days(year as i32, month as u32, day as u32) {
            Some(days) => DatumV::Timestamp(
                Timestamp {
                    date: Date { days },
                    time: Time { secs: (hour * 3600 + minute * 60 + second) as u32, nanos: (micros * 1_000) as u32 },
                },
            ),
            None => DatumV::Null,
        }
    }
}

/// The timestamp of a year, a month, a day, an hour, a minute, whole
/// seconds and microseconds.
pub fn timestamp_of_parts(year: i64, month: i64, day: i64, hour: i64, minute: i64, second: u32, micros: u32) -> (r:
    Datum)
    ensures
        r@ == made_timestamp(year, month, day, hour, minute, second, micros),
        r@ is Null || is_timestamp(r@),
{
    if year < i32::MIN as i64 || year > i32::MAX as i64 || month < 0 || month > u32::MAX as i64 || day < 0 || day
        > u32::MAX as i64 || hour < 0 || hour > 23 || minute < 0 || minute > 59 {
        return Datum::Null;
    }
    if second > 59 || micros > 999_999 {
        return Datum::Null;
    }
    match days_of_civil(year as i32, month as u32, day as u32) {
        Some(days) => Datum::Timestamp(
            Timestamp {
                date: Date { days },
                time: Time { secs: (hour * 3600 + minute * 60) as u32 + second, nanos: micros * 1_000 },
            },
        ),
        None => Datum::Null,
    }
}

/// The timestamp of a year, a month, a day, an hour, a minute and seconds
/// with their fraction, which the host splits into whole seconds and
/// microseconds. Null where they name no timestamp. The host is given the
/// seconds, and whatever it makes of them, the result is what
/// `made_timestamp` makes of the parts.
pub fn make_timestamp<F: FloatUnit>(datums: &Vec<Datum>, fu: &F) -> (r: Datum)
    requires
        datums@.len() == 6,
        forall|i: int| 0 <= i < 5 ==> (#[trigger] datums@[i])@ is Int64,
        datums@[5]@ is Float64,
    ensures
        exists|second: u32, micros: u32|
            r@ == #[trigger] made_timestamp(
                datums@[0]@->Int64_0,
                datums@[1]@->Int64_0,
                datums@[2]@->Int64_0,
                datums@[3]@->Int64_0,
                datums@[4]@->Int64_0,
                second,
                micros,
            ),
        r@ is Null || is_timestamp(r@),
{
    let year = datums[0].unwrap_int64();
    let month = datums[1].unwrap_int64();
    let day = datums[2].unwrap_int64();
    let hour = datums[3].unwrap_int64();
    let minute = datums[4].unwrap_int64();
    let (second, micros) = fu.whole_and_micros(datums[5].unwrap_float64());
    let r = timestamp_of_parts(year, month, day, hour, minute, second, micros);
    assert(r@ == made_timestamp(
        datums@[0]@->Int64_0,
        datums@[1]@->Int64_0,
        datums@[2]@->Int64_0,
        datums@[3]@->Int64_0,
        datums@[4]@->Int64_0,
        second,
        micros,
    ));
    r
}

} // verus!
