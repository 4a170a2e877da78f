//! Reading dates, times, timestamps and intervals from their texts.
//!
//! Each text is read from left to right by readers that take a place in
//! the text and give what they read and the place behind it. For each
//! reader a function of the same name with `_at` says what it reads.

use vstd::prelude::*;
use crate::datetime::{civil_days, MAX_DURATION};
use crate::datum::{Date, Datum, DatumV, Interval, Time, Timestamp};
use crate::error::{EvalError, EvalErrorV};
use crate::func_datetime::Timezone;
use crate::func_string::{invalid_input, syntax_error};
use crate::pairs::same_text;
use crate::strings::{digit_value, from_chars_range, is_digit, to_chars, trim_bounds, trimmed};

verus! {

/// The digits from place `i` up to `stop` added to a number read so far,
/// and the place behind them. Nothing for a number of more than 18
/// digits.
pub open spec fn digits_from(v: Seq<char>, i: int, stop: int, acc: int) -> Option<(int, int)>
    decreases stop - i,
{
    if 0 <= i < stop <= v.len() && is_digit(v[i]) {
        if acc >= 100_000_000_000_000_000 {
            None
        } else {
            digits_from(v, i + 1, stop, acc * 10 + digit_value(v[i]))
        }
    } else {
        Some((acc, i))
    }
}

/// The number of at most `max` digits that stands at a place, and the
/// place behind it. Nothing where no digit stands at the place.
pub open spec fn number_at(v: Seq<char>, pos: int, end: int, max: int) -> Option<(int, int)> {
    let stop = if end - pos < max {
        end
    } else {
        pos + max
    };
    match digits_from(v, pos, stop, 0) {
        Some((n, i)) => if i == pos {
            None
        } else {
            Some((n, i))
        },
        None => None,
    }
}

/// The view of a number with the place behind it.
pub open spec fn number_view(r: Option<(u64, usize)>) -> Option<(int, int)> {
    match r {
        Some((n, p)) => Some((n as int, p as int)),
        None => None,
    }
}

/// Reads a number of at most `max` digits, at most 18, that starts at a
/// place.
#[verifier::loop_isolation(false)]
fn read_number(v: &Vec<char>, pos: usize, end: usize, max: usize) -> (r: Option<(u64, usize)>)
    requires
        pos <= end <= v@.len(),
        max <= 18,
    ensures
        number_view(r) == number_at(v@, pos as int, end as int, max as int),
        r is Some ==> pos < (r->0).1 <= end && (r->0).1 - pos <= max && (r->0).0 < 1_000_000_000_000_000_000,
{
    let stop = if end - pos < max {
        end
    } else {
        pos + max
    };
    let mut n: u64 = 0;
    let mut i: usize = pos;
    while i < stop && 48 <= v[i] as u32 && v[i] as u32 <= 57
        invariant
            pos <= i <= stop <= end,
            end <= v@.len(),
            n < 1_000_000_000_000_000_000,
            digits_from(v@, pos as int, stop as int, 0) == digits_from(v@, i as int, stop as int, n as int),
        decreases stop - i,
    {
        if n >= 100_000_000_000_000_000 {
            assert(digits_from(v@, i as int, stop as int, n as int) is None);
            return None;
        }
        n = n * 10 + (v[i] as u32 - 48) as u64;
        i += 1;
    }
    if i == pos {
        None
    } else {
        Some((n, i))
    }
}

/// Whether a character stands at a place.
pub open spec fn stands_at(v: Seq<char>, pos: int, end: int, c: char) -> bool {
    0 <= pos < end <= v.len() && v[pos] == c
}

/// Whether a character stands at a place.
fn at(v: &Vec<char>, pos: usize, end: usize, c: char) -> (r: bool)
    requires
        pos <= end <= v@.len(),
    ensures
        r == stands_at(v@, pos as int, end as int, c),
{
    pos < end && v[pos] == c
}

/// Year, month and day with hyphens between them, and the place behind
/// them.
pub open spec fn ymd_at(v: Seq<char>, pos: int, end: int) -> Option<(int, int, int, int)> {
    match number_at(v, pos, end, 6) {
        None => None,
        Some((year, p1)) => if year > 999_999 || !stands_at(v, p1, end, '-') {
            None
        } else {
            match number_at(v, p1 + 1, end, 2) {
                None => None,
                Some((month, p2)) => if !stands_at(v, p2, end, '-') {
                    None
                } else {
                    match number_at(v, p2 + 1, end, 2) {
                        None => None,
                        Some((day, p3)) => if month > 99 || day > 99 {
                            None
                        } else {
                            Some((year, month, day, p3))
                        },
                    }
                },
            }
        },
    }
}

/// Reads year, month and day, with hyphens between them.
fn read_ymd(v: &Vec<char>, pos: usize, end: usize) -> (r: Option<(u64, u64, u64, usize)>)
    requires
        pos <= end <= v@.len(),
    ensures
        match r {
            Some((y, m, d, p)) => ymd_at(v@, pos as int, end as int) == Some((y as int, m as int, d as int, p as int)),
            None => ymd_at(v@, pos as int, end as int) is None,
        },
        r is Some ==> pos < (r->0).3 <= end && (r->0).0 <= 999_999 && (r->0).1 <= 99 && (r->0).2 <= 99,
{
    let (year, p1) = match read_number(v, pos, end, 6) {
        Some(x) => x,
        None => {
            return None;
        },
    };
    if year > 999_999 {
        return None;
    }
    if !at(v, p1, end, '-') {
        return None;
    }
    let (month, p2) = match read_number(v, p1 + 1, end, 2) {
        Some(x) => x,
        None => {
            return None;
        },
    };
    if !at(v, p2, end, '-') {
        return None;
    }
    let (day, p3) = match read_number(v, p2 + 1, end, 2) {
        Some(x) => x,
        None => {
            return None;
        },
    };
    if month > 99 || day > 99 {
        return None;
    }
    Some((year, month, day, p3))
}

/// The digits of a fraction of a second as nanoseconds: the `k` digits
/// that were read are the first of nine.
pub open spec fn scaled_up(f: int, k: int) -> Option<int>
    decreases 9 - k,
{
    if k >= 9 {
        Some(f)
    } else if f >= 100_000_000_000_000_000 {
        None
    } else {
        scaled_up(f * 10, k + 1)
    }
}

/// The digits of a fraction of a second as nanoseconds.
fn scale_up(f: u64, k: usize) -> (r: Option<u64>)
    requires
        f < 1_000_000_000_000_000_000,
    ensures
        match r {
            Some(n) => scaled_up(f as int, k as int) == Some(n as int) && n < 1_000_000_000_000_000_000,
            None => scaled_up(f as int, k as int) is None,
        },
{
    let mut scaled = f;
    let mut j: usize = k;
    while j < 9
        invariant
            scaled < 1_000_000_000_000_000_000,
            scaled_up(f as int, k as int) == scaled_up(scaled as int, j as int),
        decreases 9 - j,
    {
        if scaled >= 100_000_000_000_000_000 {
            return None;
        }
        scaled = scaled * 10;
        j += 1;
    }
    Some(scaled)
}

/// What follows the minutes of a clock time: seconds behind a colon, with
/// their fraction behind a point, where they are given. The seconds, the
/// nanoseconds and the place behind them.
pub open spec fn seconds_at(v: Seq<char>, pos: int, end: int) -> Option<(int, int, int)> {
    if !stands_at(v, pos, end, ':') {
        Some((0, 0, pos))
    } else {
        match number_at(v, pos + 1, end, 2) {
            None => None,
            Some((s, p3)) => if !stands_at(v, p3, end, '.') {
                Some((s, 0, p3))
            } else {
                match number_at(v, p3 + 1, end, 9) {
                    None => None,
                    Some((f, p4)) => match scaled_up(f, p4 - (p3 + 1)) {
                        None => None,
                        Some(n) => Some((s, n, p4)),
                    },
                }
            },
        }
    }
}

/// Reads what follows the minutes of a clock time.
fn read_seconds(v: &Vec<char>, pos: usize, end: usize) -> (r: Option<(u64, u64, usize)>)
    requires
        pos <= end <= v@.len(),
    ensures
        match r {
            Some((s, n, p)) => seconds_at(v@, pos as int, end as int) == Some((s as int, n as int, p as int)),
            None => seconds_at(v@, pos as int, end as int) is None,
        },
        r is Some ==> pos <= (r->0).2 <= end && (r->0).0 < 1_000_000_000_000_000_000 && (r->0).1
            < 1_000_000_000_000_000_000,
{
    if !at(v, pos, end, ':') {
        return Some((0, 0, pos));
    }
    let (s, p3) = match read_number(v, pos + 1, end, 2) {
        Some(x) => x,
        None => {
            return None;
        },
    };
    if !at(v, p3, end, '.') {
        return Some((s, 0, p3));
    }
    let (f, p4) = match read_number(v, p3 + 1, end, 9) {
        Some(x) => x,
        None => {
            return None;
        },
    };
    match scale_up(f, p4 - (p3 + 1)) {
        Some(n) => Some((s, n, p4)),
        None => None,
    }
}

/// The time of day that stands at a place: hours and minutes with a colon
/// between them, and seconds where they are given; and the place behind
/// it.
pub open spec fn time_at(v: Seq<char>, pos: int, end: int) -> Option<(Time, int)> {
    match number_at(v, pos, end, 2) {
        None => None,
        Some((hour, p1)) => if !stands_at(v, p1, end, ':') {
            None
        } else {
            match number_at(v, p1 + 1, end, 2) {
                None => None,
                Some((minute, p2)) => match seconds_at(v, p2, end) {
                    None => None,
                    Some((second, nanos, p)) => if hour > 23 || minute > 59 || second > 59 || nanos > 999_999_999 {
                        None
                    } else {
                        Some((Time { secs: (hour * 3600 + minute * 60 + second) as u32, nanos: nanos as u32 }, p))
                    },
                },
            }
        },
    }
}

/// Reads a time of day.
fn read_time(v: &Vec<char>, pos: usize, end: usize) -> (r: Option<(Time, usize)>)
    requires
        pos <= end <= v@.len(),
    ensures
        match r {
            Some((t, p)) => time_at(v@, pos as int, end as int) == Some((t, p as int)),
            None => time_at(v@, pos as int, end as int) is None,
        },
        r is Some ==> pos < (r->0).1 <= end && (r->0).0.wf(),
{
    let (hour, p1) = match read_number(v, pos, end, 2) {
        Some(x) => x,
        None => {
            return None;
        },
    };
    if !at(v, p1, end, ':') {
        return None;
    }
    let (minute, p2) = match read_number(v, p1 + 1, end, 2) {
        Some(x) => x,
        None => {
            return None;
        },
    };
    let (second, nanos, p) = match read_seconds(v, p2, end) {
        Some(x) => x,
        None => {
            return None;
        },
    };
    if hour > 23 || minute > 59 || second > 59 || nanos > 999_999_999 {
        return None;
    }
    Some((Time { secs: (hour * 3600 + minute * 60 + second) as u32, nanos: nanos as u32 }, p))
}

/// Whether the mark of the years before the year 1 stands at a place, a
/// space and `BC` in whichever case, and the place behind it.
pub open spec fn era_at(v: Seq<char>, pos: int, end: int) -> (bool, int) {
    if 0 <= pos && end <= v.len() && end - pos >= 3 && v[pos] == ' ' && (v[pos + 1] == 'B' || v[pos + 1] == 'b') && (
    v[pos + 2] == 'C' || v[pos + 2] == 'c') {
        (true, pos + 3)
    } else {
        (false, pos)
    }
}

/// Reads the mark of the years before the year 1.
fn read_era(v: &Vec<char>, pos: usize, end: usize) -> (r: (bool, usize))
    requires
        pos <= end <= v@.len(),
    ensures
        (r.0, r.1 as int) == era_at(v@, pos as int, end as int),
        pos <= r.1 <= end,
{
    if end - pos >= 3 && v[pos] == ' ' && (v[pos + 1] == 'B' || v[pos + 1] == 'b') && (v[pos + 2] == 'C' || v[pos + 2]
        == 'c') {
        (true, pos + 3)
    } else {
        (false, pos)
    }
}

/// The date of a year as it is written, a month and a day, if the
/// calendar has it: the year 1 BC is the year before the year 1, and
/// there is no year 0.
pub open spec fn date_of(year: int, bc: bool, month: int, day: int) -> Option<Date> {
    if year == 0 {
        None
    } else {
        let y = if bc {
            1 - year
        } else {
            year
        };
        match civil_days(y as i32, month as u32, day as u32) {
            Some(days) => Some(Date { days }),
            None => None,
        }
    }
}

/// The date of a year as it is written, a month and a day.
fn make_date(year: u64, bc: bool, month: u64, day: u64) -> (r: Option<Date>)
    requires
        year <= 999_999,
        month <= 99,
        day <= 99,
    ensures
        r == date_of(year as int, bc, month as int, day as int),
        r is Some ==> r->0.wf(),
{
    let y: i64 = if bc {
        1 - year as i64
    } else {
        year as i64
    };
    if year == 0 {
        return None;
    }
    Date::from_ymd(y as i32, month as u32, day as u32)
}

/// The date that a text without white space around it denotes: year,
/// month and day, and the mark of the years before the year 1 where it is
/// given, and nothing else.
pub open spec fn date_in(t: Seq<char>) -> Option<Date> {
    match ymd_at(t, 0, t.len() as int) {
        None => None,
        Some((year, month, day, p)) => {
            let (bc, p2) = era_at(t, p, t.len() as int);
            if p2 != t.len() {
                None
            } else {
                date_of(year, bc, month, day)
            }
        },
    }
}

/// A datum, or the error of a text that does not denote one.
pub open spec fn parsed_or(d: Option<DatumV>, target: Seq<char>, input: Seq<char>) -> Result<DatumV, EvalErrorV> {
    match d {
        Some(d) => Ok(d),
        None => Err(syntax_error(target, input)),
    }
}

/// The characters of a text without the white space around it.
fn trimmed_chars(s: &str) -> (r: Vec<char>)
    ensures
        r@ == trimmed(s@),
{
    let v = to_chars(s);
    let (x, y) = trim_bounds(&v);
    let t = from_chars_range(&v, x, y);
    to_chars(t.as_str())
}

/// The date that a text denotes: year, month and day with hyphens between
/// them, and `BC` behind them for a year before the year 1. White space
/// around the text does not count.
pub fn cast_string_to_date(a: &Datum) -> (r: Result<Datum, EvalError>)
    requires
        a@ is String,
    ensures
        crate::datum::res_view(r) == parsed_or(
            match date_in(trimmed(a@->String_0)) {
                Some(d) => Some(DatumV::Date(d)),
                None => None,
            },
            "date"@,
            a@->String_0,
        ),
        r is Ok ==> crate::func_datetime::is_date(r->Ok_0@),
{
    let s = a.unwrap_str();
    let v = trimmed_chars(s);
    let y = v.len();
    match read_ymd(&v, 0, y) {
        Some((year, month, day, p)) => {
            let (bc, p2) = read_era(&v, p, y);
            if p2 != y {
                return Err(invalid_input("date", s));
            }
            match make_date(year, bc, month, day) {
                Some(d) => Ok(Datum::Date(d)),
                None => Err(invalid_input("date", s)),
            }
        },
        None => Err(invalid_input("date", s)),
    }
}

/// The time of day that a text without white space around it denotes, and
/// nothing else.
pub open spec fn time_in(t: Seq<char>) -> Option<Time> {
    match time_at(t, 0, t.len() as int) {
        Some((time, p)) => if p == t.len() {
            Some(time)
        } else {
            None
        },
        None => None,
    }
}

/// The time of day that a text denotes: hours and minutes, and seconds
/// with their fraction where they are given, with colons between them.
pub fn cast_string_to_time(a: &Datum) -> (r: Result<Datum, EvalError>)
    requires
        a@ is String,
    ensures
        crate::datum::res_view(r) == parsed_or(
            match time_in(trimmed(a@->String_0)) {
                Some(t) => Some(DatumV::Time(t)),
                None => None,
            },
            "time"@,
            a@->String_0,
        ),
        r is Ok ==> crate::func_datetime::is_time(r->Ok_0@),
{
    let s = a.unwrap_str();
    let v = trimmed_chars(s);
    let y = v.len();
    match read_time(&v, 0, y) {
        Some((t, p)) => if p == y {
            Ok(Datum::Time(t))
        } else {
            Err(invalid_input("time", s))
        },
        None => Err(invalid_input("time", s)),
    }
}

/// The distance of a time zone from UTC that stands at a place: `Z`, or a
/// sign with hours and, behind a colon, minutes; and the place behind it.
pub open spec fn zone_at(v: Seq<char>, pos: int, end: int) -> Option<(Timezone, int)> {
    if stands_at(v, pos, end, 'Z') || stands_at(v, pos, end, 'z') {
        Some((Timezone { offset_secs: 0 }, pos + 1))
    } else if !stands_at(v, pos, end, '-') && !stands_at(v, pos, end, '+') {
        None
    } else {
        match number_at(v, pos + 1, end, 2) {
            None => None,
            Some((hours, p1)) => {
                let minutes = if stands_at(v, p1, end, ':') {
                    number_at(v, p1 + 1, end, 2)
                } else {
                    Some((0int, p1))
                };
                match minutes {
                    None => None,
                    Some((m, p)) => if hours > 23 || m > 59 {
                        None
                    } else {
                        let secs = hours * 3600 + m * 60;
                        Some(
                            (
                                Timezone {
                                    offset_secs: if stands_at(v, pos, end, '-') {
                                        (-secs) as i32
                                    } else {
                                        secs as i32
                                    },
                                },
                                p,
                            ),
                        )
                    },
                }
            },
        }
    }
}

/// Reads the distance of a time zone from UTC.
fn read_zone(v: &Vec<char>, pos: usize, end: usize) -> (r: Option<(Timezone, usize)>)
    requires
        pos <= end <= v@.len(),
    ensures
        match r {
            Some((z, p)) => zone_at(v@, pos as int, end as int) == Some((z, p as int)),
            None => zone_at(v@, pos as int, end as int) is None,
        },
        r is Some ==> pos < (r->0).1 <= end && (r->0).0.wf(),
{
    if at(v, pos, end, 'Z') || at(v, pos, end, 'z') {
        return Some((Timezone { offset_secs: 0 }, pos + 1));
    }
    let negative = at(v, pos, end, '-');
    if !negative && !at(v, pos, end, '+') {
        return None;
    }
    let (hours, p1) = match read_number(v, pos + 1, end, 2) {
        Some(x) => x,
        None => {
            return None;
        },
    };
    let mut minutes: u64 = 0;
    let mut p = p1;
    if at(v, p1, end, ':') {
        match read_number(v, p1 + 1, end, 2) {
            Some((m, p2)) => {
                minutes = m;
                p = p2;
            },
            None => {
                return None;
            },
        }
    }
    if hours > 23 || minutes > 59 {
        return None;
    }
    let secs = (hours * 3600 + minutes * 60) as i32;
    Some(
        (
            Timezone {
                offset_secs: if negative {
                    -secs
                } else {
                    secs
                },
            },
            p,
        ),
    )
}

/// The timestamp that a text without white space around it denotes, with
/// the distance of its time zone from UTC: a date; behind a space or a
/// `T` a time of day, midnight where none stands there; a time zone, UTC
/// where none is given; and the mark of the years before the year 1.
pub open spec fn timestamp_in(t: Seq<char>) -> Option<(Timestamp, Timezone)> {
    let end = t.len() as int;
    match ymd_at(t, 0, end) {
        None => None,
        Some((year, month, day, p)) => {
            let clock = if stands_at(t, p, end, ' ') || stands_at(t, p, end, 'T') {
                time_at(t, p + 1, end)
            } else {
                None
            };
            let (time, p2) = match clock {
                Some(c) => c,
                None => (Time { secs: 0, nanos: 0 }, p),
            };
            let (zone, p3) = match zone_at(t, p2, end) {
                Some(z) => z,
                None => (Timezone { offset_secs: 0 }, p2),
            };
            let (bc, p4) = era_at(t, p3, end);
            if p4 != end {
                None
            } else {
                match date_of(year, bc, month, day) {
                    Some(date) => Some((Timestamp { date, time }, zone)),
                    None => None,
                }
            }
        },
    }
}

/// Reads a timestamp and the distance of its time zone from UTC.
fn read_timestamp(s: &str) -> (r: Option<(Timestamp, Timezone)>)
    ensures
        r == timestamp_in(trimmed(s@)),
        r is Some ==> (r->0).0.wf() && (r->0).1.wf(),
{
    let v = trimmed_chars(s);
    let y = v.len();
    let (year, month, day, p) = match read_ymd(&v, 0, y) {
        Some(t) => t,
        None => {
            return None;
        },
    };
    let mut time = Time { secs: 0, nanos: 0 };
    let mut pos = p;
    if at(&v, p, y, ' ') || at(&v, p, y, 'T') {
        match read_time(&v, p + 1, y) {
            Some((t, p2)) => {
                time = t;
                pos = p2;
            },
            None => {},
        }
    }
    let mut zone = Timezone { offset_secs: 0 };
    match read_zone(&v, pos, y) {
        Some((z, p3)) => {
            zone = z;
            pos = p3;
        },
        None => {},
    }
    let (bc, p4) = read_era(&v, pos, y);
    if p4 != y {
        return None;
    }
    match make_date(year, bc, month, day) {
        Some(date) => Some((Timestamp { date, time }, zone)),
        None => None,
    }
}

/// The timestamp that a text denotes: a date, and a time of day behind
/// it where one is given. A time zone in the text is not looked at.
pub fn cast_string_to_timestamp(a: &Datum) -> (r: Result<Datum, EvalError>)
    requires
        a@ is String,
    ensures
        crate::datum::res_view(r) == parsed_or(
            match timestamp_in(trimmed(a@->String_0)) {
                Some((ts, _)) => Some(DatumV::Timestamp(ts)),
                None => None,
            },
            "timestamp"@,
            a@->String_0,
        ),
        r is Ok ==> crate::func_datetime::is_timestamp(r->Ok_0@),
{
    let s = a.unwrap_str();
    match read_timestamp(s) {
        Some((ts, _)) => Ok(Datum::Timestamp(ts)),
        None => Err(invalid_input("timestamp", s)),
    }
}

/// The moment in UTC that a text denotes, if the calendar has it.
pub open spec fn moment_in(t: Seq<char>) -> Option<Timestamp> {
    match timestamp_in(t) {
        Some((ts, zone)) => ts.plus_nanos(-(zone.offset_secs as int * 1_000_000_000)),
        None => None,
    }
}

/// The moment that a text denotes: a date, a time of day where one is
/// given, and the time zone that they are meant in, UTC where none is
/// given.
pub fn cast_string_to_timestamptz(a: &Datum) -> (r: Result<Datum, EvalError>)
    requires
        a@ is String,
    ensures
        crate::datum::res_view(r) == parsed_or(
            match moment_in(trimmed(a@->String_0)) {
                Some(ts) => Some(DatumV::TimestampTz(ts)),
                None => None,
            },
            "timestamp with time zone"@,
            a@->String_0,
        ),
        r is Ok ==> crate::func_datetime::is_timestamptz(r->Ok_0@),
{
    let s = a.unwrap_str();
    match read_timestamp(s) {
        Some((ts, zone)) => match ts.add_nanos(-(zone.offset_secs as i128 * 1_000_000_000)) {
            Some(utc) => Ok(Datum::TimestampTz(utc)),
            None => Err(invalid_input("timestamp with time zone", s)),
        },
        None => Err(invalid_input("timestamp with time zone", s)),
    }
}

/// Whether a text is `UTC` in whichever case.
pub open spec fn is_utc(t: Seq<char>) -> bool {
    t.len() == 3 && (t[0] == 'U' || t[0] == 'u') && (t[1] == 'T' || t[1] == 't') && (t[2] == 'C' || t[2] == 'c')
}

/// The time zone that a text without white space around it denotes:
/// `UTC`, `Z`, or a sign with hours and, where they are given, minutes.
pub open spec fn timezone_in(t: Seq<char>) -> Option<Timezone> {
    if is_utc(t) {
        Some(Timezone { offset_secs: 0 })
    } else {
        match zone_at(t, 0, t.len() as int) {
            Some((z, p)) => if p == t.len() {
                Some(z)
            } else {
                None
            },
            None => None,
        }
    }
}

/// The time zone that a text denotes: `UTC`, `Z`, or a sign with hours and,
/// where they are given, minutes. Zones by name are not known here.
pub fn parse_timezone(tz: &str) -> (r: Result<Timezone, EvalError>)
    ensures
        match r {
            Ok(z) => timezone_in(trimmed(tz@)) == Some(z) && z.wf(),
            Err(e) => timezone_in(trimmed(tz@)) is None && e@ == EvalErrorV::InvalidTimezone(tz@),
        },
{
    let v = trimmed_chars(tz);
    let y = v.len();
    if y == 3 && (v[0] == 'U' || v[0] == 'u') && (v[1] == 'T' || v[1] == 't') && (v[2] == 'C' || v[2] == 'c') {
        return Ok(Timezone { offset_secs: 0 });
    }
    match read_zone(&v, 0, y) {
        Some((z, p)) => if p == y {
            Ok(z)
        } else {
            Err(EvalError::InvalidTimezone(tz.to_owned()))
        },
        None => Err(EvalError::InvalidTimezone(tz.to_owned())),
    }
}

/// The nanoseconds of a unit of clock time, or the months of a unit of
/// the calendar, that a word names: the first for a count of nanoseconds,
/// the second for a count of months.
pub open spec fn unit_value(w: Seq<char>) -> Option<(int, int)> {
    if w == "year"@ || w == "years"@ || w == "y"@ || w == "yr"@ || w == "yrs"@ {
        Some((0, 12))
    } else if w == "month"@ || w == "months"@ || w == "mon"@ || w == "mons"@ {
        Some((0, 1))
    } else if w == "week"@ || w == "weeks"@ || w == "w"@ {
        Some((604_800_000_000_000, 0))
    } else if w == "day"@ || w == "days"@ || w == "d"@ {
        Some((86_400_000_000_000, 0))
    } else if w == "hour"@ || w == "hours"@ || w == "h"@ || w == "hr"@ || w == "hrs"@ {
        Some((3_600_000_000_000, 0))
    } else if w == "minute"@ || w == "minutes"@ || w == "min"@ || w == "mins"@ || w == "m"@ {
        Some((60_000_000_000, 0))
    } else if w == "second"@ || w == "seconds"@ || w == "sec"@ || w == "secs"@ || w == "s"@ {
        Some((1_000_000_000, 0))
    } else {
        None
    }
}

/// The unit that the word from `from` up to `to` names.
fn unit_of(v: &Vec<char>, from: usize, to: usize) -> (r: Option<(i128, i64)>)
    requires
        from <= to <= v@.len(),
    ensures
        match r {
            Some((n, m)) => unit_value(v@.subrange(from as int, to as int)) == Some((n as int, m as int)),
            None => unit_value(v@.subrange(from as int, to as int)) is None,
        },
        r is Some ==> (0 <= (r->0).0 <= 604_800_000_000_000 && 0 <= (r->0).1 <= 12),
{
    let w = from_chars_range(v, from, to);
    let t = w.as_str();
    if same_text(t, "year") || same_text(t, "years") || same_text(t, "y") || same_text(t, "yr") || same_text(t, "yrs") {
        Some((0, 12))
    } else if same_text(t, "month") || same_text(t, "months") || same_text(t, "mon") || same_text(t, "mons") {
        Some((0, 1))
    } else if same_text(t, "week") || same_text(t, "weeks") || same_text(t, "w") {
        Some((604_800_000_000_000, 0))
    } else if same_text(t, "day") || same_text(t, "days") || same_text(t, "d") {
        Some((86_400_000_000_000, 0))
    } else if same_text(t, "hour") || same_text(t, "hours") || same_text(t, "h") || same_text(t, "hr") || same_text(
        t,
        "hrs",
    ) {
        Some((3_600_000_000_000, 0))
    } else if same_text(t, "minute") || same_text(t, "minutes") || same_text(t, "min") || same_text(t, "mins")
        || same_text(t, "m") {
        Some((60_000_000_000, 0))
    } else if same_text(t, "second") || same_text(t, "seconds") || same_text(t, "sec") || same_text(t, "secs")
        || same_text(t, "s") {
        Some((1_000_000_000, 0))
    } else {
        None
    }
}

/// The first place from `i` on, before `end`, that holds no space.
pub open spec fn blanks_end(v: Seq<char>, i: int, end: int) -> int
    decreases end - i,
{
    if 0 <= i < end <= v.len() && v[i] == ' ' {
        blanks_end(v, i + 1, end)
    } else {
        i
    }
}

/// The first place from `i` on, before `end`, that holds a space.
pub open spec fn word_end(v: Seq<char>, i: int, end: int) -> int
    decreases end - i,
{
    if 0 <= i < end <= v.len() && v[i] != ' ' {
        word_end(v, i + 1, end)
    } else {
        i
    }
}

/// What a count with what follows it adds to an interval: nanoseconds,
/// months, and the place behind it. Behind the count stands a colon and
/// the rest of a clock time, of which the count is the hours; or a unit,
/// of which the count is at most four thousand million.
pub open spec fn part_at(v: Seq<char>, n: int, p1: int, end: int) -> Option<(int, int, int)> {
    if stands_at(v, p1, end, ':') {
        if n > 2_147_483_647 {
            None
        } else {
            match number_at(v, p1 + 1, end, 2) {
                None => None,
                Some((minute, p2)) => match seconds_at(v, p2, end) {
                    None => None,
                    Some((second, nanos, p)) => if minute > 59 || second > 59 || nanos > 999_999_999 {
                        None
                    } else {
                        Some(((n * 3600 + minute * 60 + second) * 1_000_000_000 + nanos, 0, p))
                    },
                },
            }
        }
    } else {
        let p2 = blanks_end(v, p1, end);
        let p3 = word_end(v, p2, end);
        match unit_value(v.subrange(p2, p3)) {
            None => None,
            Some((nanos, months)) => if n > 4_000_000_000 {
                None
            } else {
                Some((n * nanos, n * months, p3))
            },
        }
    }
}

/// Reads what follows a count in the text of an interval.
fn read_part(v: &Vec<char>, n: u64, p1: usize, end: usize) -> (r: Option<(i128, i64, usize)>)
    requires
        p1 <= end <= v@.len(),
        n < 1_000_000_000_000_000_000,
    ensures
        match r {
            Some((a, m, p)) => part_at(v@, n as int, p1 as int, end as int) == Some((a as int, m as int, p as int)),
            None => part_at(v@, n as int, p1 as int, end as int) is None,
        },
        r is Some ==> p1 <= (r->0).2 <= end && 0 <= (r->0).0 <= 4_000_000_000 * 604_800_000_000_000 && 0 <= (r->0).1
            <= 48_000_000_000,
{
    if at(v, p1, end, ':') {
        if n > 2_147_483_647 {
            return None;
        }
        let (minute, p2) = match read_number(v, p1 + 1, end, 2) {
            Some(x) => x,
            None => {
                return None;
            },
        };
        let (second, nanos, p) = match read_seconds(v, p2, end) {
            Some(x) => x,
            None => {
                return None;
            },
        };
        if minute > 59 || second > 59 || nanos > 999_999_999 {
            return None;
        }
        Some(((n as i128 * 3600 + minute as i128 * 60 + second as i128) * 1_000_000_000 + nanos as i128, 0, p))
    } else {
        let mut p2 = p1;
        while p2 < end && v[p2] == ' '
            invariant
                p1 <= p2 <= end <= v@.len(),
                blanks_end(v@, p1 as int, end as int) == blanks_end(v@, p2 as int, end as int),
            decreases end - p2,
        {
            p2 += 1;
        }
        let mut p3 = p2;
        while p3 < end && v[p3] != ' '
            invariant
                p2 <= p3 <= end <= v@.len(),
                word_end(v@, p2 as int, end as int) == word_end(v@, p3 as int, end as int),
            decreases end - p3,
        {
            p3 += 1;
        }
        match unit_of(v, p2, p3) {
            Some((nanos, months)) => {
                if n > 4_000_000_000 {
                    return None;
                }
                assert(0 <= n as i128 * nanos <= 4_000_000_000 * 604_800_000_000_000) by (nonlinear_arith)
                    requires
                        0 <= n <= 4_000_000_000,
                        0 <= nanos <= 604_800_000_000_000,
                ;
                assert(0 <= n as i64 * months <= 4_000_000_000 * 12) by (nonlinear_arith)
                    requires
                        0 <= n <= 4_000_000_000,
                        0 <= months <= 12,
                ;
                Some((n as i128 * nanos, n as i64 * months, p3))
            },
            None => None,
        }
    }
}

/// The interval of the parts from a place on, added to the months and the
/// nanoseconds read so far: spaces are skipped; a part is a count, with a
/// sign where it is negative, and what follows it. Nothing where a part
/// cannot be read, where a sum leaves the range of intervals, or where
/// there is no part at all.
pub open spec fn interval_from(v: Seq<char>, pos: int, months: int, duration: int, any: bool) -> Option<Interval>
    decreases v.len() - pos,
{
    let end = v.len() as int;
    if pos < 0 || pos >= end {
        if any {
            Some(Interval { months: months as i32, duration: duration as i128 })
        } else {
            None
        }
    } else if v[pos] == ' ' {
        interval_from(v, pos + 1, months, duration, any)
    } else {
        let negative = v[pos] == '-';
        let start = if negative || v[pos] == '+' {
            pos + 1
        } else {
            pos
        };
        match number_at(v, start, end, 18) {
            None => None,
            Some((n, p1)) => match part_at(v, n, p1, end) {
                None => None,
                Some((add_nanos, add_months, next)) => {
                    let d = if negative {
                        duration - add_nanos
                    } else {
                        duration + add_nanos
                    };
                    let m = if negative {
                        months - add_months
                    } else {
                        months + add_months
                    };
                    if d > MAX_DURATION || d < -MAX_DURATION || m > i32::MAX || m < i32::MIN || next <= pos || next
                        > end {
                        None
                    } else {
                        interval_from(v, next, m, d, true)
                    }
                },
            },
        }
    }
}

/// The interval that a text denotes: counts with their units, and a time
/// of day, with spaces between them, each with a sign where it is
/// negative.
pub fn cast_string_to_interval(a: &Datum) -> (r: Result<Datum, EvalError>)
    requires
        a@ is String,
    ensures
        crate::datum::res_view(r) == parsed_or(
            match interval_from(trimmed(a@->String_0), 0, 0, 0, false) {
                Some(i) => Some(DatumV::Interval(i)),
                None => None,
            },
            "interval"@,
            a@->String_0,
        ),
        r is Ok ==> crate::func_datetime::is_interval(r->Ok_0@),
{
    let s = a.unwrap_str();
    let v = trimmed_chars(s);
    let y = v.len();
    let mut months: i64 = 0;
    let mut duration: i128 = 0;
    let mut pos: usize = 0;
    let mut any = false;
    while pos < y
        invariant
            pos <= y == v@.len(),
            v@ == trimmed(a@->String_0),
            s@ == a@->String_0,
            -MAX_DURATION <= duration <= MAX_DURATION,
            i32::MIN <= months <= i32::MAX,
            interval_from(v@, 0, 0, 0, false) == interval_from(v@, pos as int, months as int, duration as int, any),
        decreases y - pos,
    {
        if v[pos] == ' ' {
            pos += 1;
        } else {
            let negative = v[pos] == '-';
            let start = if negative || v[pos] == '+' {
                pos + 1
            } else {
                pos
            };
            let (n, p1) = match read_number(&v, start, y, 18) {
                Some(t) => t,
                None => {
                    return Err(invalid_input("interval", s));
                },
            };
            let (add_nanos, add_months, next) = match read_part(&v, n, p1, y) {
                Some(t) => t,
                None => {
                    return Err(invalid_input("interval", s));
                },
            };
            let d = if negative {
                duration - add_nanos
            } else {
                duration + add_nanos
            };
            let m = if negative {
                months - add_months
            } else {
                months + add_months
            };
            if d > MAX_DURATION || d < -MAX_DURATION || m > i32::MAX as i64 || m < i32::MIN as i64 {
                return Err(invalid_input("interval", s));
            }
            duration = d;
            months = m;
            any = true;
            pos = next;
        }
    }
    if !any {
        return Err(invalid_input("interval", s));
    }
    Ok(Datum::Interval(Interval { months: months as i32, duration }))
}

} // verus!
