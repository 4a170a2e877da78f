//! The texts of dates, times, timestamps, intervals, bytes and UUIDs, and
//! reading them back.

use vstd::prelude::*;
use vstd::string::StringExecFns;
use crate::datetime::{civil, civil_of, Civil};
use crate::datum::{res_view, Date, Datum, DatumV, Interval, Time, Timestamp};
use crate::error::{EvalError, EvalErrorV};
use crate::func_datetime::{is_date, is_interval, is_time, is_timestamp, is_timestamptz};
use crate::func_string::{invalid_input, syntax_error};
use crate::strings::{format_int, from_chars_range, nat_text, to_chars, trim_bounds};

verus! {

/// A number of zeros.
pub open spec fn zeros(n: int) -> Seq<char> {
    Seq::new(
        if n > 0 {
            n as nat
        } else {
            0
        },
        |i: int| '0',
    )
}

/// The decimal notation of a number, with zeros before it up to a width.
pub open spec fn padded(n: nat, width: int) -> Seq<char> {
    zeros(width - nat_text(n).len()) + nat_text(n)
}

/// Appends the decimal notation of a number, with zeros before it up to a
/// width.
pub fn push_padded(out: &mut String, n: u64, width: usize)
    requires
        n <= i64::MAX,
    ensures
        final(out)@ == old(out)@ + padded(n as nat, width as int),
{
    let ghost before = out@;
    let t = format_int(n as i64);
    let len = t.as_str().unicode_len();
    let mut i: usize = len;
    while i < width
        invariant
            len <= i,
            i <= width || width < len,
            width < len ==> i == len,
            out@ == before + zeros(i - len),
        decreases width - i,
    {
        out.push('0');
        assert(out@ =~= before + zeros(i + 1 - len));
        i += 1;
    }
    out.append(t.as_str());
    assert(out@ =~= before + padded(n as nat, width as int));
}

/// The year of a date as it is written, and whether it lies before the
/// year 1: the year 0 is written as the year 1 BC.
pub open spec fn written_year(year: int) -> (nat, bool) {
    if year > 0 {
        (year as nat, false)
    } else {
        ((1 - year) as nat, true)
    }
}

/// The text of year, month and day, without the mark of the years before
/// the year 1.
pub open spec fn ymd_text(c: Civil) -> Seq<char> {
    padded(written_year(c.year as int).0, 4) + seq!['-'] + padded(c.month as nat, 2) + seq!['-'] + padded(
        c.day as nat,
        2,
    )
}

/// The mark of the years before the year 1.
pub open spec fn era_text(c: Civil) -> Seq<char> {
    if written_year(c.year as int).1 {
        " BC"@
    } else {
        Seq::empty()
    }
}

/// The digits of a fraction of a second given in microseconds, without
/// zeros at their end.
pub open spec fn stripped(micros: nat, width: int) -> Seq<char>
    decreases width,
{
    if width > 1 && micros % 10 == 0 {
        stripped(micros / 10, width - 1)
    } else {
        padded(micros, width)
    }
}

/// The text of a time of day: hours, minutes and seconds of two digits
/// each, and the microseconds behind a point where there are any.
pub open spec fn time_text(t: Time) -> Seq<char> {
    let micros = (t.nanos / 1_000) as nat;
    padded((t.secs / 3600) as nat, 2) + seq![':'] + padded(((t.secs / 60) % 60) as nat, 2) + seq![':'] + padded(
        (t.secs % 60) as nat,
        2,
    ) + if micros > 0 {
        seq!['.'] + stripped(micros, 6)
    } else {
        Seq::empty()
    }
}

/// The text of a date.
pub open spec fn date_text(d: Date) -> Seq<char> {
    ymd_text(civil(d.days)) + era_text(civil(d.days))
}

/// The text of a timestamp.
pub open spec fn timestamp_text(ts: Timestamp) -> Seq<char> {
    ymd_text(civil(ts.date.days)) + seq![' '] + time_text(ts.time) + era_text(civil(ts.date.days))
}

/// The text of a timestamp with time zone, which is written in UTC.
pub open spec fn timestamptz_text(ts: Timestamp) -> Seq<char> {
    ymd_text(civil(ts.date.days)) + seq![' '] + time_text(ts.time) + "+00"@ + era_text(civil(ts.date.days))
}

fn push_ymd(out: &mut String, c: Civil)
    requires
        -262_143 <= c.year <= 262_142,
    ensures
        final(out)@ == old(out)@ + ymd_text(c),
{
    let ghost before = out@;
    let year: u64 = if c.year > 0 {
        c.year as u64
    } else {
        (1 - c.year as i64) as u64
    };
    push_padded(out, year, 4);
    out.push('-');
    push_padded(out, c.month as u64, 2);
    out.push('-');
    push_padded(out, c.day as u64, 2);
    assert(out@ =~= before + ymd_text(c));
}

fn push_era(out: &mut String, c: Civil)
    ensures
        final(out)@ == old(out)@ + era_text(c),
{
    let ghost before = out@;
    if c.year <= 0 {
        out.append(" BC");
    } else {
        assert(before + Seq::<char>::empty() =~= before);
    }
}

fn push_stripped(out: &mut String, micros: u64, width: usize)
    requires
        micros <= 999_999,
        width >= 1,
    ensures
        final(out)@ == old(out)@ + stripped(micros as nat, width as int),
{
    let mut m = micros;
    let mut w = width;
    while w > 1 && m % 10 == 0
        invariant
            w >= 1,
            m <= 999_999,
            stripped(micros as nat, width as int) == stripped(m as nat, w as int),
        decreases w,
    {
        m = m / 10;
        w -= 1;
    }
    push_padded(out, m, w);
}

/// Appends the text of a time of day.
pub fn push_time(out: &mut String, t: Time)
    requires
        t.wf(),
    ensures
        final(out)@ == old(out)@ + time_text(t),
{
    let ghost before = out@;
    push_padded(out, (t.secs / 3600) as u64, 2);
    out.push(':');
    push_padded(out, ((t.secs / 60) % 60) as u64, 2);
    out.push(':');
    push_padded(out, (t.secs % 60) as u64, 2);
    let micros = (t.nanos / 1_000) as u64;
    let ghost mid = out@;
    if micros > 0 {
        out.push('.');
        push_stripped(out, micros, 6);
        assert(out@ =~= before + time_text(t));
    } else {
        assert(out@ =~= before + time_text(t));
    }
}

pub fn cast_date_to_string(a: &Datum) -> (r: Datum)
    requires
        is_date(a@),
    ensures
        r@ == DatumV::String(date_text(a@->Date_0)),
{
    let c = civil_of(a.unwrap_date().days);
    let mut out = String::new();
    push_ymd(&mut out, c);
    push_era(&mut out, c);
    assert(out@ =~= date_text(a@->Date_0));
    Datum::String(out)
}

pub fn cast_time_to_string(a: &Datum) -> (r: Datum)
    requires
        is_time(a@),
    ensures
        r@ == DatumV::String(time_text(a@->Time_0)),
{
    let mut out = String::new();
    push_time(&mut out, a.unwrap_time());
    assert(out@ =~= time_text(a@->Time_0));
    Datum::String(out)
}

/// The text of a timestamp, with the mark of UTC where it is asked for.
pub fn format_timestamp(ts: Timestamp, utc: bool) -> (r: String)
    requires
        ts.wf(),
    ensures
        r@ == if utc {
            timestamptz_text(ts)
        } else {
            timestamp_text(ts)
        },
{
    let c = civil_of(ts.date.days);
    let mut out = String::new();
    push_ymd(&mut out, c);
    out.push(' ');
    push_time(&mut out, ts.time);
    if utc {
        out.append("+00");
    }
    push_era(&mut out, c);
    proof {
        if utc {
            assert(out@ =~= timestamptz_text(ts));
        } else {
            assert(out@ =~= timestamp_text(ts));
        }
    }
    out
}

pub fn cast_timestamp_to_string(a: &Datum) -> (r: Datum)
    requires
        is_timestamp(a@),
    ensures
        r@ == DatumV::String(timestamp_text(a@->Timestamp_0)),
{
    Datum::String(format_timestamp(a.unwrap_timestamp(), false))
}

pub fn cast_timestamptz_to_string(a: &Datum) -> (r: Datum)
    requires
        is_timestamptz(a@),
    ensures
        r@ == DatumV::String(timestamptz_text(a@->TimestampTz_0)),
{
    Datum::String(format_timestamp(a.unwrap_timestamptz(), true))
}

/// A count with its unit, the unit in the plural for any count but 1.
pub open spec fn counted(n: nat, unit: Seq<char>) -> Seq<char> {
    nat_text(n) + seq![' '] + unit + if n == 1 {
        Seq::empty()
    } else {
        seq!['s']
    }
}

/// The sign before a part of an interval: a minus before a negative part,
/// a plus before a positive part that follows a negative one.
pub open spec fn part_sign(negative: bool, after_negative: bool) -> Seq<char> {
    if negative {
        seq!['-']
    } else if after_negative {
        seq!['+']
    } else {
        Seq::empty()
    }
}

/// Whether a text is not empty.
pub open spec fn started(s: Seq<char>) -> bool {
    s.len() > 0
}

/// A space, where something stands before it.
pub open spec fn gap(s: Seq<char>) -> Seq<char> {
    if started(s) {
        seq![' ']
    } else {
        Seq::empty()
    }
}

/// A text with one more part of an interval behind it, if the part is not
/// zero: a space, the sign, and the count with its unit.
pub open spec fn with_part(s: Seq<char>, n: nat, unit: Seq<char>, negative: bool, after_negative: bool) -> Seq<char> {
    if n > 0 {
        s + gap(s) + part_sign(negative, after_negative) + counted(n, unit)
    } else {
        s
    }
}

/// A text with the time of day of an interval behind it, if that is not
/// zero or nothing stands before it.
pub open spec fn with_time(s: Seq<char>, rest: int, negative: bool, after_negative: bool) -> Seq<char> {
    if rest > 0 || !started(s) {
        s + gap(s) + part_sign(negative && rest > 0, after_negative) + time_text(Time::of_nanos(rest))
    } else {
        s
    }
}

/// The months of an interval without their sign.
pub open spec fn abs_months(i: Interval) -> int {
    if i.months < 0 {
        -(i.months as int)
    } else {
        i.months as int
    }
}

/// The clock time of an interval without its sign.
pub open spec fn abs_duration(i: Interval) -> int {
    if i.duration < 0 {
        -(i.duration as int)
    } else {
        i.duration as int
    }
}

/// The text of the years and months of an interval.
pub open spec fn months_text(i: Interval) -> Seq<char> {
    with_part(
        with_part(Seq::empty(), (abs_months(i) / 12) as nat, "year"@, i.months < 0, false),
        (abs_months(i) % 12) as nat,
        "month"@,
        i.months < 0,
        false,
    )
}

/// The text of an interval: its years, months and days, each with its
/// unit, and its time of day. A part that is zero is left out, but the time
/// of day of an interval that is nothing else. A negative part has a
/// minus before it; a positive part behind negative months has a plus.
pub open spec fn interval_text(i: Interval) -> Seq<char> {
    let m = months_text(i);
    let days = (abs_duration(i) / 86_400_000_000_000) as nat;
    let d = with_part(m, days, "day"@, i.duration < 0, i.months < 0 && started(m));
    with_time(
        d,
        abs_duration(i) % 86_400_000_000_000,
        i.duration < 0,
        i.months < 0 && started(m) && days == 0,
    )
}

fn push_counted(out: &mut String, n: u64, unit: &str)
    requires
        n <= i64::MAX,
    ensures
        final(out)@ == old(out)@ + counted(n as nat, unit@),
{
    let ghost before = out@;
    let t = format_int(n as i64);
    out.append(t.as_str());
    out.push(' ');
    out.append(unit);
    if n != 1 {
        out.push('s');
    }
    assert(out@ =~= before + counted(n as nat, unit@));
}

fn push_sign(out: &mut String, negative: bool, after_negative: bool)
    ensures
        final(out)@ == old(out)@ + part_sign(negative, after_negative),
{
    let ghost before = out@;
    if negative {
        out.push('-');
        assert(out@ =~= before + part_sign(negative, after_negative));
    } else if after_negative {
        out.push('+');
        assert(out@ =~= before + part_sign(negative, after_negative));
    } else {
        assert(before + Seq::<char>::empty() =~= before);
    }
}

fn push_part(out: &mut String, n: u64, unit: &str, negative: bool, after_negative: bool)
    requires
        n <= i64::MAX,
    ensures
        final(out)@ == with_part(old(out)@, n as nat, unit@, negative, after_negative),
{
    let ghost before = out@;
    if n > 0 {
        if out.as_str().unicode_len() > 0 {
            out.push(' ');
        }
        let ghost mid = out@;
        assert(mid =~= before + gap(before));
        push_sign(out, negative, after_negative);
        push_counted(out, n, unit);
        assert(out@ =~= with_part(before, n as nat, unit@, negative, after_negative));
    }
}

fn push_time_part(out: &mut String, rest: i128, negative: bool, after_negative: bool)
    requires
        0 <= rest < 86_400_000_000_000,
    ensures
        final(out)@ == with_time(old(out)@, rest as int, negative, after_negative),
{
    let ghost before = out@;
    let any = out.as_str().unicode_len() > 0;
    if rest > 0 || !any {
        if any {
            out.push(' ');
        }
        let ghost mid = out@;
        assert(mid =~= before + gap(before));
        push_sign(out, negative && rest > 0, after_negative);
        push_time(out, Time::from_nanos(rest));
        assert(out@ =~= with_time(before, rest as int, negative, after_negative));
    }
}

pub fn cast_interval_to_string(a: &Datum) -> (r: Datum)
    requires
        is_interval(a@),
    ensures
        r@ == DatumV::String(interval_text(a@->Interval_0)),
{
    let i = a.unwrap_interval();
    let months: i64 = if i.months < 0 {
        -(i.months as i64)
    } else {
        i.months as i64
    };
    let d: i128 = if i.duration < 0 {
        -i.duration
    } else {
        i.duration
    };
    let days = (d / 86_400_000_000_000) as u64;
    let mut out = String::new();
    assert(out@ =~= Seq::<char>::empty());
    push_part(&mut out, (months / 12) as u64, "year", i.months < 0, false);
    push_part(&mut out, (months % 12) as u64, "month", i.months < 0, false);
    let after_months = i.months < 0 && out.as_str().unicode_len() > 0;
    push_part(&mut out, days, "day", i.duration < 0, after_months);
    push_time_part(&mut out, d % 86_400_000_000_000, i.duration < 0, after_months && days == 0);
    Datum::String(out)
}

/// The digit of a value below sixteen, in lower case.
pub open spec fn hex_char(d: int) -> char {
    crate::jsonb::hex_digit(d)
}

/// The hexadecimal digits of bytes, two for each.
pub open spec fn hex_text(bytes: Seq<u8>) -> Seq<char>
    decreases bytes.len(),
{
    if bytes.len() == 0 {
        Seq::empty()
    } else {
        hex_text(bytes.drop_last()) + seq![hex_char((bytes.last() / 16) as int), hex_char((bytes.last() % 16) as int)]
    }
}

/// The hexadecimal digit of a value below sixteen.
pub fn hex_digit_of(d: u8) -> (r: char)
    requires
        d < 16,
    ensures
        r == hex_char(d as int),
{
    if d < 10 {
        (48 + d) as char
    } else {
        (87 + d) as char
    }
}

/// Appends the hexadecimal digits of bytes.
pub fn push_hex(out: &mut String, bytes: &Vec<u8>)
    ensures
        final(out)@ == old(out)@ + hex_text(bytes@),
{
    let ghost before = out@;
    let mut i: usize = 0;
    assert(before + hex_text(bytes@.take(0)) =~= before);
    while i < bytes.len()
        invariant
            i <= bytes.len(),
            out@ == before + hex_text(bytes@.take(i as int)),
        decreases bytes.len() - i,
    {
        let b = bytes[i];
        out.push(hex_digit_of(b / 16));
        out.push(hex_digit_of(b % 16));
        proof {
            assert(bytes@.take(i + 1).drop_last() =~= bytes@.take(i as int));
            assert(bytes@.take(i + 1).last() == b);
            assert(out@ =~= before + hex_text(bytes@.take(i + 1)));
        }
        i += 1;
    }
    assert(bytes@.take(bytes@.len() as int) =~= bytes@);
}

/// The text of bytes: their hexadecimal digits behind `\x`.
pub fn cast_bytes_to_string(a: &Datum) -> (r: Datum)
    requires
        a@ is Bytes,
    ensures
        r@ == DatumV::String(seq!['\\', 'x'] + hex_text(a@->Bytes_0)),
{
    let mut out = String::new();
    out.push('\\');
    out.push('x');
    push_hex(&mut out, a.unwrap_bytes());
    assert(out@ =~= seq!['\\', 'x'] + hex_text(a@->Bytes_0));
    Datum::String(out)
}

/// The value of a hexadecimal digit, if the character is one.
pub open spec fn hex_value(c: char) -> Option<u8> {
    let u = c as u32;
    if 48 <= u <= 57 {
        Some((u - 48) as u8)
    } else if 97 <= u <= 102 {
        Some((u - 87) as u8)
    } else if 65 <= u <= 70 {
        Some((u - 55) as u8)
    } else {
        None
    }
}

/// The value of a hexadecimal digit.
pub fn hex_value_of(c: char) -> (r: Option<u8>)
    ensures
        r == hex_value(c),
        r is Some ==> r->0 < 16,
{
    let u = c as u32;
    if 48 <= u && u <= 57 {
        Some((u - 48) as u8)
    } else if 97 <= u && u <= 102 {
        Some((u - 87) as u8)
    } else if 65 <= u && u <= 70 {
        Some((u - 55) as u8)
    } else {
        None
    }
}

/// The bytes that hexadecimal digits denote, two digits for each byte, if
/// the text is made of pairs of such digits.
pub open spec fn hex_bytes(s: Seq<char>) -> Option<Seq<u8>>
    decreases s.len(),
{
    if s.len() == 0 {
        Some(Seq::empty())
    } else if s.len() == 1 {
        None
    } else {
        match (hex_bytes(s.take(s.len() - 2)), hex_value(s[s.len() - 2]), hex_value(s[s.len() - 1])) {
            (Some(b), Some(hi), Some(lo)) => Some(b.push((hi * 16 + lo) as u8)),
            _ => None,
        }
    }
}

/// Reads bytes from pairs of hexadecimal digits.
pub fn parse_hex(v: &Vec<char>, from: usize) -> (r: Option<Vec<u8>>)
    requires
        from <= v@.len(),
    ensures
        match r {
            Some(b) => hex_bytes(v@.skip(from as int)) == Some(b@),
            None => hex_bytes(v@.skip(from as int)) is None,
        },
{
    let ghost s = v@.skip(from as int);
    let n = v.len() - from;
    if n % 2 != 0 {
        proof {
            lemma_hex_odd(s);
        }
        return None;
    }
    let total = v.len();
    let mut out: Vec<u8> = Vec::new();
    let mut i: usize = 0;
    assert(s.take(0) =~= Seq::<char>::empty());
    while i < n
        invariant
            i <= n,
            total == v@.len(),
            i % 2 == 0,
            n % 2 == 0,
            n == s.len(),
            s == v@.skip(from as int),
            from + n == v@.len(),
            hex_bytes(s.take(i as int)) == Some(out@),
        decreases n - i,
    {
        let hi = hex_value_of(v[from + i]);
        let lo = hex_value_of(v[from + i + 1]);
        proof {
            let t = s.take(i + 2);
            assert(t.take(t.len() - 2) =~= s.take(i as int));
            assert(t[t.len() - 2] == v@[from + i]);
            assert(t[t.len() - 1] == v@[from + i + 1]);
        }
        match (hi, lo) {
            (Some(h), Some(l)) => {
                out.push(h * 16 + l);
            },
            _ => {
                proof {
                    lemma_hex_prefix(s, i + 2);
                }
                return None;
            },
        }
        i += 2;
    }
    assert(s.take(n as int) =~= s);
    Some(out)
}

proof fn lemma_hex_odd(s: Seq<char>)
    requires
        s.len() % 2 == 1,
    ensures
        hex_bytes(s) is None,
    decreases s.len(),
{
    if s.len() > 1 {
        lemma_hex_odd(s.take(s.len() - 2));
    }
}

proof fn lemma_hex_prefix(s: Seq<char>, k: int)
    requires
        0 <= k <= s.len(),
        k % 2 == 0,
        s.len() % 2 == 0,
        hex_bytes(s.take(k)) is None,
    ensures
        hex_bytes(s) is None,
    decreases s.len() - k,
{
    if k < s.len() {
        let t = s.take(s.len() - 2);
        assert(t.take(k) =~= s.take(k));
        lemma_hex_prefix(t, k);
    } else {
        assert(s.take(k) =~= s);
    }
}

/// The bytes that a text denotes in the escape format: a backslash before
/// a backslash stands for one backslash, a backslash before three octal
/// digits for the byte of that number, and any other byte for itself. None
/// where a backslash is followed by anything else.
pub open spec fn unescaped(b: Seq<u8>, i: int) -> Option<Seq<u8>>
    decreases b.len() - i,
{
    if i < 0 || i >= b.len() {
        Some(Seq::empty())
    } else if b[i] != 92 {
        match unescaped(b, i + 1) {
            Some(rest) => Some(seq![b[i]] + rest),
            None => None,
        }
    } else if i + 1 < b.len() && b[i + 1] == 92 {
        match unescaped(b, i + 2) {
            Some(rest) => Some(seq![92u8] + rest),
            None => None,
        }
    } else if i + 3 < b.len() && 48 <= b[i + 1] <= 51 && 48 <= b[i + 2] <= 55 && 48 <= b[i + 3] <= 55 {
        match unescaped(b, i + 4) {
            Some(rest) => Some(seq![((b[i + 1] - 48) * 64 + (b[i + 2] - 48) * 8 + (b[i + 3] - 48)) as u8] + rest),
            None => None,
        }
    } else {
        None
    }
}

pub fn parse_escape_bytes(b: &Vec<u8>) -> (r: Option<Vec<u8>>)
    ensures
        match r {
            Some(x) => unescaped(b@, 0) == Some(x@),
            None => unescaped(b@, 0) is None,
        },
{
    let mut out: Vec<u8> = Vec::new();
    let mut i: usize = 0;
    let n = b.len();
    while i < n
        invariant
            i <= n,
            n == b@.len(),
            match unescaped(b@, i as int) {
                Some(rest) => unescaped(b@, 0) == Some(out@ + rest),
                None => unescaped(b@, 0) is None,
            },
        decreases n - i,
    {
        let ghost before = out@;
        if b[i] != 92 {
            out.push(b[i]);
            proof {
                if unescaped(b@, i + 1) is Some {
                    assert(before + (seq![b@[i as int]] + unescaped(b@, i + 1)->0) =~= out@ + unescaped(b@, i + 1)->0);
                }
            }
            i += 1;
        } else if i + 1 < n && b[i + 1] == 92 {
            out.push(92);
            proof {
                if unescaped(b@, i + 2) is Some {
                    assert(before + (seq![92u8] + unescaped(b@, i + 2)->0) =~= out@ + unescaped(b@, i + 2)->0);
                }
            }
            i += 2;
        } else if n - i > 3 && 48 <= b[i + 1] && b[i + 1] <= 51 && 48 <= b[i + 2] && b[i + 2] <= 55 && 48 <= b[i + 3]
            && b[i + 3] <= 55 {
            let v = (b[i + 1] - 48) * 64 + (b[i + 2] - 48) * 8 + (b[i + 3] - 48);
            out.push(v);
            proof {
                if unescaped(b@, i + 4) is Some {
                    assert(before + (seq![v] + unescaped(b@, i + 4)->0) =~= out@ + unescaped(b@, i + 4)->0);
                }
            }
            i += 4;
        } else {
            return None;
        }
    }
    assert(out@ + Seq::<u8>::empty() =~= out@);
    Some(out)
}

/// The bytes that a text denotes: those of its hexadecimal digits where it
/// starts with `\x`, else those of the escape format.
pub open spec fn cast_string_to_bytes_spec(s: Seq<char>) -> Result<DatumV, EvalErrorV> {
    let parsed = if s.len() >= 2 && s[0] == '\\' && s[1] == 'x' {
        hex_bytes(s.skip(2))
    } else {
        unescaped(vstd::utf8::encode_utf8(s), 0)
    };
    match parsed {
        Some(b) => Ok(DatumV::Bytes(b)),
        None => Err(syntax_error("bytea"@, s)),
    }
}

pub fn cast_string_to_bytes(a: &Datum) -> (r: Result<Datum, EvalError>)
    requires
        a@ is String,
    ensures
        res_view(r) == cast_string_to_bytes_spec(a@->String_0),
{
    let s = a.unwrap_str();
    let v = to_chars(s);
    let parsed = if v.len() >= 2 && v[0] == '\\' && v[1] == 'x' {
        parse_hex(&v, 2)
    } else {
        parse_escape_bytes(&s.as_bytes_vec())
    };
    match parsed {
        Some(b) => Ok(Datum::Bytes(b)),
        None => Err(invalid_input("bytea", s)),
    }
}

/// The last `n` bytes of a number, the most significant first.
pub open spec fn low_bytes(u: u128, n: nat) -> Seq<u8>
    decreases n,
{
    if n == 0 {
        Seq::empty()
    } else {
        low_bytes(u / 256, (n - 1) as nat).push((u % 256) as u8)
    }
}

/// The text of a UUID: the hexadecimal digits of its sixteen bytes in
/// lower case, the most significant first, in groups of eight, four,
/// four, four and twelve digits with hyphens between them.
pub open spec fn uuid_text(u: u128) -> Seq<char> {
    let b = low_bytes(u, 16);
    hex_text(b.subrange(0, 4)) + seq!['-'] + hex_text(b.subrange(4, 6)) + seq!['-'] + hex_text(b.subrange(6, 8))
        + seq!['-'] + hex_text(b.subrange(8, 10)) + seq!['-'] + hex_text(b.subrange(10, 16))
}

/// The UUID that a text denotes, if the `uuid` crate reads one from it.
pub uninterp spec fn uuid_value(s: Seq<char>) -> Option<u128>;

/// Makes a `uuid::Uuid` of the number with `from_u128` and writes it in the
/// hyphenated form. The contract claims that the bytes of the UUID are
/// those of the number, the most significant first, and that the text
/// holds their digits in lower case in the five groups.
#[verifier::external_body]
fn format_uuid(u: u128) -> (r: String)
    ensures
        r@ == uuid_text(u),
{
    uuid::Uuid::from_u128(u).to_hyphenated().to_string()
}

/// Calls `uuid::Uuid::parse_str` and takes the number of the UUID. The
/// contract claims that the outcome is a function of the text, and names
/// it.
#[verifier::external_body]
fn parse_uuid(s: &str) -> (r: Option<u128>)
    ensures
        r == uuid_value(s@),
{
    uuid::Uuid::parse_str(s).ok().map(|u| u.as_u128())
}

pub fn cast_uuid_to_string(a: &Datum) -> (r: Datum)
    requires
        a@ is Uuid,
    ensures
        r@ == DatumV::String(uuid_text(a@->Uuid_0)),
{
    Datum::String(format_uuid(a.unwrap_uuid()))
}

pub fn cast_string_to_uuid(a: &Datum) -> (r: Result<Datum, EvalError>)
    requires
        a@ is String,
    ensures
        res_view(r) == match uuid_value(crate::strings::trimmed(a@->String_0)) {
            Some(u) => Ok::<DatumV, EvalErrorV>(DatumV::Uuid(u)),
            None => Err(syntax_error("uuid"@, a@->String_0)),
        },
{
    let s = a.unwrap_str();
    let v = to_chars(s);
    let (x, y) = trim_bounds(&v);
    let t = from_chars_range(&v, x, y);
    match parse_uuid(t.as_str()) {
        Some(u) => Ok(Datum::Uuid(u)),
        None => Err(invalid_input("uuid", s)),
    }
}

} // verus!
