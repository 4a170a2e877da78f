use chrono::Datelike;
use expr::datum::{Date, Datum, Interval, Time, Timestamp, MAX_DAYS, MIN_DAYS};
use expr::error::EvalError;
use expr::func_datetime::{
    add_date_interval, add_timestamp_interval, add_timestamp_months, cast_timestamp_to_date, neg_interval,
    sub_date, sub_timestamp, timezone_interval_timestamp,
};
use expr::func_datetime::Timezone;
use expr::func_format::{cast_date_to_string, cast_interval_to_string, cast_timestamp_to_string};
use expr::func_parse::{
    cast_string_to_date, cast_string_to_interval, cast_string_to_time, cast_string_to_timestamp,
    cast_string_to_timestamptz, parse_timezone,
};

fn hms(date: Date, h: u32, m: u32, s: u32) -> Timestamp {
    Timestamp { date, time: Time { secs: h * 3600 + m * 60 + s, nanos: 0 } }
}

fn ym(year: i32, month: u32) -> Timestamp {
    hms(Date::from_ymd(year, month, 1).unwrap(), 9, 9, 9)
}

#[test]
fn add_interval_months() {
    let dt = ym(2000, 1);

    assert_eq!(add_timestamp_months(dt, 0), Some(dt));
    assert_eq!(add_timestamp_months(dt, 1), Some(ym(2000, 2)));
    assert_eq!(add_timestamp_months(dt, 12), Some(ym(2001, 1)));
    assert_eq!(add_timestamp_months(dt, 13), Some(ym(2001, 2)));
    assert_eq!(add_timestamp_months(dt, 24), Some(ym(2002, 1)));
    assert_eq!(add_timestamp_months(dt, 30), Some(ym(2002, 7)));

    // and negatives
    assert_eq!(add_timestamp_months(dt, -1), Some(ym(1999, 12)));
    assert_eq!(add_timestamp_months(dt, -12), Some(ym(1999, 1)));
    assert_eq!(add_timestamp_months(dt, -13), Some(ym(1998, 12)));
    assert_eq!(add_timestamp_months(dt, -24), Some(ym(1998, 1)));
    assert_eq!(add_timestamp_months(dt, -30), Some(ym(1997, 7)));

    // and going over a year boundary by less than a year
    let dt = ym(1999, 12);
    assert_eq!(add_timestamp_months(dt, 1), Some(ym(2000, 1)));
    let end_of_month_dt = hms(Date::from_ymd(1999, 12, 31).unwrap(), 9, 9, 9);
    assert_eq!(
        // leap year
        add_timestamp_months(end_of_month_dt, 2),
        Some(hms(Date::from_ymd(2000, 2, 29).unwrap(), 9, 9, 9)),
    );
    assert_eq!(
        // not leap year
        add_timestamp_months(end_of_month_dt, 14),
        Some(hms(Date::from_ymd(2001, 2, 28).unwrap(), 9, 9, 9)),
    );
}

#[test]
fn the_range_of_days_is_that_of_the_calendar() {
    assert_eq!(chrono::NaiveDate::MIN.num_days_from_ce(), MIN_DAYS);
    assert_eq!(chrono::NaiveDate::MAX.num_days_from_ce(), MAX_DAYS);
    assert_eq!(Date::from_ymd(1, 1, 1), Some(Date { days: 1 }));
    assert_eq!(Date::from_ymd(2000, 2, 30), None);
    assert_eq!(
        Date::from_ymd(1970, 1, 1).unwrap().days,
        chrono::NaiveDate::from_ymd_opt(1970, 1, 1).unwrap().num_days_from_ce()
    );
}

#[test]
fn months_beyond_the_calendar_give_nothing() {
    let last = hms(Date { days: MAX_DAYS }, 0, 0, 0);
    assert_eq!(add_timestamp_months(last, 1), None);
    let r = add_timestamp_interval(
        &Datum::Timestamp(last),
        &Datum::Interval(Interval::new(1, 0, 0).unwrap()),
    );
    assert_eq!(r, Err(EvalError::TimestampOutOfRange));
}

#[test]
fn dates_and_intervals() {
    let d = Date::from_ymd(2020, 1, 31).unwrap();
    let one_month = Interval::new(1, 0, 0).unwrap();
    assert_eq!(
        add_date_interval(&Datum::Date(d), &Datum::Interval(one_month)),
        Ok(Datum::Timestamp(hms(Date::from_ymd(2020, 2, 29).unwrap(), 0, 0, 0)))
    );
    let a = Date::from_ymd(2020, 3, 1).unwrap();
    assert_eq!(sub_date(&Datum::Date(a), &Datum::Date(d)), Datum::Int32(30));
    let t1 = hms(a, 1, 0, 0);
    let t0 = hms(d, 0, 0, 0);
    assert_eq!(
        sub_timestamp(&Datum::Timestamp(t1), &Datum::Timestamp(t0)),
        Ok(Datum::Interval(Interval { months: 0, duration: (30i128 * 86_400 + 3_600) * 1_000_000_000 }))
    );
    assert_eq!(cast_timestamp_to_date(&Datum::Timestamp(t1)), Datum::Date(a));
    assert_eq!(
        neg_interval(&Datum::Interval(Interval { months: 2, duration: -5 })),
        Ok(Datum::Interval(Interval { months: -2, duration: 5 }))
    );
    assert_eq!(
        neg_interval(&Datum::Interval(Interval { months: i32::MIN, duration: 0 })),
        Err(EvalError::IntervalOutOfRange)
    );
}

#[test]
fn a_zone_given_by_months_is_an_error() {
    let t = hms(Date::from_ymd(2020, 1, 1).unwrap(), 12, 0, 0);
    assert_eq!(
        timezone_interval_timestamp(&Datum::Interval(Interval { months: 1, duration: 0 }), &Datum::Timestamp(t)),
        Err(EvalError::InvalidTimezoneInterval),
    );
    assert_eq!(
        timezone_interval_timestamp(
            &Datum::Interval(Interval { months: 0, duration: 3_600_000_000_000 }),
            &Datum::Timestamp(t)
        ),
        Ok(Datum::TimestampTz(hms(Date::from_ymd(2020, 1, 1).unwrap(), 11, 0, 0))),
    );
}

#[test]
fn texts_of_dates_and_times() {
    let d = Date::from_ymd(2021, 3, 4).unwrap();
    assert_eq!(cast_date_to_string(&Datum::Date(d)), Datum::String("2021-03-04".to_string()));
    assert_eq!(
        cast_timestamp_to_string(&Datum::Timestamp(hms(d, 5, 6, 7))),
        Datum::String("2021-03-04 05:06:07".to_string())
    );
    assert_eq!(
        cast_interval_to_string(&Datum::Interval(Interval { months: 14, duration: 3_661_000_000_000 })),
        Datum::String("1 year 2 months 01:01:01".to_string())
    );
}

fn text(s: &str) -> Datum {
    Datum::String(s.to_string())
}

fn no_text_of(target: &str, input: &str) -> EvalError {
    EvalError::InvalidInputSyntax { target: target.to_string(), input: input.to_string() }
}

#[test]
fn dates_from_texts() {
    assert_eq!(cast_string_to_date(&text(" 2021-03-04 ")), Ok(Datum::Date(Date::from_ymd(2021, 3, 4).unwrap())));
    assert_eq!(cast_string_to_date(&text("0044-03-15 BC")), Ok(Datum::Date(Date::from_ymd(-43, 3, 15).unwrap())));
    assert_eq!(cast_string_to_date(&text("2021-02-30")), Err(no_text_of("date", "2021-02-30")));
    assert_eq!(cast_string_to_date(&text("2021-03-04x")), Err(no_text_of("date", "2021-03-04x")));
    assert_eq!(cast_string_to_date(&text("0000-01-01")), Err(no_text_of("date", "0000-01-01")));
    assert_eq!(cast_string_to_date(&text("")), Err(no_text_of("date", "")));
    for (y, m, d) in [(1, 1, 1), (1970, 1, 1), (2000, 2, 29), (9999, 12, 31)] {
        let date = Datum::Date(Date::from_ymd(y, m, d).unwrap());
        assert_eq!(cast_string_to_date(&cast_date_to_string(&date)), Ok(date));
    }
}

#[test]
fn times_from_texts() {
    assert_eq!(
        cast_string_to_time(&text("05:06:07.5")),
        Ok(Datum::Time(Time { secs: 5 * 3600 + 6 * 60 + 7, nanos: 500_000_000 }))
    );
    assert_eq!(cast_string_to_time(&text("05:06")), Ok(Datum::Time(Time { secs: 5 * 3600 + 6 * 60, nanos: 0 })));
    assert_eq!(
        cast_string_to_time(&text("23:59:59.000000001")),
        Ok(Datum::Time(Time { secs: 86_399, nanos: 1 }))
    );
    assert_eq!(cast_string_to_time(&text("24:00")), Err(no_text_of("time", "24:00")));
    assert_eq!(cast_string_to_time(&text("5")), Err(no_text_of("time", "5")));
    assert_eq!(cast_string_to_time(&text("05:06:")), Err(no_text_of("time", "05:06:")));
}

#[test]
fn timestamps_from_texts() {
    let d = Date::from_ymd(2021, 3, 4).unwrap();
    assert_eq!(cast_string_to_timestamp(&text("2021-03-04 05:06:07")), Ok(Datum::Timestamp(hms(d, 5, 6, 7))));
    assert_eq!(cast_string_to_timestamp(&text("2021-03-04T05:06:07Z")), Ok(Datum::Timestamp(hms(d, 5, 6, 7))));
    assert_eq!(cast_string_to_timestamp(&text("2021-03-04")), Ok(Datum::Timestamp(hms(d, 0, 0, 0))));
    assert_eq!(
        cast_string_to_timestamp(&text("2021-03-04 05:06:07 tomorrow")),
        Err(no_text_of("timestamp", "2021-03-04 05:06:07 tomorrow"))
    );
    assert_eq!(
        cast_string_to_timestamptz(&text("2021-03-04 05:06:07+02:00")),
        Ok(Datum::TimestampTz(hms(d, 3, 6, 7)))
    );
    assert_eq!(
        cast_string_to_timestamptz(&text("2021-03-04 23:30:00-01")),
        Ok(Datum::TimestampTz(hms(Date::from_ymd(2021, 3, 5).unwrap(), 0, 30, 0)))
    );
    assert_eq!(cast_string_to_timestamptz(&text("2021-03-04 05:06:07")), Ok(Datum::TimestampTz(hms(d, 5, 6, 7))));
    let t = Datum::Timestamp(hms(d, 5, 6, 7));
    assert_eq!(cast_string_to_timestamp(&cast_timestamp_to_string(&t)), Ok(t));
}

#[test]
fn intervals_from_texts() {
    let day: i128 = 86_400_000_000_000;
    assert_eq!(
        cast_string_to_interval(&text("1 year 2 months 01:01:01")),
        Ok(Datum::Interval(Interval { months: 14, duration: 3_661_000_000_000 }))
    );
    assert_eq!(
        cast_string_to_interval(&text("-3 days")),
        Ok(Datum::Interval(Interval { months: 0, duration: -3 * day }))
    );
    assert_eq!(
        cast_string_to_interval(&text("2 weeks +1 h 30 min 1.5")),
        Err(no_text_of("interval", "2 weeks +1 h 30 min 1.5"))
    );
    assert_eq!(
        cast_string_to_interval(&text("2 weeks +1 h 30 min")),
        Ok(Datum::Interval(Interval { months: 0, duration: 14 * day + 5_400_000_000_000 }))
    );
    assert_eq!(cast_string_to_interval(&text("1 fortnight")), Err(no_text_of("interval", "1 fortnight")));
    assert_eq!(cast_string_to_interval(&text("")), Err(no_text_of("interval", "")));
    assert_eq!(
        cast_string_to_interval(&text("4000000000 years")),
        Err(no_text_of("interval", "4000000000 years"))
    );
    let i = Datum::Interval(Interval { months: 14, duration: 3_661_000_000_000 });
    assert_eq!(cast_string_to_interval(&cast_interval_to_string(&i)), Ok(i));
}

#[test]
fn time_zones_from_texts() {
    assert_eq!(parse_timezone("UTC"), Ok(Timezone { offset_secs: 0 }));
    assert_eq!(parse_timezone(" z "), Ok(Timezone { offset_secs: 0 }));
    assert_eq!(parse_timezone("+05:30"), Ok(Timezone { offset_secs: 19_800 }));
    assert_eq!(parse_timezone("-08"), Ok(Timezone { offset_secs: -28_800 }));
    assert_eq!(parse_timezone("Mars"), Err(EvalError::InvalidTimezone("Mars".to_string())));
    assert_eq!(parse_timezone("+24"), Err(EvalError::InvalidTimezone("+24".to_string())));
}
