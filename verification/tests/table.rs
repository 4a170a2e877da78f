use expr::datum::{Datum, Interval, Numeric};
use expr::error::EvalError;
use expr::float::{FloatFn, FloatOp, FloatUnit};
use expr::row::Row;
use expr::table::{
    csv_extract, generate_series_int32, generate_series_int64, jsonb_object_keys, regexp_extract, repeat,
    unnest_list, AnalyzedRegex, TableFunc,
};

struct NoFloats;
impl FloatUnit for NoFloats {
    fn binary32(&self, _: FloatOp, a: u32, _: u32) -> u32 {
        a
    }
    fn binary64(&self, _: FloatOp, a: u64, _: u64) -> u64 {
        a
    }
    fn unary32(&self, _: FloatFn, a: u32) -> u32 {
        a
    }
    fn unary64(&self, _: FloatFn, a: u64) -> u64 {
        a
    }
    fn widen(&self, _: u32) -> u64 {
        0
    }
    fn split_seconds(&self, _: u64) -> Option<(i64, i64)> {
        None
    }
    fn single_of_int(&self, _: i64) -> u32 {
        0
    }
    fn double_of_int(&self, _: i64) -> u64 {
        0
    }
    fn narrow(&self, _: u64) -> u32 {
        0
    }
    fn has_fraction(&self, _: u64) -> bool {
        false
    }
    fn parse32(&self, _: &str) -> Option<u32> {
        None
    }
    fn parse64(&self, _: &str) -> Option<u64> {
        None
    }
    fn format32(&self, _: u32) -> String {
        String::new()
    }
    fn format64(&self, _: u64) -> String {
        String::new()
    }
    fn numeric_of_single(&self, _: u32) -> Numeric {
        Numeric::zero()
    }
    fn numeric_of_double(&self, _: u64) -> Numeric {
        Numeric::zero()
    }
    fn whole_and_micros(&self, _: u64) -> (u32, u32) {
        (0, 0)
    }
    fn interval_mul(&self, _: Interval, _: u64) -> Option<Interval> {
        None
    }
    fn interval_div(&self, _: Interval, _: u64) -> Option<Interval> {
        None
    }
}

fn text(s: &str) -> Datum {
    Datum::String(s.to_string())
}

fn row(datums: Vec<Datum>) -> Row {
    Row::pack(datums)
}

#[test]
fn a_series_with_a_step() {
    assert_eq!(
        generate_series_int32(1, 5, 2),
        Ok(vec![(row(vec![Datum::Int32(1)]), 1), (row(vec![Datum::Int32(3)]), 1), (row(vec![Datum::Int32(5)]), 1)])
    );
    assert_eq!(
        generate_series_int32(1, 5, 0),
        Err(EvalError::InvalidParameterValue("step size cannot equal zero".to_string()))
    );
    assert_eq!(
        generate_series_int64(1, 5, 0),
        Err(EvalError::InvalidParameterValue("step size cannot equal zero".to_string()))
    );
    assert_eq!(
        generate_series_int64(5, 1, -2),
        Ok(vec![(row(vec![Datum::Int64(5)]), 1), (row(vec![Datum::Int64(3)]), 1), (row(vec![Datum::Int64(1)]), 1)])
    );
    assert_eq!(generate_series_int64(5, 1, 1), Ok(vec![]));
    assert_eq!(generate_series_int32(i32::MAX - 1, i32::MAX, 1).unwrap().len(), 2);
    assert_eq!(generate_series_int64(2, 2, 7), Ok(vec![(row(vec![Datum::Int64(2)]), 1)]));
}

#[test]
fn rows_of_lists_and_objects() {
    let l = Datum::List(vec![Datum::Int32(1), Datum::Null]);
    assert_eq!(unnest_list(&l), vec![(row(vec![Datum::Int32(1)]), 1), (row(vec![Datum::Null]), 1)]);
    let obj = Datum::Dict(vec![("a".to_string(), Datum::Int64(1)), ("b".to_string(), Datum::True)]);
    assert_eq!(jsonb_object_keys(&obj), vec![(row(vec![text("a")]), 1), (row(vec![text("b")]), 1)]);
    assert_eq!(jsonb_object_keys(&Datum::Int64(1)), vec![]);
    assert_eq!(repeat(&Datum::Int64(3)), Some((row(vec![]), 3)));
    assert_eq!(repeat(&Datum::Int64(0)), None);
}

#[test]
fn a_pattern_knows_its_groups() {
    let r = AnalyzedRegex::new("(?P<year>\\d+)-(\\d+)").unwrap();
    assert_eq!(r.capture_groups_len(), 2);
    let groups = r.capture_groups_iter();
    assert_eq!(groups[0].index, 1);
    assert_eq!(groups[0].name, Some("year".to_string()));
    assert!(groups[0].nullable);
    assert_eq!(groups[1].index, 2);
    assert_eq!(groups[1].name, None);
    assert_eq!(r.as_str(), "(?P<year>\\d+)-(\\d+)");
    assert!(AnalyzedRegex::new("(").is_err());
    assert_eq!(regexp_extract(&text("on 2021-03"), &r), Some((row(vec![text("2021"), text("03")]), 1)));
    assert_eq!(regexp_extract(&text("none"), &r), None);
}

#[test]
fn records_of_a_text() {
    assert_eq!(
        csv_extract(&text("a,b\n\"c,d\",e\n"), 2),
        vec![(row(vec![text("a"), text("b")]), 1), (row(vec![text("c,d"), text("e")]), 1)]
    );
    assert_eq!(csv_extract(&text("a,b\nc\n"), 2), vec![(row(vec![text("a"), text("b")]), 1)]);
}

#[test]
fn a_null_input_gives_no_rows() {
    let series = TableFunc::GenerateSeriesInt32;
    assert!(series.empty_on_null_input());
    assert_eq!(series.eval(vec![Datum::Int32(1), Datum::Null, Datum::Int32(1)], &NoFloats), Ok(vec![]));
    assert_eq!(
        series.eval(vec![Datum::Int32(1), Datum::Int32(5), Datum::Int32(2)], &NoFloats).unwrap().len(),
        3
    );
    assert!(matches!(
        series.eval(vec![Datum::Int32(1), Datum::Int32(5), Datum::Int32(0)], &NoFloats),
        Err(EvalError::InvalidParameterValue(_))
    ));
    assert_eq!(series.output_arity(), 1);
    assert!(series.preserves_monotonicity());
    assert!(!TableFunc::Repeat.preserves_monotonicity());
    assert_eq!(TableFunc::Repeat.output_arity(), 0);
}
