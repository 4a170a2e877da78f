use expr::aggregate::{
    all, any, count, jsonb_agg, jsonb_object_agg, list_concat, string_agg, sum_int16, sum_int32, sum_int64,
    sum_numeric, AggregateFunc, ColumnOrder,
};
use expr::datum::{Datum, Interval, Numeric};
use expr::float::{FloatFn, FloatOp, FloatUnit};
use expr::func_numeric::{cast_int64_to_numeric, cast_numeric_to_string, cast_string_to_numeric};
use expr::scalar_type::ScalarType;

struct NoFloats;

impl FloatUnit for NoFloats {
    fn binary32(&self, _: FloatOp, a: u32, _: u32) -> u32 {
        a
    }
    fn binary64(&self, _: FloatOp, a: u64, _: u64) -> u64 {
        a
    }
    fn unary32(&self, _: FloatFn, a: u32) -> u32 {
        a
    }
    fn unary64(&self, _: FloatFn, a: u64) -> u64 {
        a
    }
    fn widen(&self, _: u32) -> u64 {
        0
    }
    fn split_seconds(&self, _: u64) -> Option<(i64, i64)> {
        None
    }
    fn single_of_int(&self, _: i64) -> u32 {
        0
    }
    fn double_of_int(&self, _: i64) -> u64 {
        0
    }
    fn narrow(&self, _: u64) -> u32 {
        0
    }
    fn has_fraction(&self, _: u64) -> bool {
        false
    }
    fn parse32(&self, _: &str) -> Option<u32> {
        None
    }
    fn parse64(&self, _: &str) -> Option<u64> {
        None
    }
    fn format32(&self, _: u32) -> String {
        String::new()
    }
    fn format64(&self, _: u64) -> String {
        String::new()
    }
    fn numeric_of_single(&self, _: u32) -> Numeric {
        Numeric::zero()
    }
    fn numeric_of_double(&self, _: u64) -> Numeric {
        Numeric::zero()
    }
    fn whole_and_micros(&self, _: u64) -> (u32, u32) {
        (0, 0)
    }
    fn interval_mul(&self, _: Interval, _: u64) -> Option<Interval> {
        None
    }
    fn interval_div(&self, _: Interval, _: u64) -> Option<Interval> {
        None
    }
}

fn text(s: &str) -> Datum {
    Datum::String(s.to_string())
}

fn numeric(i: i64) -> Datum {
    cast_int64_to_numeric(&Datum::Int64(i), None).unwrap()
}

fn entry(key: &str, value: i64) -> Datum {
    Datum::List(vec![Datum::List(vec![text(key), Datum::Int64(value)])])
}

fn object(pairs: Vec<(&str, i64)>) -> Datum {
    Datum::Dict(pairs.into_iter().map(|(k, v)| (k.to_string(), Datum::Int64(v))).collect())
}

#[test]
fn identity_elements_on_empty_input() {
    let empty: Vec<Datum> = vec![];
    assert_eq!(count(&empty), Datum::Int64(0));
    assert_eq!(any(&empty), Datum::False);
    assert_eq!(all(&empty), Datum::True);
    assert_eq!(sum_int64(&empty), Datum::Null);
    assert_eq!(sum_int32(&empty), Datum::Null);
    assert_eq!(sum_numeric(&empty), Datum::Null);
    assert_eq!(AggregateFunc::Count.default(), Datum::Int64(0));
    assert_eq!(AggregateFunc::Any.default(), Datum::False);
    assert_eq!(AggregateFunc::All.default(), Datum::True);
    assert_eq!(AggregateFunc::SumInt64.default(), Datum::Null);
    assert_eq!(AggregateFunc::MaxInt32.default(), Datum::Null);
}

#[test]
fn sums_skip_nulls_and_widen() {
    assert_eq!(sum_int64(&vec![Datum::Int64(5), Datum::Null, Datum::Int64(-3)]), numeric(2));
    assert_eq!(sum_int32(&vec![Datum::Int32(i32::MAX), Datum::Int32(1)]), Datum::Int64(2_147_483_648));
    assert_eq!(sum_int16(&vec![Datum::Int16(i16::MAX), Datum::Int16(1), Datum::Null]), Datum::Int64(32_768));
    assert_eq!(sum_int64(&vec![Datum::Null, Datum::Null]), Datum::Null);
    let big = sum_int64(&vec![Datum::Int64(i64::MAX), Datum::Int64(i64::MAX)]);
    assert_eq!(cast_numeric_to_string(&big), text("18446744073709551614"));
    let n = sum_numeric(&vec![
        cast_string_to_numeric(&text("1.5"), None).unwrap(),
        Datum::Null,
        cast_string_to_numeric(&text("2.25"), None).unwrap(),
    ]);
    assert_eq!(cast_numeric_to_string(&n), text("3.75"));
}

#[test]
fn counts_and_truth() {
    assert_eq!(count(&vec![Datum::Int32(1), Datum::Null, Datum::Int32(1)]), Datum::Int64(2));
    assert_eq!(any(&vec![Datum::Null, Datum::False]), Datum::False);
    assert_eq!(any(&vec![Datum::False, Datum::Null]), Datum::False);
    assert_eq!(any(&vec![Datum::Null, Datum::Null]), Datum::False);
    assert_eq!(any(&vec![Datum::False, Datum::Null, Datum::True]), Datum::True);
    assert_eq!(any(&vec![Datum::False, Datum::False]), Datum::False);
    assert_eq!(all(&vec![Datum::True, Datum::Null]), Datum::True);
    assert_eq!(all(&vec![Datum::Null, Datum::Null]), Datum::True);
    assert_eq!(all(&vec![Datum::True, Datum::Null, Datum::False]), Datum::False);
    assert_eq!(all(&vec![Datum::True, Datum::True]), Datum::True);
    assert_eq!(AggregateFunc::Any.eval(&vec![Datum::Null, Datum::False], &NoFloats), Datum::False);
}

#[test]
fn the_last_of_a_key_wins() {
    let input = vec![entry("b", 1), entry("a", 2), entry("b", 3)];
    assert_eq!(jsonb_object_agg(&input, &vec![]), object(vec![("a", 2), ("b", 3)]));
    let reversed = vec![entry("b", 3), entry("a", 2), entry("b", 1)];
    assert_eq!(jsonb_object_agg(&reversed, &vec![]), object(vec![("a", 2), ("b", 1)]));
    assert_eq!(jsonb_object_agg(&vec![], &vec![]), Datum::Dict(vec![]));
}

#[test]
fn ordered_inputs_are_sorted_before_they_are_used() {
    let item = |k: i32| Datum::List(vec![Datum::Int32(k), Datum::Int32(k)]);
    let by_first = vec![ColumnOrder { column: 0, desc: false }];
    assert_eq!(
        jsonb_agg(&vec![item(3), item(1), item(2)], &by_first),
        Datum::List(vec![Datum::Int32(1), Datum::Int32(2), Datum::Int32(3)])
    );
    let descending = vec![ColumnOrder { column: 0, desc: true }];
    assert_eq!(
        jsonb_agg(&vec![item(3), item(1), item(2)], &descending),
        Datum::List(vec![Datum::Int32(3), Datum::Int32(2), Datum::Int32(1)])
    );
    let piece = |v: &str, k: i32| Datum::List(vec![Datum::List(vec![text(v), text(",")]), Datum::Int32(k)]);
    assert_eq!(string_agg(&vec![piece("c", 3), piece("a", 1), piece("b", 2)], &by_first), text("a,b,c"));
    assert_eq!(string_agg(&vec![], &vec![]), Datum::Null);
    let lists = vec![
        Datum::List(vec![Datum::List(vec![Datum::Int32(3)]), Datum::Int32(2)]),
        Datum::List(vec![Datum::List(vec![Datum::Int32(1), Datum::Int32(2)]), Datum::Int32(1)]),
    ];
    assert_eq!(
        list_concat(&lists, &by_first),
        Datum::List(vec![Datum::Int32(1), Datum::Int32(2), Datum::Int32(3)])
    );
}

#[test]
fn types_of_aggregates() {
    let t = AggregateFunc::SumInt64.output_type(ScalarType::Int64.nullable(true));
    assert_eq!(t.scalar_type, ScalarType::Numeric { scale: Some(0) });
    assert!(t.nullable);
    let c = AggregateFunc::Count.output_type(ScalarType::Int64.nullable(true));
    assert_eq!(c.scalar_type, ScalarType::Int64);
    assert!(!c.nullable);
    assert!(AggregateFunc::MaxInt32.propagates_nonnull_constraint());
    assert!(!AggregateFunc::Count.propagates_nonnull_constraint());
    assert_eq!(AggregateFunc::SumInt64.name(), "sum");
}
