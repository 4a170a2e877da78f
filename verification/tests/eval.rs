use expr::binary::BinaryFunc;
use expr::datum::{ArrayDimension, Date, Datum, Interval, Numeric, Time, Timestamp};
use expr::error::EvalError;
use expr::expr::{and, or, MirScalarExpr};
use expr::float::{FloatFn, FloatOp, FloatUnit};
use expr::func_datetime::{
    date_part_timestamp, date_trunc, interval_of_host, make_timestamp, mul_interval, timestamp_of_parts,
};
use expr::float_round::{round_double, round_single};
use expr::func_float::{
    cast_float32_to_int16, cast_float32_to_int32, cast_float32_to_int64, cast_float64_to_int16,
    cast_float64_to_float32, cast_float64_to_int32, cast_float64_to_int64, cast_float64_to_string,
    cast_string_to_float64, div_float64, mod_float64, moment_of_seconds, single_of_double, to_timestamp,
};
use expr::func_jsonb::jsonb_of_reading;
use expr::func_numeric::{double_in_range, finish_float_cast, single_in_range};
use expr::func_int::div_int32;
use expr::func_jsonb::{
    cast_jsonb_to_int16, cast_jsonb_to_int32, cast_jsonb_to_int64, cast_string_to_jsonb, jsonb_contains_jsonb,
};
use expr::func_numeric::{
    cast_float64_to_numeric, cast_numeric_to_float32, cast_numeric_to_float64, cast_numeric_to_string,
    cast_string_to_numeric,
};
use expr::func_stringify::cast_collection_to_string;
use expr::func_to_char::{jsonb_pretty, to_char_timestamp};
use expr::jsonb::jsonb_stringify;
use expr::row::Row;
use expr::scalar_type::ScalarType;
use expr::table::{jsonb_array_elements, jsonb_each, TableFunc};
use expr::unary::UnaryFunc;
use expr::variadic::VariadicFunc;

struct Host;

fn numeric_of_text(s: String) -> Numeric {
    match cast_string_to_numeric(&Datum::String(s), None) {
        Ok(Datum::Numeric(n)) => n,
        other => panic!("no decimal: {:?}", other),
    }
}

fn scaled(i: Interval, f: f64) -> Option<Interval> {
    let months = i.months as f64 * f;
    let whole = months.trunc();
    let nanos = i.duration as f64 * f + (months - whole) * 30.0 * 86_400.0 * 1e9;
    if !whole.is_finite() || !nanos.is_finite() || whole.abs() > i32::MAX as f64 || nanos.abs() > 1.9e23 {
        return None;
    }
    Some(Interval { months: whole as i32, duration: nanos as i128 })
}

impl FloatUnit for Host {
    fn binary32(&self, op: FloatOp, a: u32, b: u32) -> u32 {
        let (x, y) = (f32::from_bits(a), f32::from_bits(b));
        let r = match op {
            FloatOp::Add => x + y,
            FloatOp::Sub => x - y,
            FloatOp::Mul => x * y,
            FloatOp::Div => x / y,
            FloatOp::Rem => x % y,
            FloatOp::Pow => x.powf(y),
        };
        r.to_bits()
    }

    fn binary64(&self, op: FloatOp, a: u64, b: u64) -> u64 {
        let (x, y) = (f64::from_bits(a), f64::from_bits(b));
        let r = match op {
            FloatOp::Add => x + y,
            FloatOp::Sub => x - y,
            FloatOp::Mul => x * y,
            FloatOp::Div => x / y,
            FloatOp::Rem => x % y,
            FloatOp::Pow => x.powf(y),
        };
        r.to_bits()
    }

    fn unary32(&self, f: FloatFn, a: u32) -> u32 {
        (f64::from_bits(self.unary64(f, (f32::from_bits(a) as f64).to_bits())) as f32).to_bits()
    }

    fn unary64(&self, f: FloatFn, a: u64) -> u64 {
        let x = f64::from_bits(a);
        let r = match f {
            FloatFn::Sqrt => x.sqrt(),
            FloatFn::Cbrt => x.cbrt(),
            FloatFn::Ceil => x.ceil(),
            FloatFn::Floor => x.floor(),
            FloatFn::Round => x.round(),
            FloatFn::Cos => x.cos(),
            FloatFn::Cosh => x.cosh(),
            FloatFn::Sin => x.sin(),
            FloatFn::Sinh => x.sinh(),
            FloatFn::Tan => x.tan(),
            FloatFn::Tanh => x.tanh(),
            FloatFn::Cot => 1.0 / x.tan(),
            FloatFn::Log10 => x.log10(),
            FloatFn::Ln => x.ln(),
            FloatFn::Exp => x.exp(),
        };
        r.to_bits()
    }

    fn widen(&self, a: u32) -> u64 {
        (f32::from_bits(a) as f64).to_bits()
    }

    fn split_seconds(&self, a: u64) -> Option<(i64, i64)> {
        let x = f64::from_bits(a);
        if !x.is_finite() || x.abs() >= 9.2e18 {
            return None;
        }
        let secs = x.trunc();
        Some((secs as i64, ((x - secs) * 1e9) as i64))
    }

    fn single_of_int(&self, i: i64) -> u32 {
        (i as f32).to_bits()
    }

    fn double_of_int(&self, i: i64) -> u64 {
        (i as f64).to_bits()
    }

    fn narrow(&self, a: u64) -> u32 {
        (f64::from_bits(a) as f32).to_bits()
    }

    fn has_fraction(&self, a: u64) -> bool {
        f64::from_bits(a).fract() != 0.0
    }

    fn parse32(&self, s: &str) -> Option<u32> {
        s.trim().parse::<f32>().ok().map(|x| x.to_bits())
    }

    fn parse64(&self, s: &str) -> Option<u64> {
        s.trim().parse::<f64>().ok().map(|x| x.to_bits())
    }

    fn format32(&self, a: u32) -> String {
        format!("{}", f32::from_bits(a))
    }

    fn format64(&self, a: u64) -> String {
        format!("{}", f64::from_bits(a))
    }

    fn numeric_of_single(&self, a: u32) -> Numeric {
        numeric_of_text(format!("{}", f32::from_bits(a)))
    }

    fn numeric_of_double(&self, a: u64) -> Numeric {
        numeric_of_text(format!("{}", f64::from_bits(a)))
    }

    fn whole_and_micros(&self, a: u64) -> (u32, u32) {
        let x = f64::from_bits(a);
        (x.trunc() as u32, (x.fract() * 1_000_000.0) as u32)
    }

    fn interval_mul(&self, i: Interval, f: u64) -> Option<Interval> {
        scaled(i, f64::from_bits(f))
    }

    fn interval_div(&self, i: Interval, f: u64) -> Option<Interval> {
        scaled(i, 1.0 / f64::from_bits(f))
    }
}

fn double(x: f64) -> Datum {
    Datum::Float64(x.to_bits())
}

fn text(s: &str) -> Datum {
    Datum::String(s.to_string())
}

fn literal(d: Datum, ty: ScalarType) -> MirScalarExpr {
    MirScalarExpr::Literal(Ok(d), ty.nullable(true))
}

fn int32(i: i32) -> MirScalarExpr {
    literal(Datum::Int32(i), ScalarType::Int32)
}

fn failing() -> MirScalarExpr {
    MirScalarExpr::CallBinary { func: BinaryFunc::DivInt32, expr1: Box::new(int32(1)), expr2: Box::new(int32(0)) }
}

fn truth(b: bool) -> MirScalarExpr {
    literal(if b { Datum::True } else { Datum::False }, ScalarType::Bool)
}

fn null_of(ty: ScalarType) -> MirScalarExpr {
    literal(Datum::Null, ty)
}

#[test]
fn division_by_zero() {
    assert_eq!(div_int32(&Datum::Int32(10), &Datum::Int32(0)), Err(EvalError::DivisionByZero));
    assert_eq!(div_int32(&Datum::Int32(10), &Datum::Int32(3)), Ok(Datum::Int32(3)));
    assert_eq!(div_int32(&Datum::Int32(-10), &Datum::Int32(3)), Ok(Datum::Int32(-3)));
    assert_eq!(div_float64(&double(10.0), &double(0.0), &Host), Err(EvalError::DivisionByZero));
    assert_eq!(div_float64(&double(10.0), &double(-0.0), &Host), Err(EvalError::DivisionByZero));
    match div_float64(&double(f64::NAN), &double(0.0), &Host) {
        Ok(Datum::Float64(bits)) => assert!(f64::from_bits(bits).is_nan()),
        other => panic!("no NaN: {:?}", other),
    }
    assert_eq!(div_float64(&double(10.0), &double(4.0), &Host), Ok(double(2.5)));
    assert_eq!(BinaryFunc::DivFloat64.apply(&double(10.0), &double(0.0), &Host), Err(EvalError::DivisionByZero));
    assert_eq!(mod_float64(&double(10.0), &double(0.0), &Host), Err(EvalError::DivisionByZero));
    match mod_float64(&double(f64::NAN), &double(0.0), &Host) {
        Ok(Datum::Float64(bits)) => assert!(f64::from_bits(bits).is_nan()),
        other => panic!("no NaN: {:?}", other),
    }
    assert_eq!(mod_float64(&double(10.0), &double(4.0), &Host), Ok(double(2.0)));
}

#[test]
fn a_null_operand_gives_null_before_the_zero_is_seen() {
    let one_by_null = MirScalarExpr::CallBinary {
        func: BinaryFunc::DivInt32,
        expr1: Box::new(int32(1)),
        expr2: Box::new(null_of(ScalarType::Int32)),
    };
    assert_eq!(one_by_null.eval(&vec![], &Host), Ok(Datum::Null));
    let null_by_zero = MirScalarExpr::CallBinary {
        func: BinaryFunc::DivInt32,
        expr1: Box::new(null_of(ScalarType::Int32)),
        expr2: Box::new(int32(0)),
    };
    assert_eq!(null_by_zero.eval(&vec![], &Host), Ok(Datum::Null));
    assert_eq!(BinaryFunc::DivInt32.apply(&Datum::Int32(1), &Datum::Null, &Host), Ok(Datum::Null));
    assert_eq!(BinaryFunc::DivFloat64.apply(&Datum::Null, &double(0.0), &Host), Ok(Datum::Null));
    assert_eq!(UnaryFunc::NegInt32.apply(&Datum::Null, &Host), Ok(Datum::Null));
    assert_eq!(UnaryFunc::IsNull.apply(&Datum::Null, &Host), Ok(Datum::True));
    assert_eq!(
        VariadicFunc::Replace.apply(&vec![text("abc"), Datum::Null, text("x")], &Host),
        Ok(Datum::Null)
    );
    assert_eq!(failing().eval(&vec![], &Host), Err(EvalError::DivisionByZero));
}

#[test]
fn and_does_not_look_behind_false() {
    assert_eq!(and(&vec![], &truth(false), &failing(), &Host), Ok(Datum::False));
    assert_eq!(and(&vec![], &failing(), &truth(false), &Host), Err(EvalError::DivisionByZero));
    assert_eq!(and(&vec![], &truth(true), &failing(), &Host), Err(EvalError::DivisionByZero));
    assert_eq!(and(&vec![], &null_of(ScalarType::Bool), &truth(false), &Host), Ok(Datum::False));
    assert_eq!(and(&vec![], &null_of(ScalarType::Bool), &truth(true), &Host), Ok(Datum::Null));
    assert_eq!(and(&vec![], &truth(true), &truth(true), &Host), Ok(Datum::True));
    let e = MirScalarExpr::CallBinary {
        func: BinaryFunc::And,
        expr1: Box::new(truth(false)),
        expr2: Box::new(failing()),
    };
    assert_eq!(e.eval(&vec![], &Host), Ok(Datum::False));
}

#[test]
fn or_does_not_look_behind_true() {
    assert_eq!(or(&vec![], &truth(true), &failing(), &Host), Ok(Datum::True));
    assert_eq!(or(&vec![], &truth(false), &failing(), &Host), Err(EvalError::DivisionByZero));
    assert_eq!(or(&vec![], &null_of(ScalarType::Bool), &truth(true), &Host), Ok(Datum::True));
    assert_eq!(or(&vec![], &null_of(ScalarType::Bool), &truth(false), &Host), Ok(Datum::Null));
    assert_eq!(or(&vec![], &truth(false), &truth(false), &Host), Ok(Datum::False));
}

#[test]
fn columns_conditions_and_coalesce() {
    let row = vec![Datum::Int32(7), Datum::Null, text("x")];
    assert_eq!(MirScalarExpr::Column(0).eval(&row, &Host), Ok(Datum::Int32(7)));
    assert!(matches!(MirScalarExpr::Column(3).eval(&row, &Host), Err(EvalError::Internal(_))));
    let cond = |c: MirScalarExpr| MirScalarExpr::If {
        cond: Box::new(c),
        then: Box::new(int32(1)),
        els: Box::new(int32(2)),
    };
    assert_eq!(cond(truth(true)).eval(&row, &Host), Ok(Datum::Int32(1)));
    assert_eq!(cond(truth(false)).eval(&row, &Host), Ok(Datum::Int32(2)));
    assert_eq!(cond(null_of(ScalarType::Bool)).eval(&row, &Host), Ok(Datum::Int32(2)));
    assert!(matches!(cond(int32(5)).eval(&row, &Host), Err(EvalError::Internal(_))));
    assert_eq!(cond(failing()).eval(&row, &Host), Err(EvalError::DivisionByZero));
    let first = MirScalarExpr::CallVariadic {
        func: VariadicFunc::Coalesce,
        exprs: vec![MirScalarExpr::Column(1), MirScalarExpr::Column(0), failing()],
    };
    assert_eq!(first.eval(&row, &Host), Ok(Datum::Int32(7)));
    let none = MirScalarExpr::CallVariadic { func: VariadicFunc::Coalesce, exprs: vec![MirScalarExpr::Column(1)] };
    assert_eq!(none.eval(&row, &Host), Ok(Datum::Null));
    let refuse = MirScalarExpr::CallVariadic {
        func: VariadicFunc::ErrorIfNull,
        exprs: vec![MirScalarExpr::Column(1), literal(text("no value"), ScalarType::String)],
    };
    assert_eq!(refuse.eval(&row, &Host), Err(EvalError::Internal("no value".to_string())));
    let keep = MirScalarExpr::CallVariadic {
        func: VariadicFunc::ErrorIfNull,
        exprs: vec![MirScalarExpr::Column(0), literal(text("no value"), ScalarType::String)],
    };
    assert_eq!(keep.eval(&row, &Host), Ok(Datum::Int32(7)));
}

#[test]
fn operands_of_the_wrong_kind_are_an_error() {
    assert!(matches!(
        BinaryFunc::AddInt32.apply(&Datum::Int32(1), &text("x"), &Host),
        Err(EvalError::Internal(_))
    ));
    assert!(matches!(UnaryFunc::NegInt32.apply(&text("x"), &Host), Err(EvalError::Internal(_))));
    assert!(matches!(VariadicFunc::Replace.apply(&vec![text("x")], &Host), Err(EvalError::Internal(_))));
    assert_eq!(BinaryFunc::AddInt32.apply(&Datum::Int32(1), &Datum::Int32(2), &Host), Ok(Datum::Int32(3)));
}

#[test]
fn elements_are_cast_one_by_one() {
    let to_int = MirScalarExpr::CallUnary { func: UnaryFunc::CastStringToInt32, expr: Box::new(MirScalarExpr::Column(0)) };
    let list_type = ScalarType::List { element_type: Box::new(ScalarType::Int32), custom_oid: None };
    let cast = |t: &str| MirScalarExpr::CallUnary {
        func: UnaryFunc::CastStringToList {
            return_ty: ScalarType::List { element_type: Box::new(ScalarType::Int32), custom_oid: None },
            cast_expr: Box::new(MirScalarExpr::CallUnary {
                func: UnaryFunc::CastStringToInt32,
                expr: Box::new(MirScalarExpr::Column(0)),
            }),
        },
        expr: Box::new(literal(text(t), ScalarType::String)),
    };
    assert_eq!(
        cast("{1, 2,NULL,\"4\"}").eval(&vec![], &Host),
        Ok(Datum::List(vec![Datum::Int32(1), Datum::Int32(2), Datum::Null, Datum::Int32(4)]))
    );
    assert_eq!(cast("{}").eval(&vec![], &Host), Ok(Datum::List(vec![])));
    assert!(matches!(cast("{1,a}").eval(&vec![], &Host), Err(EvalError::InvalidInputSyntax { .. })));
    assert!(matches!(cast("1,2").eval(&vec![], &Host), Err(EvalError::InvalidInputSyntax { .. })));
    let widen = MirScalarExpr::CallUnary {
        func: UnaryFunc::CastList1ToList2 {
            return_ty: list_type,
            cast_expr: Box::new(MirScalarExpr::CallUnary {
                func: UnaryFunc::CastInt32ToInt64,
                expr: Box::new(MirScalarExpr::Column(0)),
            }),
        },
        expr: Box::new(MirScalarExpr::Column(0)),
    };
    assert_eq!(
        widen.eval(&vec![Datum::List(vec![Datum::Int32(1), Datum::Null])], &Host),
        Ok(Datum::List(vec![Datum::Int64(1), Datum::Null]))
    );
    assert_eq!(to_int.eval(&vec![text(" 12 ")], &Host), Ok(Datum::Int32(12)));
    let map = MirScalarExpr::CallUnary {
        func: UnaryFunc::CastStringToMap {
            return_ty: ScalarType::Dict { value_type: Box::new(ScalarType::Int32), custom_oid: None },
            cast_expr: Box::new(MirScalarExpr::CallUnary {
                func: UnaryFunc::CastStringToInt32,
                expr: Box::new(MirScalarExpr::Column(0)),
            }),
        },
        expr: Box::new(literal(text("{b=>2,a=>1,b=>3}"), ScalarType::String)),
    };
    assert_eq!(
        map.eval(&vec![], &Host),
        Ok(Datum::Dict(vec![("a".to_string(), Datum::Int32(1)), ("b".to_string(), Datum::Int32(2))]))
    );
}

#[test]
fn doubles_through_the_host() {
    assert_eq!(cast_float64_to_string(&double(1.5), &Host), text("1.5"));
    assert_eq!(cast_string_to_float64(&text("2.25"), &Host), Ok(double(2.25)));
    assert!(matches!(cast_string_to_float64(&text("x"), &Host), Err(EvalError::InvalidInputSyntax { .. })));
    assert_eq!(cast_float64_to_int32(&double(2.6)), Ok(Datum::Int32(3)));
    assert_eq!(cast_float64_to_int32(&double(1e12)), Err(EvalError::Int32OutOfRange));
    assert_eq!(
        cast_float64_to_numeric(&double(f64::INFINITY), None, &Host),
        Err(EvalError::InfinityOutOfDomain("casting double precision to numeric".to_string()))
    );
    let n = cast_float64_to_numeric(&double(1.25), None, &Host).unwrap();
    assert_eq!(cast_numeric_to_string(&n), text("1.25"));
    assert_eq!(UnaryFunc::SqrtFloat64.apply(&double(4.0), &Host), Ok(double(2.0)));
    assert_eq!(
        UnaryFunc::SqrtFloat64.apply(&double(-4.0), &Host),
        Err(EvalError::NegSqrt)
    );
}

#[test]
fn json_through_the_host() {
    let v = cast_string_to_jsonb(&text("{\"b\": [1, 2.5, null], \"a\": \"x\"}")).unwrap();
    assert_eq!(
        v,
        Datum::Dict(vec![
            ("a".to_string(), text("x")),
            ("b".to_string(), Datum::List(vec![Datum::Int64(1), double(2.5), Datum::JsonNull])),
        ])
    );
    assert!(matches!(cast_string_to_jsonb(&text("{")), Err(EvalError::InvalidInputSyntax { .. })));
    assert_eq!(
        cast_string_to_jsonb(&text(" {\"b\": 1, \"a\": {\"z\": [true, false], \"y\": -3}, \"b\": 2} ")),
        Ok(Datum::Dict(vec![
            (
                "a".to_string(),
                Datum::Dict(vec![
                    ("y".to_string(), Datum::Int64(-3)),
                    ("z".to_string(), Datum::List(vec![Datum::True, Datum::False])),
                ])
            ),
            ("b".to_string(), Datum::Int64(2)),
        ]))
    );
    assert_eq!(cast_string_to_jsonb(&text("18446744073709551615")), Ok(double(18446744073709551615.0)));
    assert_eq!(cast_string_to_jsonb(&text("9223372036854775807")), Ok(Datum::Int64(i64::MAX)));
    assert_eq!(cast_string_to_jsonb(&text("1e2")), Ok(double(100.0)));
    assert_eq!(cast_string_to_jsonb(&text("\"a\\u00e9\\n\"")), Ok(text("a\u{e9}\n")));
    assert_eq!(cast_string_to_jsonb(&text("null")), Ok(Datum::JsonNull));
    assert_eq!(cast_string_to_jsonb(&text("[[], {}]")), Ok(Datum::List(vec![Datum::List(vec![]), Datum::Dict(vec![])])));
    assert!(matches!(cast_string_to_jsonb(&text("[1,]")), Err(EvalError::InvalidInputSyntax { .. })));
    assert!(matches!(cast_string_to_jsonb(&text("")), Err(EvalError::InvalidInputSyntax { .. })));
    assert_eq!(UnaryFunc::CastStringToJsonb.apply(&text("[1]"), &Host), Ok(Datum::List(vec![Datum::Int64(1)])));
    assert_eq!(jsonb_stringify(&text("x"), &Host), text("x"));
    assert_eq!(jsonb_stringify(&Datum::JsonNull, &Host), Datum::Null);
    assert_eq!(jsonb_stringify(&Datum::List(vec![Datum::Int64(1), Datum::True]), &Host), text("[1,true]"));
    let whole = Datum::List(vec![Datum::Int64(1), Datum::Int64(2), text("a")]);
    assert_eq!(jsonb_contains_jsonb(&whole, &Datum::List(vec![Datum::Int64(2)]), &Host), Datum::True);
    assert_eq!(jsonb_contains_jsonb(&whole, &Datum::Int64(2), &Host), Datum::True);
    assert_eq!(jsonb_contains_jsonb(&whole, &Datum::Int64(3), &Host), Datum::False);
    assert_eq!(jsonb_contains_jsonb(&Datum::Int64(2), &double(2.0), &Host), Datum::True);
}

fn at(year: i32, month: u32, day: u32, h: u32, m: u32, s: u32) -> Timestamp {
    Timestamp { date: Date::from_ymd(year, month, day).unwrap(), time: Time { secs: h * 3600 + m * 60 + s, nanos: 0 } }
}

#[test]
fn parts_of_a_timestamp() {
    let t = at(2021, 1, 4, 13, 30, 15);
    assert_eq!(date_part_timestamp(&text("week"), t, &Host), Ok(double(1.0)));
    assert_eq!(date_part_timestamp(&text("week"), at(2021, 1, 3, 0, 0, 0), &Host), Ok(double(53.0)));
    assert_eq!(date_part_timestamp(&text("year"), t, &Host), Ok(double(2021.0)));
    assert_eq!(date_part_timestamp(&text("hour"), t, &Host), Ok(double(13.0)));
    assert_eq!(date_part_timestamp(&text("minute"), t, &Host), Ok(double(30.0)));
    assert_eq!(
        date_part_timestamp(&text("fortnight"), t, &Host),
        Err(EvalError::UnknownUnits("fortnight".to_string()))
    );
    assert_eq!(date_trunc(&text("month"), t), Ok(at(2021, 1, 1, 0, 0, 0)));
    assert_eq!(date_trunc(&text("hour"), t), Ok(at(2021, 1, 4, 13, 0, 0)));
    assert_eq!(date_trunc(&text("fortnight"), t), Err(EvalError::UnknownUnits("fortnight".to_string())));
    assert_eq!(to_char_timestamp(&Datum::Timestamp(t), &text("YYYY-MM-DD HH24:MI:SS")), text("2021-01-04 13:30:15"));
}

#[test]
fn intervals_through_the_host() {
    let two_hours = Interval { months: 0, duration: 7_200_000_000_000 };
    assert_eq!(
        mul_interval(&Datum::Interval(two_hours), &double(1.5), &Host),
        Ok(Datum::Interval(Interval { months: 0, duration: 10_800_000_000_000 }))
    );
    assert_eq!(
        mul_interval(&Datum::Interval(Interval { months: i32::MAX, duration: 0 }), &double(4.0), &Host),
        Err(EvalError::IntervalOutOfRange)
    );
}

#[test]
fn a_json_value_laid_out() {
    let v = Datum::Dict(vec![("a".to_string(), Datum::List(vec![Datum::Int64(1), Datum::True]))]);
    assert_eq!(jsonb_pretty(&v, &Host), text("{\n  \"a\": [\n    1,\n    true\n  ]\n}"));
    assert_eq!(jsonb_pretty(&Datum::List(vec![]), &Host), text("[]"));
}

#[test]
fn decimals_as_floats() {
    let n = cast_string_to_numeric(&text("1.5"), None).unwrap();
    assert_eq!(cast_numeric_to_float64(&n, &Host), Ok(double(1.5)));
    assert_eq!(cast_numeric_to_float32(&n, &Host), Ok(Datum::Float32(1.5f32.to_bits())));
    let big = cast_string_to_numeric(&text("9e38"), None).unwrap();
    assert_eq!(cast_numeric_to_float32(&big, &Host), Err(EvalError::Float32OutOfRange));
}

#[test]
fn floats_are_rounded_to_the_nearest_integer() {
    let values = [
        0.0,
        -0.0,
        0.4,
        0.5,
        0.49999999999999994,
        1.5,
        2.5,
        2.6,
        -2.5,
        -2.4,
        -0.5,
        1e-320,
        123456789.5,
        4503599627370495.5,
        4503599627370496.0,
        9007199254740993.0,
        32767.4,
        32767.5,
        -32768.5,
        -32768.4,
        2147483647.4,
        2147483647.5,
        -2147483648.5,
        9223372036854774784.0,
        9223372036854775808.0,
        -9223372036854775808.0,
        -9223372036854777856.0,
        1e300,
        f64::INFINITY,
        f64::NEG_INFINITY,
        f64::NAN,
    ];
    for x in values {
        let nearest = x.round();
        let expected =
            if nearest.is_nan() || nearest < -9223372036854775808.0 || nearest >= 9223372036854775808.0 {
                None
            } else {
                Some(nearest as i64)
            };
        assert_eq!(round_double(x.to_bits()), expected, "{}", x);
        let d = double(x);
        assert_eq!(
            cast_float64_to_int64(&d),
            match expected {
                Some(n) => Ok(Datum::Int64(n)),
                None => Err(EvalError::Int64OutOfRange),
            }
        );
        assert_eq!(
            cast_float64_to_int32(&d),
            match expected {
                Some(n) if i32::MIN as i64 <= n && n <= i32::MAX as i64 => Ok(Datum::Int32(n as i32)),
                _ => Err(EvalError::Int32OutOfRange),
            }
        );
        assert_eq!(
            cast_float64_to_int16(&d),
            match expected {
                Some(n) if i16::MIN as i64 <= n && n <= i16::MAX as i64 => Ok(Datum::Int16(n as i16)),
                _ => Err(EvalError::Int16OutOfRange),
            }
        );
        let y = x as f32;
        let nearest = y.round();
        let expected =
            if nearest.is_nan() || nearest < -9223372036854775808.0 || nearest >= 9223372036854775808.0 {
                None
            } else {
                Some(nearest as i64)
            };
        assert_eq!(round_single(y.to_bits()), expected, "{}", y);
        let s = Datum::Float32(y.to_bits());
        assert_eq!(
            cast_float32_to_int64(&s),
            match expected {
                Some(n) => Ok(Datum::Int64(n)),
                None => Err(EvalError::Int64OutOfRange),
            }
        );
        assert_eq!(
            cast_float32_to_int32(&s),
            match expected {
                Some(n) if i32::MIN as i64 <= n && n <= i32::MAX as i64 => Ok(Datum::Int32(n as i32)),
                _ => Err(EvalError::Int32OutOfRange),
            }
        );
        assert_eq!(
            cast_float32_to_int16(&s),
            match expected {
                Some(n) if i16::MIN as i64 <= n && n <= i16::MAX as i64 => Ok(Datum::Int16(n as i16)),
                _ => Err(EvalError::Int16OutOfRange),
            }
        );
    }
    assert_eq!(UnaryFunc::CastFloat64ToInt32.apply(&double(-7.5), &Host), Ok(Datum::Int32(-8)));
    assert_eq!(cast_jsonb_to_int32(&double(-7.5)), Ok(Datum::Int32(-8)));
    assert_eq!(cast_jsonb_to_int64(&double(2.5)), Ok(Datum::Int64(3)));
    assert_eq!(cast_jsonb_to_int64(&Datum::Int64(7)), Ok(Datum::Int64(7)));
    assert_eq!(cast_jsonb_to_int16(&double(1e9)), Err(EvalError::Int16OutOfRange));
    assert_eq!(cast_jsonb_to_int16(&Datum::Int64(40_000)), Err(EvalError::Int16OutOfRange));
    assert_eq!(
        cast_jsonb_to_int64(&text("x")),
        Err(EvalError::InvalidJsonbCast { from: "string".to_string(), to: "bigint".to_string() })
    );
    assert_eq!(UnaryFunc::CastJsonbToInt16.apply(&double(2.4), &Host), Ok(Datum::Int16(2)));
}

#[test]
fn what_becomes_of_what_the_host_gives() {
    assert_eq!(single_in_range(Some(1.5f32.to_bits())), Ok(Datum::Float32(1.5f32.to_bits())));
    assert_eq!(single_in_range(Some(f32::INFINITY.to_bits())), Err(EvalError::Float32OutOfRange));
    assert_eq!(single_in_range(Some(f32::NEG_INFINITY.to_bits())), Err(EvalError::Float32OutOfRange));
    assert!(matches!(single_in_range(None), Err(EvalError::Internal(_))));
    assert_eq!(double_in_range(Some(1.5f64.to_bits())), Ok(double(1.5)));
    assert_eq!(double_in_range(Some(f64::INFINITY.to_bits())), Err(EvalError::Float64OutOfRange));
    assert!(matches!(double_in_range(None), Err(EvalError::Internal(_))));
    let n = match cast_string_to_numeric(&text("1.25"), None).unwrap() {
        Datum::Numeric(n) => n,
        other => panic!("no decimal: {:?}", other),
    };
    assert_eq!(cast_numeric_to_string(&finish_float_cast(n, None).unwrap()), text("1.25"));
    assert_eq!(cast_numeric_to_string(&finish_float_cast(n, Some(1)).unwrap()), text("1.3"));
    assert_eq!(cast_numeric_to_string(&finish_float_cast(n, Some(3)).unwrap()), text("1.250"));
    assert_eq!(finish_float_cast(n, Some(39)), Err(EvalError::NumericFieldOverflow));
    let broken = Numeric { digits: 0, ..n };
    assert!(matches!(finish_float_cast(broken, None), Err(EvalError::Internal(_))));
    assert_eq!(jsonb_of_reading(Some(Datum::Int64(1)), "1"), Ok(Datum::Int64(1)));
    assert_eq!(
        jsonb_of_reading(Some(Datum::Int32(1)), "1"),
        Err(EvalError::InvalidInputSyntax { target: "jsonb".to_string(), input: "1".to_string() })
    );
    let unsorted = Datum::Dict(vec![("b".to_string(), Datum::True), ("a".to_string(), Datum::True)]);
    assert!(matches!(jsonb_of_reading(Some(unsorted), "x"), Err(EvalError::InvalidInputSyntax { .. })));
    let twice = Datum::Dict(vec![("a".to_string(), Datum::True), ("a".to_string(), Datum::True)]);
    assert!(matches!(jsonb_of_reading(Some(twice), "x"), Err(EvalError::InvalidInputSyntax { .. })));
    assert_eq!(
        jsonb_of_reading(None, "{"),
        Err(EvalError::InvalidInputSyntax { target: "jsonb".to_string(), input: "{".to_string() })
    );
}

fn array_of(lengths: &[usize], elements: Vec<Datum>) -> Datum {
    Datum::Array { dims: lengths.iter().map(|l| ArrayDimension { lower_bound: 1, length: *l }).collect(), elements }
}

fn ints(values: &[i32]) -> Vec<Datum> {
    values.iter().map(|v| Datum::Int32(*v)).collect()
}

#[test]
fn texts_of_arrays() {
    let of_ints = ScalarType::Array(Box::new(ScalarType::Int32));
    let shown = |a: &Datum, ty: &ScalarType| cast_collection_to_string(a, ty, &Host);
    assert_eq!(shown(&array_of(&[3], ints(&[1, 2, 3])), &of_ints), Ok(text("{1,2,3}")));
    assert_eq!(shown(&array_of(&[2, 2], ints(&[1, 2, 3, 4])), &of_ints), Ok(text("{{1,2},{3,4}}")));
    assert_eq!(shown(&array_of(&[2, 1, 2], ints(&[1, 2, 3, 4])), &of_ints), Ok(text("{{{1,2}},{{3,4}}}")));
    assert_eq!(
        shown(&array_of(&[2, 3], ints(&[1, 2, 3, 4, 5, 6])), &of_ints),
        Ok(text("{{1,2,3},{4,5,6}}"))
    );
    assert_eq!(shown(&array_of(&[], vec![]), &of_ints), Ok(text("{}")));
    assert_eq!(
        shown(&array_of(&[3], vec![Datum::Int32(1), Datum::Null, Datum::Int32(3)]), &of_ints),
        Ok(text("{1,NULL,3}"))
    );
    let of_texts = ScalarType::Array(Box::new(ScalarType::String));
    assert_eq!(
        shown(&array_of(&[4], vec![text("a b"), text("c"), text("null"), text("")]), &of_texts),
        Ok(text("{\"a b\",c,\"null\",\"\"}"))
    );
    assert!(matches!(shown(&array_of(&[1], vec![text("x")]), &of_ints), Err(EvalError::Internal(_))));
}

#[test]
fn what_becomes_of_what_the_host_computes() {
    let hour = Interval { months: 0, duration: 3_600_000_000_000 };
    assert_eq!(interval_of_host(Some(hour)), Ok(Datum::Interval(hour)));
    assert_eq!(interval_of_host(None), Err(EvalError::IntervalOutOfRange));
    assert_eq!(interval_of_host(Some(Interval { months: 0, duration: i128::MAX })), Err(EvalError::IntervalOutOfRange));
    assert_eq!(timestamp_of_parts(2021, 1, 4, 13, 30, 15, 250_000), Datum::Timestamp(Timestamp {
        date: Date::from_ymd(2021, 1, 4).unwrap(),
        time: Time { secs: 13 * 3600 + 30 * 60 + 15, nanos: 250_000_000 },
    }));
    assert_eq!(timestamp_of_parts(2021, 2, 30, 0, 0, 0, 0), Datum::Null);
    assert_eq!(timestamp_of_parts(2021, 1, 4, 24, 0, 0, 0), Datum::Null);
    assert_eq!(timestamp_of_parts(2021, 1, 4, 0, 60, 0, 0), Datum::Null);
    assert_eq!(timestamp_of_parts(2021, 1, 4, 0, 0, 60, 0), Datum::Null);
    assert_eq!(timestamp_of_parts(2021, 1, 4, 0, 0, 0, 1_000_000), Datum::Null);
    assert_eq!(timestamp_of_parts(1 << 40, 1, 4, 0, 0, 0, 0), Datum::Null);
    let parts = vec![
        Datum::Int64(2021),
        Datum::Int64(1),
        Datum::Int64(4),
        Datum::Int64(13),
        Datum::Int64(30),
        double(15.25),
    ];
    assert_eq!(make_timestamp(&parts, &Host), timestamp_of_parts(2021, 1, 4, 13, 30, 15, 250_000));
    assert_eq!(moment_of_seconds(Some((0, 0))), Datum::TimestampTz(at(1970, 1, 1, 0, 0, 0)));
    assert_eq!(moment_of_seconds(Some((86_400 + 61, 0))), Datum::TimestampTz(at(1970, 1, 2, 0, 1, 1)));
    assert_eq!(
        moment_of_seconds(Some((-1, -500_000_000))),
        Datum::TimestampTz(Timestamp {
            date: Date::from_ymd(1969, 12, 31).unwrap(),
            time: Time { secs: 86_398, nanos: 500_000_000 },
        })
    );
    assert_eq!(moment_of_seconds(Some((0, 1_000_000_000))), Datum::Null);
    assert_eq!(moment_of_seconds(Some((i64::MAX, 0))), Datum::Null);
    assert_eq!(moment_of_seconds(None), Datum::Null);
    assert_eq!(to_timestamp(&double(61.5), &Host), moment_of_seconds(Some((61, 500_000_000))));
    let one = 1.0f64.to_bits();
    assert_eq!(single_of_double(one, 1.0f32.to_bits()), Ok(Datum::Float32(1.0f32.to_bits())));
    assert_eq!(single_of_double(1e300f64.to_bits(), f32::INFINITY.to_bits()), Err(EvalError::FloatOverflow));
    assert_eq!(
        single_of_double(f64::INFINITY.to_bits(), f32::INFINITY.to_bits()),
        Ok(Datum::Float32(f32::INFINITY.to_bits()))
    );
    assert_eq!(single_of_double(1e-300f64.to_bits(), 0.0f32.to_bits()), Err(EvalError::FloatUnderflow));
    assert_eq!(single_of_double(0.0f64.to_bits(), 0.0f32.to_bits()), Ok(Datum::Float32(0.0f32.to_bits())));
    assert_eq!(cast_float64_to_float32(&double(1e300), &Host), Err(EvalError::FloatOverflow));
    assert_eq!(cast_float64_to_float32(&double(1e-300), &Host), Err(EvalError::FloatUnderflow));
    assert_eq!(cast_float64_to_float32(&double(1.5), &Host), Ok(Datum::Float32(1.5f32.to_bits())));
}

#[test]
fn a_decimal_beyond_the_bound_is_no_decimal() {
    let zero = match cast_string_to_numeric(&text("0"), None).unwrap() {
        Datum::Numeric(n) => n,
        other => panic!("no decimal: {:?}", other),
    };
    let far = Datum::Numeric(Numeric { exponent: i32::MIN, ..zero });
    assert!(matches!(UnaryFunc::CastNumericToString.apply(&far, &Host), Err(EvalError::Internal(_))));
    assert!(matches!(BinaryFunc::AddNumeric.apply(&far, &Datum::Numeric(zero), &Host), Err(EvalError::Internal(_))));
    assert!(!Numeric { exponent: 513, ..zero }.is_wf());
    assert!(Numeric { exponent: -512, ..zero }.is_wf());
    assert_eq!(
        UnaryFunc::CastNumericToString.apply(&Datum::Numeric(zero), &Host),
        Ok(text("0"))
    );
}

#[test]
fn a_decimal_with_a_loose_coefficient_is_no_decimal() {
    let zero = numeric_of_text("0".to_string());
    let one = numeric_of_text("1".to_string());
    let loose = Numeric { digits: 2, ..zero };
    assert!(zero.is_wf());
    assert!(!loose.is_wf());
    assert!(matches!(
        BinaryFunc::DivNumeric.apply(&Datum::Numeric(one), &Datum::Numeric(loose), &Host),
        Err(EvalError::Internal(_))
    ));
    assert!(matches!(
        BinaryFunc::DivNumeric.apply(&Datum::Numeric(loose), &Datum::Numeric(one), &Host),
        Err(EvalError::Internal(_))
    ));
    assert!(matches!(
        BinaryFunc::ModNumeric.apply(&Datum::Numeric(one), &Datum::Numeric(loose), &Host),
        Err(EvalError::Internal(_))
    ));
    assert!(matches!(
        BinaryFunc::PowerNumeric.apply(&Datum::Numeric(loose), &Datum::Numeric(one), &Host),
        Err(EvalError::Internal(_))
    ));
    let twelve = numeric_of_text("12".to_string());
    assert!(twelve.is_wf());
    assert!(!Numeric { digits: 1, ..twelve }.is_wf());
    assert!(!Numeric { digits: 3, ..twelve }.is_wf());
    let long = numeric_of_text("123456789012345678901234567890123456789".to_string());
    assert!(long.is_wf());
    assert!(numeric_of_text("1000".to_string()).is_wf());
    assert!(numeric_of_text("-0.001".to_string()).is_wf());
    let nan = numeric_of_text("NaN".to_string());
    assert!(nan.is_wf());
    assert!(!Numeric { exponent: 1, ..nan }.is_wf());
    assert!(!Numeric { digits: 2, ..nan }.is_wf());
}

#[test]
fn rows_of_json_with_and_without_doubles() {
    let object = Datum::Dict(vec![
        ("a".to_string(), Datum::Int64(1)),
        ("b".to_string(), double(2.5)),
        ("c".to_string(), Datum::List(vec![Datum::True, Datum::JsonNull])),
        ("d".to_string(), Datum::JsonNull),
    ]);
    let rows = jsonb_each(&object, true, &Host);
    assert_eq!(
        rows,
        vec![
            (Row::pack(vec![text("a"), text("1")]), 1),
            (Row::pack(vec![text("b"), text("2.5")]), 1),
            (Row::pack(vec![text("c"), text("[true,null]")]), 1),
            (Row::pack(vec![text("d"), Datum::Null]), 1),
        ]
    );
    assert_eq!(TableFunc::JsonbEach { stringify: true }.eval(vec![object.clone()], &Host), Ok(rows));
    assert_eq!(
        jsonb_each(&object, false, &Host)[1],
        (Row::pack(vec![text("b"), double(2.5)]), 1)
    );
    let array = Datum::List(vec![text("x"), double(0.5), Datum::Int64(-7)]);
    assert_eq!(
        jsonb_array_elements(&array, true, &Host),
        vec![
            (Row::pack(vec![text("x")]), 1),
            (Row::pack(vec![text("0.5")]), 1),
            (Row::pack(vec![text("-7")]), 1),
        ]
    );
    assert_eq!(jsonb_array_elements(&object, true, &Host), vec![]);
    assert_eq!(jsonb_each(&array, false, &Host), vec![]);
}

#[test]
fn json_without_doubles_is_decided_by_the_library() {
    let holds = |a: &Datum, b: &Datum| BinaryFunc::JsonbContainsJsonb.apply(a, b, &Host);
    let object = Datum::Dict(vec![
        ("a".to_string(), Datum::Int64(1)),
        ("b".to_string(), Datum::List(vec![Datum::Int64(2), text("x")])),
    ]);
    let part = Datum::Dict(vec![("b".to_string(), Datum::List(vec![text("x")]))]);
    let other = Datum::Dict(vec![("b".to_string(), Datum::List(vec![text("y")]))]);
    assert_eq!(holds(&object, &part), Ok(Datum::True));
    assert_eq!(holds(&object, &other), Ok(Datum::False));
    assert_eq!(holds(&part, &object), Ok(Datum::False));
    let picked = BinaryFunc::JsonbGetString { stringify: true };
    let mixed = Datum::Dict(vec![("n".to_string(), Datum::Int64(4)), ("x".to_string(), double(1.5))]);
    assert_eq!(picked.apply(&mixed, &text("n"), &Host), Ok(text("4")));
    assert_eq!(picked.apply(&mixed, &text("x"), &Host), Ok(text("1.5")));
    assert_eq!(picked.apply(&mixed, &text("y"), &Host), Ok(Datum::Null));
    assert_eq!(
        UnaryFunc::CastJsonbToNumeric(None).apply(&Datum::Int64(12), &Host),
        Ok(Datum::Numeric(numeric_of_text("12".to_string())))
    );
    assert_eq!(
        UnaryFunc::CastJsonbToNumeric(None).apply(&text("12"), &Host),
        Err(EvalError::InvalidJsonbCast { from: "string".to_string(), to: "numeric".to_string() })
    );
}

#[test]
fn texts_of_lists_of_arrays() {
    let of_arrays = ScalarType::List {
        element_type: Box::new(ScalarType::Array(Box::new(ScalarType::Int64))),
        custom_oid: None,
    };
    let longs = |values: &[i64]| values.iter().map(|v| Datum::Int64(*v)).collect::<Vec<Datum>>();
    let list = Datum::List(vec![
        array_of(&[2, 2], longs(&[1, 2, 3, 4])),
        Datum::Null,
        array_of(&[1], longs(&[-5])),
        array_of(&[], vec![]),
    ]);
    assert_eq!(
        cast_collection_to_string(&list, &of_arrays, &Host),
        Ok(text("{{{1,2},{3,4}},NULL,{-5},{}}"))
    );
    let of_ints = ScalarType::Array(Box::new(ScalarType::Int64));
    assert_eq!(
        UnaryFunc::CastArrayToString { ty: of_ints }.apply(&array_of(&[3], longs(&[7, 8, 9])), &Host),
        Ok(text("{7,8,9}"))
    );
}
