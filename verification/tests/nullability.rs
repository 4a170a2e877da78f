use expr::binary::BinaryFunc;
use expr::scalar_type::{ColumnType, ScalarType};
use expr::unary::UnaryFunc;
use expr::variadic::VariadicFunc;

fn unit_variants() -> Vec<UnaryFunc> {
    vec![
        UnaryFunc::Not,
        UnaryFunc::IsNull,
        UnaryFunc::IsTrue,
        UnaryFunc::IsFalse,
        UnaryFunc::BitNotInt16,
        UnaryFunc::BitNotInt32,
        UnaryFunc::BitNotInt64,
        UnaryFunc::NegInt16,
        UnaryFunc::NegInt32,
        UnaryFunc::NegInt64,
        UnaryFunc::NegFloat32,
        UnaryFunc::NegFloat64,
        UnaryFunc::NegNumeric,
        UnaryFunc::NegInterval,
        UnaryFunc::SqrtFloat64,
        UnaryFunc::SqrtNumeric,
        UnaryFunc::CbrtFloat64,
        UnaryFunc::AbsInt16,
        UnaryFunc::AbsInt32,
        UnaryFunc::AbsInt64,
        UnaryFunc::AbsFloat32,
        UnaryFunc::AbsFloat64,
        UnaryFunc::AbsNumeric,
        UnaryFunc::CastBoolToString,
        UnaryFunc::CastBoolToStringNonstandard,
        UnaryFunc::CastBoolToInt32,
        UnaryFunc::CastInt16ToFloat32,
        UnaryFunc::CastInt16ToFloat64,
        UnaryFunc::CastInt16ToInt32,
        UnaryFunc::CastInt16ToInt64,
        UnaryFunc::CastInt16ToString,
        UnaryFunc::CastInt32ToBool,
        UnaryFunc::CastInt32ToFloat32,
        UnaryFunc::CastInt32ToFloat64,
        UnaryFunc::CastInt32ToOid,
        UnaryFunc::CastInt32ToRegProc,
        UnaryFunc::CastInt32ToInt16,
        UnaryFunc::CastInt32ToInt64,
        UnaryFunc::CastInt32ToString,
        UnaryFunc::CastOidToInt32,
        UnaryFunc::CastOidToRegProc,
        UnaryFunc::CastRegProcToOid,
        UnaryFunc::CastInt64ToInt16,
        UnaryFunc::CastInt64ToInt32,
        UnaryFunc::CastInt64ToBool,
        UnaryFunc::CastInt64ToFloat32,
        UnaryFunc::CastInt64ToFloat64,
        UnaryFunc::CastInt64ToString,
        UnaryFunc::CastFloat32ToInt16,
        UnaryFunc::CastFloat32ToInt32,
        UnaryFunc::CastFloat32ToInt64,
        UnaryFunc::CastFloat32ToFloat64,
        UnaryFunc::CastFloat32ToString,
        UnaryFunc::CastFloat64ToInt16,
        UnaryFunc::CastFloat64ToInt32,
        UnaryFunc::CastFloat64ToInt64,
        UnaryFunc::CastFloat64ToFloat32,
        UnaryFunc::CastFloat64ToString,
        UnaryFunc::CastNumericToFloat32,
        UnaryFunc::CastNumericToFloat64,
        UnaryFunc::CastNumericToInt16,
        UnaryFunc::CastNumericToInt32,
        UnaryFunc::CastNumericToInt64,
        UnaryFunc::CastNumericToString,
        UnaryFunc::CastStringToBool,
        UnaryFunc::CastStringToBytes,
        UnaryFunc::CastStringToInt16,
        UnaryFunc::CastStringToInt32,
        UnaryFunc::CastStringToInt64,
        UnaryFunc::CastStringToFloat32,
        UnaryFunc::CastStringToFloat64,
        UnaryFunc::CastStringToDate,
        UnaryFunc::CastStringToTime,
        UnaryFunc::CastStringToTimestamp,
        UnaryFunc::CastStringToTimestampTz,
        UnaryFunc::CastStringToInterval,
        UnaryFunc::CastStringToUuid,
        UnaryFunc::CastCharToString,
        UnaryFunc::CastVarCharToString,
        UnaryFunc::CastDateToTimestamp,
        UnaryFunc::CastDateToTimestampTz,
        UnaryFunc::CastDateToString,
        UnaryFunc::CastTimeToInterval,
        UnaryFunc::CastTimeToString,
        UnaryFunc::CastTimestampToDate,
        UnaryFunc::CastTimestampToTimestampTz,
        UnaryFunc::CastTimestampToString,
        UnaryFunc::CastTimestampTzToDate,
        UnaryFunc::CastTimestampTzToTimestamp,
        UnaryFunc::CastTimestampTzToString,
        UnaryFunc::CastIntervalToString,
        UnaryFunc::CastIntervalToTime,
        UnaryFunc::CastBytesToString,
        UnaryFunc::CastStringToJsonb,
        UnaryFunc::CastJsonbToString,
        UnaryFunc::CastJsonbOrNullToJsonb,
        UnaryFunc::CastJsonbToInt16,
        UnaryFunc::CastJsonbToInt32,
        UnaryFunc::CastJsonbToInt64,
        UnaryFunc::CastJsonbToFloat32,
        UnaryFunc::CastJsonbToFloat64,
        UnaryFunc::CastJsonbToBool,
        UnaryFunc::CastUuidToString,
        UnaryFunc::CeilFloat32,
        UnaryFunc::CeilFloat64,
        UnaryFunc::CeilNumeric,
        UnaryFunc::FloorFloat32,
        UnaryFunc::FloorFloat64,
        UnaryFunc::FloorNumeric,
        UnaryFunc::Ascii,
        UnaryFunc::BitLengthBytes,
        UnaryFunc::BitLengthString,
        UnaryFunc::ByteLengthBytes,
        UnaryFunc::ByteLengthString,
        UnaryFunc::CharLength,
        UnaryFunc::ToTimestamp,
        UnaryFunc::JsonbArrayLength,
        UnaryFunc::JsonbTypeof,
        UnaryFunc::JsonbStripNulls,
        UnaryFunc::JsonbPretty,
        UnaryFunc::RoundFloat32,
        UnaryFunc::RoundFloat64,
        UnaryFunc::RoundNumeric,
        UnaryFunc::TrimWhitespace,
        UnaryFunc::TrimLeadingWhitespace,
        UnaryFunc::TrimTrailingWhitespace,
        UnaryFunc::ListLength,
        UnaryFunc::Upper,
        UnaryFunc::Lower,
        UnaryFunc::Cos,
        UnaryFunc::Cosh,
        UnaryFunc::Sin,
        UnaryFunc::Sinh,
        UnaryFunc::Tan,
        UnaryFunc::Tanh,
        UnaryFunc::Cot,
        UnaryFunc::Log10,
        UnaryFunc::Log10Numeric,
        UnaryFunc::Ln,
        UnaryFunc::LnNumeric,
        UnaryFunc::Exp,
        UnaryFunc::ExpNumeric,
        UnaryFunc::Sleep,
        UnaryFunc::PgColumnSize,
        UnaryFunc::MzRowSize,
    ]
}

#[test]
fn unary_func_introduces_nulls() {
    let dummy_col_nullable_type = ScalarType::Bool.nullable(true);
    let dummy_col_nonnullable_type = ScalarType::Bool.nullable(false);
    for unary_unit_variant in unit_variants() {
        let output_on_nullable_input = unary_unit_variant.output_type(dummy_col_nullable_type.clone()).nullable;
        let output_on_nonnullable_input = unary_unit_variant.output_type(dummy_col_nonnullable_type.clone()).nullable;
        if unary_unit_variant.introduces_nulls() {
            assert!(output_on_nullable_input, "failure on {:?}", unary_unit_variant);
            assert!(output_on_nonnullable_input, "failure on {:?}", unary_unit_variant)
        } else {
            assert!(!output_on_nonnullable_input, "failure on {:?}", unary_unit_variant);
            assert_eq!(output_on_nullable_input, unary_unit_variant.propagates_nulls());
        }
    }
}

#[test]
fn unit_variants_are_all_there() {
    assert_eq!(unit_variants().len(), 145);
}

fn nullable_of(f: &BinaryFunc, left: bool, right: bool) -> bool {
    f.output_type(ScalarType::Int32.nullable(left), ScalarType::Int32.nullable(right)).nullable
}

#[test]
fn binary_nullability_follows_the_two_flags() {
    let funcs = vec![
        BinaryFunc::AddInt32,
        BinaryFunc::DivInt32,
        BinaryFunc::Eq,
        BinaryFunc::And,
        BinaryFunc::Or,
        BinaryFunc::BitShiftLeftInt32,
        BinaryFunc::MulInt32,
    ];
    for f in funcs {
        for (l, r) in [(false, false), (true, false), (false, true), (true, true)] {
            let expected = f.introduces_nulls() || (f.propagates_nulls() && (l || r));
            assert_eq!(nullable_of(&f, l, r), expected, "failure on {:?}", f);
        }
    }
}

#[test]
fn and_or_do_not_let_nulls_through() {
    assert!(!BinaryFunc::And.propagates_nulls());
    assert!(!BinaryFunc::Or.propagates_nulls());
    assert!(BinaryFunc::DivInt32.propagates_nulls());
    assert!(!nullable_of(&BinaryFunc::DivInt32, false, false));
    assert!(nullable_of(&BinaryFunc::DivInt32, false, true));
}

#[test]
fn variadic_nullability_follows_the_two_flags() {
    let texts = |nullable: bool| -> Vec<ColumnType> {
        vec![ScalarType::String.nullable(nullable), ScalarType::String.nullable(nullable), ScalarType::String.nullable(nullable)]
    };
    let funcs = vec![VariadicFunc::Concat, VariadicFunc::Replace, VariadicFunc::HmacString, VariadicFunc::JsonbBuildArray];
    for f in funcs {
        for nullable in [false, true] {
            let expected = f.introduces_nulls() || (f.propagates_nulls() && nullable);
            assert_eq!(f.output_type(texts(nullable)).nullable, expected, "failure on {:?}", f);
        }
    }
}
