//! The functions of one operand on datums.

use vstd::prelude::*;
use crate::binary_eval::{stamp, stamped};
use crate::unary::UnaryFunc;
use crate::datum::{Datum, DatumV, Interval, res_view};
use crate::error::{EvalError, EvalErrorV};
use crate::float::{FloatFn, FloatUnit};
use crate::float_round::{rounded_double, rounded_single};
use crate::func_datetime::{
    Timezone, cast_date_to_timestamp, cast_date_to_timestamptz, cast_interval_to_time, cast_time_to_interval,
    cast_timestamp_to_date, cast_timestamp_to_timestamptz, cast_timestamptz_to_date, cast_timestamptz_to_timestamp,
    date_part_interval_inner, date_part_timestamp_inner, date_trunc_inner, date_trunc_spec, interval_or_error,
    interval_time_spec, is_date, is_interval, is_time, is_timestamp, is_timestamptz, neg_interval, start_of,
    time_plus, timestamp_or_error, timestamptz_or_error, timezone_time, timezone_timestamp, timezone_timestamptz,
};
use crate::func_float::{
    abs_float32, abs_float64, cast_float32_to_float64, cast_float32_to_int16, cast_float32_to_int32,
    cast_float32_to_int64, cast_float32_to_string, cast_float64_to_float32, cast_float64_to_int16,
    cast_float64_to_int32, cast_float64_to_int64, cast_float64_to_string, cast_int16_to_float32,
    cast_int16_to_float64, cast_int32_to_float32, cast_int32_to_float64, cast_int64_to_float32,
    cast_int64_to_float64, cast_string_to_float32, cast_string_to_float64, domain_error, float64_function,
    is_infinite32, is_infinite64, neg_float32, neg_float64, round_float32, round_float64, sign32, sign64,
    to_timestamp,
};
use crate::func_format::{
    cast_bytes_to_string, cast_date_to_string, cast_interval_to_string, cast_string_to_bytes,
    cast_string_to_bytes_spec, cast_string_to_uuid, cast_time_to_string, cast_timestamp_to_string,
    cast_timestamptz_to_string, cast_uuid_to_string, date_text, hex_text, interval_text, time_text, timestamp_text,
    timestamptz_text, uuid_text, uuid_value,
};
use crate::func_int::{
    abs_int16, abs_int16_spec, abs_int32, abs_int32_spec, abs_int64, abs_int64_spec, bit_not_int16, bit_not_int32,
    bit_not_int64, cast_bool_to_int32, cast_int16_to_int32, cast_int16_to_int64, cast_int32_to_bool,
    cast_int32_to_int16, cast_int32_to_int64, cast_int64_to_bool, cast_int64_to_int16, cast_int64_to_int32, int16_or,
    int32_or, int64_or, is_false, is_null, is_true, neg_int16, neg_int16_spec, neg_int32, neg_int32_spec, neg_int64,
    neg_int64_spec, not,
};
use crate::func_jsonb::{
    cast_jsonb_or_null_to_jsonb, cast_jsonb_or_null_to_jsonb_spec, cast_jsonb_to_bool, cast_jsonb_to_float32,
    cast_jsonb_to_float64, cast_jsonb_to_int16, cast_jsonb_to_int16_spec, cast_jsonb_to_int32,
    cast_jsonb_to_int32_spec, cast_jsonb_to_int64, cast_jsonb_to_int64_spec, cast_jsonb_to_string,
    cast_string_to_jsonb, check_jsonb_variant, invalid_jsonb_cast, is_jsonb_variant, jsonb_array_length,
    jsonb_strip_nulls, jsonb_typeof, jsonb_typeof_name, read_jsonb, strip_nulls,
};
use crate::func_list::{list_length, record_get};
use crate::func_numeric::{
    abs_numeric, cast_float32_to_numeric, cast_float64_to_numeric, cast_int16_to_numeric, cast_int32_to_numeric,
    cast_int64_to_numeric, cast_jsonb_to_numeric, cast_numeric_to_float32, cast_numeric_to_float64,
    cast_numeric_to_int16, cast_numeric_to_int32, cast_numeric_to_int64, cast_numeric_to_string,
    cast_string_to_numeric, cast_string_to_numeric_spec, ceil_numeric, check_numeric, checked_outcome, exp_numeric,
    floor_numeric, is_numeric, ln_numeric, ln_numeric_spec, log10_numeric, log10_numeric_spec, munged_datum,
    neg_numeric, numeric_datum, numeric_to_int, rescale_numeric, rescaled_datum, round_numeric_unary,
    round_to_integer_spec, sqrt_numeric, sqrt_numeric_spec,
};
use crate::func_parse::{
    cast_string_to_date, cast_string_to_interval, cast_string_to_time, cast_string_to_timestamp,
    cast_string_to_timestamptz, date_in, interval_from, moment_in, parsed_or, time_in, timestamp_in,
};
use crate::func_regex::{is_match, is_regexp_match_static, regexp_match_spec, regexp_match_static};
use crate::func_string::{
    ascii, bit_length, byte_length, bytes_of, cast_bool_to_string, cast_bool_to_string_nonstandard,
    cast_int16_to_string, cast_int32_to_string, cast_int64_to_string, cast_str_to_char, cast_str_to_char_spec,
    cast_string_to_bool, cast_string_to_bool_spec, cast_string_to_int16, cast_string_to_int32, cast_string_to_int64,
    cast_string_to_int_spec, cast_string_to_varchar, cast_string_to_varchar_spec, char_length, length_datum, lower,
    lowercase, pad_char, pad_char_spec, space, syntax_error, trim_leading_whitespace, trim_trailing_whitespace,
    trim_whitespace, upper, uppercase,
};
use crate::func_stringify::{cast_collection_to_string, conforms, datum_text, not_of_type, plain};
use crate::func_to_char::{jsonb_pretty, pretty_text};
use crate::json_read::{JSON_MAX_DEPTH, json_datum};
use crate::jsonb::{check_jsonb, has_double, is_jsonb, jsonb_text};
use crate::numeric::{
    NUMERIC_MAX_EXPONENT, NUMERIC_MIN_EXPONENT, RoundMode, dec_abs_result, dec_exp_result, dec_from_i128_result,
    dec_neg_result, dec_round_result, dec_text,
};
use crate::shape::{
    check_bool, check_counted_list, check_date, check_field, check_interval, check_time, check_timestamp,
    check_timestamptz, check_variant, shape_error, wrong_shape,
};
use crate::strings::{int_text, trimmed};
use crate::text::{trimmed_end_of, trimmed_of, trimmed_start_of};

verus! {

/// The error of the functions that ask for the size of a datum as it is
/// stored, which is not known here.
pub open spec fn size_unknown() -> EvalErrorV {
    EvalErrorV::Internal("the size of a stored datum is not known"@)
}

/// The error of the functions that ask for the size of a datum as it is
/// stored.
pub fn size_error() -> (r: EvalError)
    ensures
        r@ == size_unknown(),
{
    EvalError::internal("the size of a stored datum is not known")
}

/// Whether a time zone is well formed.
pub fn check_zone(tz: Timezone) -> (r: bool)
    ensures
        r == tz.wf(),
{
    -86_400 < tz.offset_secs && tz.offset_secs < 86_400
}

impl UnaryFunc {
    /// Whether the function casts the elements of its operand by an
    /// expression of its own. Such a function is evaluated with the
    /// expression that holds it.
    pub open spec fn casts_elements(self) -> bool {
        self is CastStringToArray || self is CastStringToList || self is CastStringToMap || self is CastList1ToList2
    }

    /// Whether the function is defined on a datum, which is no null that
    /// the function lets through.
    pub open spec fn accepts(self, a: DatumV) -> bool {
        match self {
            UnaryFunc::Not => a.is_bool(),
            UnaryFunc::IsNull => true,
            UnaryFunc::IsTrue => true,
            UnaryFunc::IsFalse => true,
            UnaryFunc::BitNotInt16 => a is Int16,
            UnaryFunc::BitNotInt32 => a is Int32,
            UnaryFunc::BitNotInt64 => a is Int64,
            UnaryFunc::NegInt16 => a is Int16,
            UnaryFunc::NegInt32 => a is Int32,
            UnaryFunc::NegInt64 => a is Int64,
            UnaryFunc::NegFloat32 => a is Float32,
            UnaryFunc::NegFloat64 => a is Float64,
            UnaryFunc::NegNumeric => is_numeric(a),
            UnaryFunc::NegInterval => is_interval(a),
            UnaryFunc::SqrtNumeric => is_numeric(a),
            UnaryFunc::AbsInt16 => a is Int16,
            UnaryFunc::AbsInt32 => a is Int32,
            UnaryFunc::AbsInt64 => a is Int64,
            UnaryFunc::AbsFloat32 => a is Float32,
            UnaryFunc::AbsFloat64 => a is Float64,
            UnaryFunc::AbsNumeric => is_numeric(a),
            UnaryFunc::CastBoolToString => a.is_bool(),
            UnaryFunc::CastBoolToStringNonstandard => a.is_bool(),
            UnaryFunc::CastBoolToInt32 => a.is_bool(),
            UnaryFunc::CastInt16ToFloat32 => a is Int16,
            UnaryFunc::CastInt16ToFloat64 => a is Int16,
            UnaryFunc::CastInt16ToInt32 => a is Int16,
            UnaryFunc::CastInt16ToInt64 => a is Int16,
            UnaryFunc::CastInt16ToString => a is Int16,
            UnaryFunc::CastInt32ToBool => a is Int32,
            UnaryFunc::CastInt32ToFloat32 => a is Int32,
            UnaryFunc::CastInt32ToFloat64 => a is Int32,
            UnaryFunc::CastInt32ToInt16 => a is Int32,
            UnaryFunc::CastInt32ToInt64 => a is Int32,
            UnaryFunc::CastInt32ToString => a is Int32,
            UnaryFunc::CastInt64ToInt16 => a is Int64,
            UnaryFunc::CastInt64ToInt32 => a is Int64,
            UnaryFunc::CastInt64ToBool => a is Int64,
            UnaryFunc::CastInt64ToFloat32 => a is Int64,
            UnaryFunc::CastInt64ToFloat64 => a is Int64,
            UnaryFunc::CastInt64ToString => a is Int64,
            UnaryFunc::CastFloat32ToInt16 => a is Float32,
            UnaryFunc::CastFloat32ToInt32 => a is Float32,
            UnaryFunc::CastFloat32ToInt64 => a is Float32,
            UnaryFunc::CastFloat32ToFloat64 => a is Float32,
            UnaryFunc::CastFloat32ToString => a is Float32,
            UnaryFunc::CastFloat64ToInt16 => a is Float64,
            UnaryFunc::CastFloat64ToInt32 => a is Float64,
            UnaryFunc::CastFloat64ToInt64 => a is Float64,
            UnaryFunc::CastFloat64ToFloat32 => a is Float64,
            UnaryFunc::CastFloat64ToString => a is Float64,
            UnaryFunc::CastNumericToFloat32 => is_numeric(a),
            UnaryFunc::CastNumericToFloat64 => is_numeric(a),
            UnaryFunc::CastNumericToInt16 => is_numeric(a),
            UnaryFunc::CastNumericToInt32 => is_numeric(a),
            UnaryFunc::CastNumericToInt64 => is_numeric(a),
            UnaryFunc::CastNumericToString => is_numeric(a),
            UnaryFunc::CastStringToBool => a is String,
            UnaryFunc::CastStringToBytes => a is String,
            UnaryFunc::CastStringToInt16 => a is String,
            UnaryFunc::CastStringToInt32 => a is String,
            UnaryFunc::CastStringToInt64 => a is String,
            UnaryFunc::CastStringToFloat32 => a is String,
            UnaryFunc::CastStringToFloat64 => a is String,
            UnaryFunc::CastStringToDate => a is String,
            UnaryFunc::CastStringToTime => a is String,
            UnaryFunc::CastStringToTimestamp => a is String,
            UnaryFunc::CastStringToTimestampTz => a is String,
            UnaryFunc::CastStringToInterval => a is String,
            UnaryFunc::CastStringToUuid => a is String,
            UnaryFunc::CastDateToTimestamp => is_date(a),
            UnaryFunc::CastDateToTimestampTz => is_date(a),
            UnaryFunc::CastDateToString => is_date(a),
            UnaryFunc::CastTimeToInterval => is_time(a),
            UnaryFunc::CastTimeToString => is_time(a),
            UnaryFunc::CastTimestampToDate => is_timestamp(a),
            UnaryFunc::CastTimestampToTimestampTz => is_timestamp(a),
            UnaryFunc::CastTimestampToString => is_timestamp(a),
            UnaryFunc::CastTimestampTzToDate => is_timestamptz(a),
            UnaryFunc::CastTimestampTzToTimestamp => is_timestamptz(a),
            UnaryFunc::CastTimestampTzToString => is_timestamptz(a),
            UnaryFunc::CastIntervalToString => is_interval(a),
            UnaryFunc::CastIntervalToTime => is_interval(a),
            UnaryFunc::CastBytesToString => a is Bytes,
            UnaryFunc::CastStringToJsonb => a is String,
            UnaryFunc::CastJsonbToString => is_jsonb(a),
            UnaryFunc::CastJsonbOrNullToJsonb => true,
            UnaryFunc::CastJsonbToInt16 => is_jsonb_variant(a),
            UnaryFunc::CastJsonbToInt32 => is_jsonb_variant(a),
            UnaryFunc::CastJsonbToInt64 => is_jsonb_variant(a),
            UnaryFunc::CastJsonbToFloat32 => is_jsonb_variant(a),
            UnaryFunc::CastJsonbToFloat64 => is_jsonb_variant(a),
            UnaryFunc::CastJsonbToBool => is_jsonb_variant(a),
            UnaryFunc::CastUuidToString => a is Uuid,
            UnaryFunc::CeilNumeric => is_numeric(a),
            UnaryFunc::FloorNumeric => is_numeric(a),
            UnaryFunc::Ascii => a is String,
            UnaryFunc::CharLength => a is String,
            UnaryFunc::ToTimestamp => a is Float64,
            UnaryFunc::JsonbArrayLength => (a is List ==> a->List_0.len() <= i64::MAX),
            UnaryFunc::JsonbTypeof => (is_jsonb_variant(a) || a is Null),
            UnaryFunc::JsonbStripNulls => true,
            UnaryFunc::JsonbPretty => is_jsonb(a),
            UnaryFunc::TrimWhitespace => a is String,
            UnaryFunc::TrimLeadingWhitespace => a is String,
            UnaryFunc::TrimTrailingWhitespace => a is String,
            UnaryFunc::ListLength => a is List && a->List_0.len() <= i64::MAX,
            UnaryFunc::Upper => a is String,
            UnaryFunc::Lower => a is String,
            UnaryFunc::Log10Numeric => is_numeric(a),
            UnaryFunc::LnNumeric => is_numeric(a),
            UnaryFunc::ExpNumeric => is_numeric(a),
            UnaryFunc::SqrtFloat64 => a is Float64,
            UnaryFunc::CbrtFloat64 => a is Float64,
            UnaryFunc::Cos => a is Float64,
            UnaryFunc::Cosh => a is Float64,
            UnaryFunc::Sin => a is Float64,
            UnaryFunc::Sinh => a is Float64,
            UnaryFunc::Tan => a is Float64,
            UnaryFunc::Tanh => a is Float64,
            UnaryFunc::Cot => a is Float64,
            UnaryFunc::Log10 => a is Float64,
            UnaryFunc::Ln => a is Float64,
            UnaryFunc::Exp => a is Float64,
            UnaryFunc::CeilFloat32 => a is Float32,
            UnaryFunc::CeilFloat64 => a is Float64,
            UnaryFunc::FloorFloat32 => a is Float32,
            UnaryFunc::FloorFloat64 => a is Float64,
            UnaryFunc::RoundFloat32 => a is Float32,
            UnaryFunc::RoundFloat64 => a is Float64,
            UnaryFunc::RoundNumeric => is_numeric(a),
            UnaryFunc::CastInt32ToOid => a is Int32,
            UnaryFunc::CastInt32ToRegProc => a is Int32,
            UnaryFunc::CastOidToInt32 => a is Int32,
            UnaryFunc::CastOidToRegProc => a is Int32,
            UnaryFunc::CastRegProcToOid => a is Int32,
            UnaryFunc::CastCharToString => a is String,
            UnaryFunc::CastVarCharToString => a is String,
            UnaryFunc::CastInPlace { .. } => true,
            UnaryFunc::CastInt16ToNumeric(_) => a is Int16,
            UnaryFunc::CastInt32ToNumeric(_) => a is Int32,
            UnaryFunc::CastInt64ToNumeric(_) => a is Int64,
            UnaryFunc::CastStringToNumeric(_) => a is String,
            UnaryFunc::CastFloat32ToNumeric(_) => a is Float32,
            UnaryFunc::CastFloat64ToNumeric(_) => a is Float64,
            UnaryFunc::CastJsonbToNumeric(_) => is_jsonb_variant(a),
            UnaryFunc::CastStringToChar { .. } => a is String,
            UnaryFunc::PadChar { .. } => a is String,
            UnaryFunc::CastStringToVarChar { .. } => a is String,
            UnaryFunc::BitLengthBytes => (a is String || a is Bytes),
            UnaryFunc::BitLengthString => (a is String || a is Bytes),
            UnaryFunc::ByteLengthBytes => (a is String || a is Bytes),
            UnaryFunc::ByteLengthString => (a is String || a is Bytes),
            UnaryFunc::IsRegexpMatch(_) => a is String,
            UnaryFunc::RegexpMatch(_) => a is String,
            UnaryFunc::RecordGet(i) => a is List && i < a->List_0.len(),
            UnaryFunc::RescaleNumeric(_) => is_numeric(a),
            UnaryFunc::DatePartInterval(_) => is_interval(a),
            UnaryFunc::DatePartTimestamp(_) => is_timestamp(a),
            UnaryFunc::DatePartTimestampTz(_) => is_timestamptz(a),
            UnaryFunc::DateTruncTimestamp(_) => is_timestamp(a),
            UnaryFunc::DateTruncTimestampTz(_) => is_timestamptz(a),
            UnaryFunc::TimezoneTimestamp(tz) => tz.wf() && is_timestamp(a),
            UnaryFunc::TimezoneTimestampTz(tz) => tz.wf() && is_timestamptz(a),
            UnaryFunc::TimezoneTime { tz, .. } => tz.wf() && is_time(a),
            UnaryFunc::Sleep => true,
            UnaryFunc::PgColumnSize => true,
            UnaryFunc::MzRowSize => true,
            UnaryFunc::CastRecordToString { .. } => true,
            UnaryFunc::CastArrayToString { .. } => true,
            UnaryFunc::CastListToString { .. } => true,
            UnaryFunc::CastMapToString { .. } => true,
            UnaryFunc::CastStringToArray { .. } => false,
            UnaryFunc::CastStringToList { .. } => false,
            UnaryFunc::CastStringToMap { .. } => false,
            UnaryFunc::CastList1ToList2 { .. } => false,
        }
    }

    /// Whether the operand alone decides the result. Where it does not, the
    /// floating-point unit of the host has a part in it.
    /// A function that casts elements is exact where its expression is.
    pub open spec fn exact(self) -> bool {
        match self {
            UnaryFunc::CastInt16ToFloat32 => false,
            UnaryFunc::CastInt16ToFloat64 => false,
            UnaryFunc::CastInt32ToFloat32 => false,
            UnaryFunc::CastInt32ToFloat64 => false,
            UnaryFunc::CastInt64ToFloat32 => false,
            UnaryFunc::CastInt64ToFloat64 => false,
            UnaryFunc::CastFloat32ToFloat64 => false,
            UnaryFunc::CastFloat32ToString => false,
            UnaryFunc::CastFloat64ToFloat32 => false,
            UnaryFunc::CastFloat64ToString => false,
            UnaryFunc::CastNumericToFloat32 => false,
            UnaryFunc::CastNumericToFloat64 => false,
            UnaryFunc::CastStringToFloat32 => false,
            UnaryFunc::CastStringToFloat64 => false,
            UnaryFunc::CastJsonbToString => false,
            UnaryFunc::CastJsonbToFloat32 => false,
            UnaryFunc::CastJsonbToFloat64 => false,
            UnaryFunc::ToTimestamp => false,
            UnaryFunc::JsonbPretty => false,
            UnaryFunc::SqrtFloat64 => false,
            UnaryFunc::CbrtFloat64 => false,
            UnaryFunc::Cos => false,
            UnaryFunc::Cosh => false,
            UnaryFunc::Sin => false,
            UnaryFunc::Sinh => false,
            UnaryFunc::Tan => false,
            UnaryFunc::Tanh => false,
            UnaryFunc::Cot => false,
            UnaryFunc::Log10 => false,
            UnaryFunc::Ln => false,
            UnaryFunc::Exp => false,
            UnaryFunc::CeilFloat32 => false,
            UnaryFunc::CeilFloat64 => false,
            UnaryFunc::FloorFloat32 => false,
            UnaryFunc::FloorFloat64 => false,
            UnaryFunc::RoundFloat32 => false,
            UnaryFunc::RoundFloat64 => false,
            UnaryFunc::CastFloat32ToNumeric(_) => false,
            UnaryFunc::CastFloat64ToNumeric(_) => false,
            UnaryFunc::CastJsonbToNumeric(_) => false,
            UnaryFunc::DatePartInterval(_) => false,
            UnaryFunc::DatePartTimestamp(_) => false,
            UnaryFunc::DatePartTimestampTz(_) => false,
            UnaryFunc::CastRecordToString { ty } => plain(ty@),
            UnaryFunc::CastArrayToString { ty } => plain(ty@),
            UnaryFunc::CastListToString { ty } => plain(ty@),
            UnaryFunc::CastMapToString { ty } => plain(ty@),
            UnaryFunc::CastStringToArray { .. } => false,
            UnaryFunc::CastStringToList { .. } => false,
            UnaryFunc::CastStringToMap { .. } => false,
            UnaryFunc::CastList1ToList2 { .. } => false,
            _ => true,
        }
    }

    /// Whether the operand decides the result: the function is exact, or
    /// it is exact on this operand, because nothing is asked of the host
    /// for it.
    pub open spec fn exact_on(self, a: DatumV) -> bool {
        match self {
            UnaryFunc::CastJsonbToString => !has_double(a),
            UnaryFunc::CastJsonbToFloat32 => !(a is Int64 || a is Float64),
            UnaryFunc::CastJsonbToFloat64 => !(a is Int64),
            UnaryFunc::JsonbPretty => !has_double(a),
            UnaryFunc::SqrtFloat64 => domain_error(FloatFn::Sqrt, a->Float64_0) is Some,
            UnaryFunc::CbrtFloat64 => domain_error(FloatFn::Cbrt, a->Float64_0) is Some,
            UnaryFunc::Cos => domain_error(FloatFn::Cos, a->Float64_0) is Some,
            UnaryFunc::Cosh => domain_error(FloatFn::Cosh, a->Float64_0) is Some,
            UnaryFunc::Sin => domain_error(FloatFn::Sin, a->Float64_0) is Some,
            UnaryFunc::Sinh => domain_error(FloatFn::Sinh, a->Float64_0) is Some,
            UnaryFunc::Tan => domain_error(FloatFn::Tan, a->Float64_0) is Some,
            UnaryFunc::Tanh => domain_error(FloatFn::Tanh, a->Float64_0) is Some,
            UnaryFunc::Cot => domain_error(FloatFn::Cot, a->Float64_0) is Some,
            UnaryFunc::Log10 => domain_error(FloatFn::Log10, a->Float64_0) is Some,
            UnaryFunc::Ln => domain_error(FloatFn::Ln, a->Float64_0) is Some,
            UnaryFunc::Exp => domain_error(FloatFn::Exp, a->Float64_0) is Some,
            UnaryFunc::CastFloat32ToNumeric(_) => is_infinite32(a->Float32_0),
            UnaryFunc::CastFloat64ToNumeric(_) => is_infinite64(a->Float64_0),
            UnaryFunc::CastJsonbToNumeric(_) => !(a is Float64),
            _ => self.exact(),
        }
    }

    /// The result on a datum that the function accepts, where it is exact.
    pub open spec fn result_spec(self, a: DatumV) -> Result<DatumV, EvalErrorV> {
        match self {
            UnaryFunc::Not => Ok::<DatumV, EvalErrorV>(DatumV::from_bool(a is False)),
            UnaryFunc::IsNull => Ok::<DatumV, EvalErrorV>(DatumV::from_bool(a is Null)),
            UnaryFunc::IsTrue => Ok::<DatumV, EvalErrorV>(DatumV::from_bool(a is True)),
            UnaryFunc::IsFalse => Ok::<DatumV, EvalErrorV>(DatumV::from_bool(a is False)),
            UnaryFunc::BitNotInt16 => Ok::<DatumV, EvalErrorV>(DatumV::Int16((-1 - a->Int16_0) as i16)),
            UnaryFunc::BitNotInt32 => Ok::<DatumV, EvalErrorV>(DatumV::Int32((-1 - a->Int32_0) as i32)),
            UnaryFunc::BitNotInt64 => Ok::<DatumV, EvalErrorV>(DatumV::Int64((-1 - a->Int64_0) as i64)),
            UnaryFunc::NegInt16 => neg_int16_spec(a),
            UnaryFunc::NegInt32 => neg_int32_spec(a),
            UnaryFunc::NegInt64 => neg_int64_spec(a),
            UnaryFunc::NegFloat32 => Ok::<DatumV, EvalErrorV>(
                DatumV::Float32(
                    if sign32(a->Float32_0) {
                        (a->Float32_0 - 0x8000_0000) as u32
                    } else {
                        (a->Float32_0 + 0x8000_0000) as u32
                    },
                ),
            ),
            UnaryFunc::NegFloat64 => Ok::<DatumV, EvalErrorV>(
                DatumV::Float64(
                    if sign64(a->Float64_0) {
                        (a->Float64_0 - 0x8000_0000_0000_0000) as u64
                    } else {
                        (a->Float64_0 + 0x8000_0000_0000_0000) as u64
                    },
                ),
            ),
            UnaryFunc::NegNumeric => {
                munged_datum(dec_neg_result(a->Numeric_0, NUMERIC_MAX_EXPONENT, NUMERIC_MIN_EXPONENT).0)
            },
            UnaryFunc::NegInterval => interval_or_error(a->Interval_0.negated()),
            UnaryFunc::SqrtNumeric => sqrt_numeric_spec(a->Numeric_0),
            UnaryFunc::AbsInt16 => abs_int16_spec(a),
            UnaryFunc::AbsInt32 => abs_int32_spec(a),
            UnaryFunc::AbsInt64 => abs_int64_spec(a),
            UnaryFunc::AbsFloat32 => Ok::<DatumV, EvalErrorV>(
                DatumV::Float32(
                    if sign32(a->Float32_0) {
                        (a->Float32_0 - 0x8000_0000) as u32
                    } else {
                        a->Float32_0
                    },
                ),
            ),
            UnaryFunc::AbsFloat64 => Ok::<DatumV, EvalErrorV>(
                DatumV::Float64(
                    if sign64(a->Float64_0) {
                        (a->Float64_0 - 0x8000_0000_0000_0000) as u64
                    } else {
                        a->Float64_0
                    },
                ),
            ),
            UnaryFunc::AbsNumeric => Ok::<DatumV, EvalErrorV>(
                numeric_datum(dec_abs_result(a->Numeric_0, NUMERIC_MAX_EXPONENT, NUMERIC_MIN_EXPONENT).0),
            ),
            UnaryFunc::CastBoolToString => Ok::<DatumV, EvalErrorV>(
                DatumV::String(
                    if a is True {
                        "true"@
                    } else {
                        "false"@
                    },
                ),
            ),
            UnaryFunc::CastBoolToStringNonstandard => Ok::<DatumV, EvalErrorV>(
                DatumV::String(
                    if a is True {
                        "t"@
                    } else {
                        "f"@
                    },
                ),
            ),
            UnaryFunc::CastBoolToInt32 => Ok::<DatumV, EvalErrorV>(
                DatumV::Int32(
                    if a is True {
                        1i32
                    } else {
                        0i32
                    },
                ),
            ),
            UnaryFunc::CastInt16ToInt32 => Ok::<DatumV, EvalErrorV>(DatumV::Int32(a->Int16_0 as i32)),
            UnaryFunc::CastInt16ToInt64 => Ok::<DatumV, EvalErrorV>(DatumV::Int64(a->Int16_0 as i64)),
            UnaryFunc::CastInt16ToString => Ok::<DatumV, EvalErrorV>(DatumV::String(int_text(a->Int16_0 as int))),
            UnaryFunc::CastInt32ToBool => Ok::<DatumV, EvalErrorV>(DatumV::from_bool(a->Int32_0 != 0)),
            UnaryFunc::CastInt32ToInt16 => int16_or(a->Int32_0 as int, EvalErrorV::Int16OutOfRange),
            UnaryFunc::CastInt32ToInt64 => Ok::<DatumV, EvalErrorV>(DatumV::Int64(a->Int32_0 as i64)),
            UnaryFunc::CastInt32ToString => Ok::<DatumV, EvalErrorV>(DatumV::String(int_text(a->Int32_0 as int))),
            UnaryFunc::CastInt64ToInt16 => int16_or(a->Int64_0 as int, EvalErrorV::Int16OutOfRange),
            UnaryFunc::CastInt64ToInt32 => int32_or(a->Int64_0 as int, EvalErrorV::Int32OutOfRange),
            UnaryFunc::CastInt64ToBool => Ok::<DatumV, EvalErrorV>(DatumV::from_bool(a->Int64_0 != 0)),
            UnaryFunc::CastInt64ToString => Ok::<DatumV, EvalErrorV>(DatumV::String(int_text(a->Int64_0 as int))),
            UnaryFunc::CastFloat32ToInt16 => match rounded_single(a->Float32_0) {
                Some(n) => int16_or(n, EvalErrorV::Int16OutOfRange),
                None => Err(EvalErrorV::Int16OutOfRange),
            },
            UnaryFunc::CastFloat32ToInt32 => match rounded_single(a->Float32_0) {
                Some(n) => int32_or(n, EvalErrorV::Int32OutOfRange),
                None => Err(EvalErrorV::Int32OutOfRange),
            },
            UnaryFunc::CastFloat32ToInt64 => match rounded_single(a->Float32_0) {
                Some(n) => int64_or(n, EvalErrorV::Int64OutOfRange),
                None => Err(EvalErrorV::Int64OutOfRange),
            },
            UnaryFunc::CastFloat64ToInt16 => match rounded_double(a->Float64_0) {
                Some(n) => int16_or(n, EvalErrorV::Int16OutOfRange),
                None => Err(EvalErrorV::Int16OutOfRange),
            },
            UnaryFunc::CastFloat64ToInt32 => match rounded_double(a->Float64_0) {
                Some(n) => int32_or(n, EvalErrorV::Int32OutOfRange),
                None => Err(EvalErrorV::Int32OutOfRange),
            },
            UnaryFunc::CastFloat64ToInt64 => match rounded_double(a->Float64_0) {
                Some(n) => int64_or(n, EvalErrorV::Int64OutOfRange),
                None => Err(EvalErrorV::Int64OutOfRange),
            },
            UnaryFunc::CastNumericToInt16 => match numeric_to_int(a->Numeric_0) {
                Some(n) => int16_or(n as int, EvalErrorV::Int16OutOfRange),
                None => Err(EvalErrorV::Int16OutOfRange),
            },
            UnaryFunc::CastNumericToInt32 => match numeric_to_int(a->Numeric_0) {
                Some(n) => int32_or(n as int, EvalErrorV::Int32OutOfRange),
                None => Err(EvalErrorV::Int32OutOfRange),
            },
            UnaryFunc::CastNumericToInt64 => match numeric_to_int(a->Numeric_0) {
                Some(n) => Ok::<DatumV, EvalErrorV>(DatumV::Int64(n)),
                None => Err(EvalErrorV::Int64OutOfRange),
            },
            UnaryFunc::CastNumericToString => Ok::<DatumV, EvalErrorV>(DatumV::String(dec_text(a->Numeric_0))),
            UnaryFunc::CastStringToBool => cast_string_to_bool_spec(a->String_0),
            UnaryFunc::CastStringToBytes => cast_string_to_bytes_spec(a->String_0),
            UnaryFunc::CastStringToInt16 => match cast_string_to_int_spec(
                a->String_0, i16::MIN as int, i16::MAX as int, "smallint"@,
            ) {
                Ok(n) => Ok::<DatumV, EvalErrorV>(DatumV::Int16(n as i16)),
                Err(e) => Err::<DatumV, EvalErrorV>(e),
            },
            UnaryFunc::CastStringToInt32 => match cast_string_to_int_spec(
                a->String_0, i32::MIN as int, i32::MAX as int, "integer"@,
            ) {
                Ok(n) => Ok::<DatumV, EvalErrorV>(DatumV::Int32(n as i32)),
                Err(e) => Err::<DatumV, EvalErrorV>(e),
            },
            UnaryFunc::CastStringToInt64 => match cast_string_to_int_spec(
                a->String_0, i64::MIN as int, i64::MAX as int, "bigint"@,
            ) {
                Ok(n) => Ok::<DatumV, EvalErrorV>(DatumV::Int64(n as i64)),
                Err(e) => Err::<DatumV, EvalErrorV>(e),
            },
            UnaryFunc::CastStringToDate => parsed_or(
                match date_in(trimmed(a->String_0)) {
                    Some(d) => Some(DatumV::Date(d)),
                    None => None,
                },
                "date"@,
                a->String_0,
            ),
            UnaryFunc::CastStringToTime => parsed_or(
                match time_in(trimmed(a->String_0)) {
                    Some(t) => Some(DatumV::Time(t)),
                    None => None,
                },
                "time"@,
                a->String_0,
            ),
            UnaryFunc::CastStringToTimestamp => parsed_or(
                match timestamp_in(trimmed(a->String_0)) {
                    Some((ts, _)) => Some(DatumV::Timestamp(ts)),
                    None => None,
                },
                "timestamp"@,
                a->String_0,
            ),
            UnaryFunc::CastStringToTimestampTz => parsed_or(
                match moment_in(trimmed(a->String_0)) {
                    Some(ts) => Some(DatumV::TimestampTz(ts)),
                    None => None,
                },
                "timestamp with time zone"@,
                a->String_0,
            ),
            UnaryFunc::CastStringToInterval => parsed_or(
                match interval_from(trimmed(a->String_0), 0, 0, 0, false) {
                    Some(i) => Some(DatumV::Interval(i)),
                    None => None,
                },
                "interval"@,
                a->String_0,
            ),
            UnaryFunc::CastStringToUuid => match uuid_value(trimmed(a->String_0)) {
                Some(u) => Ok::<DatumV, EvalErrorV>(DatumV::Uuid(u)),
                None => Err(syntax_error("uuid"@, a->String_0)),
            },
            UnaryFunc::CastDateToTimestamp => Ok::<DatumV, EvalErrorV>(DatumV::Timestamp(start_of(a->Date_0))),
            UnaryFunc::CastDateToTimestampTz => Ok::<DatumV, EvalErrorV>(DatumV::TimestampTz(start_of(a->Date_0))),
            UnaryFunc::CastDateToString => Ok::<DatumV, EvalErrorV>(DatumV::String(date_text(a->Date_0))),
            UnaryFunc::CastTimeToInterval => Ok::<DatumV, EvalErrorV>(
                DatumV::Interval(Interval { months: 0, duration: a->Time_0.nanos_of_day() as i128 }),
            ),
            UnaryFunc::CastTimeToString => Ok::<DatumV, EvalErrorV>(DatumV::String(time_text(a->Time_0))),
            UnaryFunc::CastTimestampToDate => Ok::<DatumV, EvalErrorV>(DatumV::Date(a->Timestamp_0.date)),
            UnaryFunc::CastTimestampToTimestampTz => Ok::<DatumV, EvalErrorV>(DatumV::TimestampTz(a->Timestamp_0)),
            UnaryFunc::CastTimestampToString => Ok::<DatumV, EvalErrorV>(
                DatumV::String(timestamp_text(a->Timestamp_0)),
            ),
            UnaryFunc::CastTimestampTzToDate => Ok::<DatumV, EvalErrorV>(DatumV::Date(a->TimestampTz_0.date)),
            UnaryFunc::CastTimestampTzToTimestamp => Ok::<DatumV, EvalErrorV>(DatumV::Timestamp(a->TimestampTz_0)),
            UnaryFunc::CastTimestampTzToString => Ok::<DatumV, EvalErrorV>(
                DatumV::String(timestamptz_text(a->TimestampTz_0)),
            ),
            UnaryFunc::CastIntervalToString => Ok::<DatumV, EvalErrorV>(DatumV::String(interval_text(a->Interval_0))),
            UnaryFunc::CastIntervalToTime => Ok::<DatumV, EvalErrorV>(
                DatumV::Time(interval_time_spec(a->Interval_0)),
            ),
            UnaryFunc::CastBytesToString => Ok::<DatumV, EvalErrorV>(
                DatumV::String(seq!['\\', 'x'] + hex_text(a->Bytes_0)),
            ),
            UnaryFunc::CastStringToJsonb => read_jsonb(json_datum(a->String_0, JSON_MAX_DEPTH as nat), a->String_0),
            UnaryFunc::CastJsonbToString => Ok::<DatumV, EvalErrorV>(DatumV::String(jsonb_text(a))),
            UnaryFunc::CastJsonbOrNullToJsonb => Ok::<DatumV, EvalErrorV>(cast_jsonb_or_null_to_jsonb_spec(a)),
            UnaryFunc::CastJsonbToInt16 => cast_jsonb_to_int16_spec(a),
            UnaryFunc::CastJsonbToInt32 => cast_jsonb_to_int32_spec(a),
            UnaryFunc::CastJsonbToInt64 => cast_jsonb_to_int64_spec(a),
            UnaryFunc::CastJsonbToFloat32 => Err::<DatumV, EvalErrorV>(invalid_jsonb_cast(a, "real"@)),
            UnaryFunc::CastJsonbToFloat64 => if a is Float64 {
                Ok::<DatumV, EvalErrorV>(a)
            } else {
                Err::<DatumV, EvalErrorV>(invalid_jsonb_cast(a, "double precision"@))
            },
            UnaryFunc::CastJsonbToBool => if a.is_bool() {
                Ok::<DatumV, EvalErrorV>(a)
            } else {
                Err::<DatumV, EvalErrorV>(invalid_jsonb_cast(a, "boolean"@))
            },
            UnaryFunc::CastUuidToString => Ok::<DatumV, EvalErrorV>(DatumV::String(uuid_text(a->Uuid_0))),
            UnaryFunc::CeilNumeric => round_to_integer_spec(a, RoundMode::Ceiling),
            UnaryFunc::FloorNumeric => round_to_integer_spec(a, RoundMode::Floor),
            UnaryFunc::Ascii => Ok::<DatumV, EvalErrorV>(
                DatumV::Int32(
                    if a->String_0.len() == 0 {
                        0i32
                    } else {
                        a->String_0[0] as u32 as i32
                    },
                ),
            ),
            UnaryFunc::CharLength => length_datum(a->String_0.len() as int),
            UnaryFunc::JsonbArrayLength => Ok::<DatumV, EvalErrorV>(
                match a {
                    DatumV::List(v) => DatumV::Int64(v.len() as i64),
                    _ => DatumV::Null,
                },
            ),
            UnaryFunc::JsonbTypeof => Ok::<DatumV, EvalErrorV>(
                if a is Null {
                    DatumV::Null
                } else {
                    DatumV::String(jsonb_typeof_name(a))
                },
            ),
            UnaryFunc::JsonbStripNulls => Ok::<DatumV, EvalErrorV>(strip_nulls(a)),
            UnaryFunc::JsonbPretty => Ok::<DatumV, EvalErrorV>(DatumV::String(pretty_text(a, 0))),
            UnaryFunc::TrimWhitespace => Ok::<DatumV, EvalErrorV>(DatumV::String(trimmed_of(a->String_0, space()))),
            UnaryFunc::TrimLeadingWhitespace => Ok::<DatumV, EvalErrorV>(
                DatumV::String(trimmed_start_of(a->String_0, space())),
            ),
            UnaryFunc::TrimTrailingWhitespace => Ok::<DatumV, EvalErrorV>(
                DatumV::String(trimmed_end_of(a->String_0, space())),
            ),
            UnaryFunc::ListLength => Ok::<DatumV, EvalErrorV>(DatumV::Int64(a->List_0.len() as i64)),
            UnaryFunc::Upper => Ok::<DatumV, EvalErrorV>(DatumV::String(uppercase(a->String_0))),
            UnaryFunc::Lower => Ok::<DatumV, EvalErrorV>(DatumV::String(lowercase(a->String_0))),
            UnaryFunc::Log10Numeric => log10_numeric_spec(a->Numeric_0),
            UnaryFunc::LnNumeric => ln_numeric_spec(a->Numeric_0),
            UnaryFunc::ExpNumeric => {
                checked_outcome(dec_exp_result(a->Numeric_0, NUMERIC_MAX_EXPONENT, NUMERIC_MIN_EXPONENT))
            },
            UnaryFunc::SqrtFloat64 => Err::<DatumV, EvalErrorV>(domain_error(FloatFn::Sqrt, a->Float64_0)->0),
            UnaryFunc::CbrtFloat64 => Err::<DatumV, EvalErrorV>(domain_error(FloatFn::Cbrt, a->Float64_0)->0),
            UnaryFunc::Cos => Err::<DatumV, EvalErrorV>(domain_error(FloatFn::Cos, a->Float64_0)->0),
            UnaryFunc::Cosh => Err::<DatumV, EvalErrorV>(domain_error(FloatFn::Cosh, a->Float64_0)->0),
            UnaryFunc::Sin => Err::<DatumV, EvalErrorV>(domain_error(FloatFn::Sin, a->Float64_0)->0),
            UnaryFunc::Sinh => Err::<DatumV, EvalErrorV>(domain_error(FloatFn::Sinh, a->Float64_0)->0),
            UnaryFunc::Tan => Err::<DatumV, EvalErrorV>(domain_error(FloatFn::Tan, a->Float64_0)->0),
            UnaryFunc::Tanh => Err::<DatumV, EvalErrorV>(domain_error(FloatFn::Tanh, a->Float64_0)->0),
            UnaryFunc::Cot => Err::<DatumV, EvalErrorV>(domain_error(FloatFn::Cot, a->Float64_0)->0),
            UnaryFunc::Log10 => Err::<DatumV, EvalErrorV>(domain_error(FloatFn::Log10, a->Float64_0)->0),
            UnaryFunc::Ln => Err::<DatumV, EvalErrorV>(domain_error(FloatFn::Ln, a->Float64_0)->0),
            UnaryFunc::Exp => Err::<DatumV, EvalErrorV>(domain_error(FloatFn::Exp, a->Float64_0)->0),
            UnaryFunc::RoundNumeric => Ok::<DatumV, EvalErrorV>(
                if a->Numeric_0.exponent >= 0 {
                    a
                } else {
                    numeric_datum(
                        dec_round_result(a->Numeric_0, RoundMode::HalfUp, NUMERIC_MAX_EXPONENT, NUMERIC_MIN_EXPONENT).0,
                    )
                },
            ),
            UnaryFunc::CastInt32ToOid => Ok::<DatumV, EvalErrorV>(a),
            UnaryFunc::CastInt32ToRegProc => Ok::<DatumV, EvalErrorV>(a),
            UnaryFunc::CastOidToInt32 => Ok::<DatumV, EvalErrorV>(a),
            UnaryFunc::CastOidToRegProc => Ok::<DatumV, EvalErrorV>(a),
            UnaryFunc::CastRegProcToOid => Ok::<DatumV, EvalErrorV>(a),
            UnaryFunc::CastCharToString => Ok::<DatumV, EvalErrorV>(a),
            UnaryFunc::CastVarCharToString => Ok::<DatumV, EvalErrorV>(a),
            UnaryFunc::CastInPlace { .. } => Ok::<DatumV, EvalErrorV>(a),
            UnaryFunc::CastInt16ToNumeric(scale) => rescaled_datum(dec_from_i128_result(a->Int16_0 as i128), scale),
            UnaryFunc::CastInt32ToNumeric(scale) => rescaled_datum(dec_from_i128_result(a->Int32_0 as i128), scale),
            UnaryFunc::CastInt64ToNumeric(scale) => rescaled_datum(dec_from_i128_result(a->Int64_0 as i128), scale),
            UnaryFunc::CastStringToNumeric(scale) => cast_string_to_numeric_spec(a->String_0, scale),
            UnaryFunc::CastFloat32ToNumeric(_) => {
                Err::<DatumV, EvalErrorV>(EvalErrorV::InfinityOutOfDomain("casting real to numeric"@))
            },
            UnaryFunc::CastFloat64ToNumeric(_) => {
                Err::<DatumV, EvalErrorV>(EvalErrorV::InfinityOutOfDomain("casting double precision to numeric"@))
            },
            UnaryFunc::CastJsonbToNumeric(scale) => if a is Int64 {
                rescaled_datum(dec_from_i128_result(a->Int64_0 as i128), scale)
            } else {
                Err::<DatumV, EvalErrorV>(invalid_jsonb_cast(a, "numeric"@))
            },
            UnaryFunc::CastStringToChar { length, fail_on_len } => {
                cast_str_to_char_spec(a->String_0, length, fail_on_len)
            },
            UnaryFunc::PadChar { length } => Ok::<DatumV, EvalErrorV>(
                DatumV::String(pad_char_spec(a->String_0, length)),
            ),
            UnaryFunc::CastStringToVarChar { length, fail_on_len } => {
                cast_string_to_varchar_spec(a->String_0, length, fail_on_len)
            },
            UnaryFunc::BitLengthBytes => length_datum(bytes_of(a).len() as int * 8),
            UnaryFunc::BitLengthString => length_datum(bytes_of(a).len() as int * 8),
            UnaryFunc::ByteLengthBytes => length_datum(bytes_of(a).len() as int),
            UnaryFunc::ByteLengthString => length_datum(bytes_of(a).len() as int),
            UnaryFunc::IsRegexpMatch(regex) => Ok::<DatumV, EvalErrorV>(
                DatumV::from_bool(is_match(regex, a->String_0)),
            ),
            UnaryFunc::RegexpMatch(regex) => Ok::<DatumV, EvalErrorV>(regexp_match_spec(regex, a->String_0)),
            UnaryFunc::RecordGet(i) => Ok::<DatumV, EvalErrorV>(a->List_0[i as int]),
            UnaryFunc::RescaleNumeric(scale) => rescaled_datum(a->Numeric_0, Some(scale)),
            UnaryFunc::DateTruncTimestamp(units) => stamped(date_trunc_spec(units, a->Timestamp_0), false),
            UnaryFunc::DateTruncTimestampTz(units) => stamped(date_trunc_spec(units, a->TimestampTz_0), true),
            UnaryFunc::TimezoneTimestamp(tz) => {
                timestamptz_or_error(a->Timestamp_0.plus_nanos(-(tz.offset_secs as int * 1_000_000_000)))
            },
            UnaryFunc::TimezoneTimestampTz(tz) => {
                timestamp_or_error(a->TimestampTz_0.plus_nanos(tz.offset_secs as int * 1_000_000_000))
            },
            UnaryFunc::TimezoneTime { tz, .. } => Ok::<DatumV, EvalErrorV>(
                DatumV::Time(time_plus(a->Time_0, tz.offset_secs as int * 1_000_000_000)),
            ),
            UnaryFunc::Sleep => Ok::<DatumV, EvalErrorV>(DatumV::Null),
            UnaryFunc::PgColumnSize => Err::<DatumV, EvalErrorV>(size_unknown()),
            UnaryFunc::MzRowSize => Err::<DatumV, EvalErrorV>(size_unknown()),
            UnaryFunc::CastRecordToString { ty } => if conforms(a, ty@) {
                Ok::<DatumV, EvalErrorV>(DatumV::String(datum_text(a, ty@)))
            } else {
                Err::<DatumV, EvalErrorV>(not_of_type())
            },
            UnaryFunc::CastArrayToString { ty } => if conforms(a, ty@) {
                Ok::<DatumV, EvalErrorV>(DatumV::String(datum_text(a, ty@)))
            } else {
                Err::<DatumV, EvalErrorV>(not_of_type())
            },
            UnaryFunc::CastListToString { ty } => if conforms(a, ty@) {
                Ok::<DatumV, EvalErrorV>(DatumV::String(datum_text(a, ty@)))
            } else {
                Err::<DatumV, EvalErrorV>(not_of_type())
            },
            UnaryFunc::CastMapToString { ty } => if conforms(a, ty@) {
                Ok::<DatumV, EvalErrorV>(DatumV::String(datum_text(a, ty@)))
            } else {
                Err::<DatumV, EvalErrorV>(not_of_type())
            },
            _ => arbitrary(),
        }
    }

    /// The result on a datum: null where the function lets nulls through
    /// and the datum is null; an error where it is not defined on it.
    #[verifier::opaque]
    pub open spec fn apply_spec(self, a: DatumV) -> Result<DatumV, EvalErrorV> {
        if self.propagates_nulls() && a is Null {
            Ok(DatumV::Null)
        } else if !self.accepts(a) {
            Err(wrong_shape())
        } else {
            self.result_spec(a)
        }
    }

    /// Whether the function is defined on a datum.
    pub fn check(&self, a: &Datum) -> (r: bool)
        ensures
            r == self.accepts(a@),
    {
        match self {
            UnaryFunc::Not => check_bool(a),
            UnaryFunc::IsNull => true,
            UnaryFunc::IsTrue => true,
            UnaryFunc::IsFalse => true,
            UnaryFunc::BitNotInt16 => check_variant(a, 2),
            UnaryFunc::BitNotInt32 => check_variant(a, 3),
            UnaryFunc::BitNotInt64 => check_variant(a, 4),
            UnaryFunc::NegInt16 => check_variant(a, 2),
            UnaryFunc::NegInt32 => check_variant(a, 3),
            UnaryFunc::NegInt64 => check_variant(a, 4),
            UnaryFunc::NegFloat32 => check_variant(a, 5),
            UnaryFunc::NegFloat64 => check_variant(a, 6),
            UnaryFunc::NegNumeric => check_numeric(a),
            UnaryFunc::NegInterval => check_interval(a),
            UnaryFunc::SqrtNumeric => check_numeric(a),
            UnaryFunc::AbsInt16 => check_variant(a, 2),
            UnaryFunc::AbsInt32 => check_variant(a, 3),
            UnaryFunc::AbsInt64 => check_variant(a, 4),
            UnaryFunc::AbsFloat32 => check_variant(a, 5),
            UnaryFunc::AbsFloat64 => check_variant(a, 6),
            UnaryFunc::AbsNumeric => check_numeric(a),
            UnaryFunc::CastBoolToString => check_bool(a),
            UnaryFunc::CastBoolToStringNonstandard => check_bool(a),
            UnaryFunc::CastBoolToInt32 => check_bool(a),
            UnaryFunc::CastInt16ToFloat32 => check_variant(a, 2),
            UnaryFunc::CastInt16ToFloat64 => check_variant(a, 2),
            UnaryFunc::CastInt16ToInt32 => check_variant(a, 2),
            UnaryFunc::CastInt16ToInt64 => check_variant(a, 2),
            UnaryFunc::CastInt16ToString => check_variant(a, 2),
            UnaryFunc::CastInt32ToBool => check_variant(a, 3),
            UnaryFunc::CastInt32ToFloat32 => check_variant(a, 3),
            UnaryFunc::CastInt32ToFloat64 => check_variant(a, 3),
            UnaryFunc::CastInt32ToInt16 => check_variant(a, 3),
            UnaryFunc::CastInt32ToInt64 => check_variant(a, 3),
            UnaryFunc::CastInt32ToString => check_variant(a, 3),
            UnaryFunc::CastInt64ToInt16 => check_variant(a, 4),
            UnaryFunc::CastInt64ToInt32 => check_variant(a, 4),
            UnaryFunc::CastInt64ToBool => check_variant(a, 4),
            UnaryFunc::CastInt64ToFloat32 => check_variant(a, 4),
            UnaryFunc::CastInt64ToFloat64 => check_variant(a, 4),
            UnaryFunc::CastInt64ToString => check_variant(a, 4),
            UnaryFunc::CastFloat32ToInt16 => check_variant(a, 5),
            UnaryFunc::CastFloat32ToInt32 => check_variant(a, 5),
            UnaryFunc::CastFloat32ToInt64 => check_variant(a, 5),
            UnaryFunc::CastFloat32ToFloat64 => check_variant(a, 5),
            UnaryFunc::CastFloat32ToString => check_variant(a, 5),
            UnaryFunc::CastFloat64ToInt16 => check_variant(a, 6),
            UnaryFunc::CastFloat64ToInt32 => check_variant(a, 6),
            UnaryFunc::CastFloat64ToInt64 => check_variant(a, 6),
            UnaryFunc::CastFloat64ToFloat32 => check_variant(a, 6),
            UnaryFunc::CastFloat64ToString => check_variant(a, 6),
            UnaryFunc::CastNumericToFloat32 => check_numeric(a),
            UnaryFunc::CastNumericToFloat64 => check_numeric(a),
            UnaryFunc::CastNumericToInt16 => check_numeric(a),
            UnaryFunc::CastNumericToInt32 => check_numeric(a),
            UnaryFunc::CastNumericToInt64 => check_numeric(a),
            UnaryFunc::CastNumericToString => check_numeric(a),
            UnaryFunc::CastStringToBool => check_variant(a, 13),
            UnaryFunc::CastStringToBytes => check_variant(a, 13),
            UnaryFunc::CastStringToInt16 => check_variant(a, 13),
            UnaryFunc::CastStringToInt32 => check_variant(a, 13),
            UnaryFunc::CastStringToInt64 => check_variant(a, 13),
            UnaryFunc::CastStringToFloat32 => check_variant(a, 13),
            UnaryFunc::CastStringToFloat64 => check_variant(a, 13),
            UnaryFunc::CastStringToDate => check_variant(a, 13),
            UnaryFunc::CastStringToTime => check_variant(a, 13),
            UnaryFunc::CastStringToTimestamp => check_variant(a, 13),
            UnaryFunc::CastStringToTimestampTz => check_variant(a, 13),
            UnaryFunc::CastStringToInterval => check_variant(a, 13),
            UnaryFunc::CastStringToUuid => check_variant(a, 13),
            UnaryFunc::CastDateToTimestamp => check_date(a),
            UnaryFunc::CastDateToTimestampTz => check_date(a),
            UnaryFunc::CastDateToString => check_date(a),
            UnaryFunc::CastTimeToInterval => check_time(a),
            UnaryFunc::CastTimeToString => check_time(a),
            UnaryFunc::CastTimestampToDate => check_timestamp(a),
            UnaryFunc::CastTimestampToTimestampTz => check_timestamp(a),
            UnaryFunc::CastTimestampToString => check_timestamp(a),
            UnaryFunc::CastTimestampTzToDate => check_timestamptz(a),
            UnaryFunc::CastTimestampTzToTimestamp => check_timestamptz(a),
            UnaryFunc::CastTimestampTzToString => check_timestamptz(a),
            UnaryFunc::CastIntervalToString => check_interval(a),
            UnaryFunc::CastIntervalToTime => check_interval(a),
            UnaryFunc::CastBytesToString => check_variant(a, 12),
            UnaryFunc::CastStringToJsonb => check_variant(a, 13),
            UnaryFunc::CastJsonbToString => check_jsonb(a),
            UnaryFunc::CastJsonbOrNullToJsonb => true,
            UnaryFunc::CastJsonbToInt16 => check_jsonb_variant(a),
            UnaryFunc::CastJsonbToInt32 => check_jsonb_variant(a),
            UnaryFunc::CastJsonbToInt64 => check_jsonb_variant(a),
            UnaryFunc::CastJsonbToFloat32 => check_jsonb_variant(a),
            UnaryFunc::CastJsonbToFloat64 => check_jsonb_variant(a),
            UnaryFunc::CastJsonbToBool => check_jsonb_variant(a),
            UnaryFunc::CastUuidToString => check_variant(a, 19),
            UnaryFunc::CeilNumeric => check_numeric(a),
            UnaryFunc::FloorNumeric => check_numeric(a),
            UnaryFunc::Ascii => check_variant(a, 13),
            UnaryFunc::CharLength => check_variant(a, 13),
            UnaryFunc::ToTimestamp => check_variant(a, 6),
            UnaryFunc::JsonbArrayLength => (!check_variant(a, 15) || check_counted_list(a)),
            UnaryFunc::JsonbTypeof => (check_jsonb_variant(a) || check_variant(a, 21)),
            UnaryFunc::JsonbStripNulls => true,
            UnaryFunc::JsonbPretty => check_jsonb(a),
            UnaryFunc::TrimWhitespace => check_variant(a, 13),
            UnaryFunc::TrimLeadingWhitespace => check_variant(a, 13),
            UnaryFunc::TrimTrailingWhitespace => check_variant(a, 13),
            UnaryFunc::ListLength => check_variant(a, 15) && check_counted_list(a),
            UnaryFunc::Upper => check_variant(a, 13),
            UnaryFunc::Lower => check_variant(a, 13),
            UnaryFunc::Log10Numeric => check_numeric(a),
            UnaryFunc::LnNumeric => check_numeric(a),
            UnaryFunc::ExpNumeric => check_numeric(a),
            UnaryFunc::SqrtFloat64 => check_variant(a, 6),
            UnaryFunc::CbrtFloat64 => check_variant(a, 6),
            UnaryFunc::Cos => check_variant(a, 6),
            UnaryFunc::Cosh => check_variant(a, 6),
            UnaryFunc::Sin => check_variant(a, 6),
            UnaryFunc::Sinh => check_variant(a, 6),
            UnaryFunc::Tan => check_variant(a, 6),
            UnaryFunc::Tanh => check_variant(a, 6),
            UnaryFunc::Cot => check_variant(a, 6),
            UnaryFunc::Log10 => check_variant(a, 6),
            UnaryFunc::Ln => check_variant(a, 6),
            UnaryFunc::Exp => check_variant(a, 6),
            UnaryFunc::CeilFloat32 => check_variant(a, 5),
            UnaryFunc::CeilFloat64 => check_variant(a, 6),
            UnaryFunc::FloorFloat32 => check_variant(a, 5),
            UnaryFunc::FloorFloat64 => check_variant(a, 6),
            UnaryFunc::RoundFloat32 => check_variant(a, 5),
            UnaryFunc::RoundFloat64 => check_variant(a, 6),
            UnaryFunc::RoundNumeric => check_numeric(a),
            UnaryFunc::CastInt32ToOid => check_variant(a, 3),
            UnaryFunc::CastInt32ToRegProc => check_variant(a, 3),
            UnaryFunc::CastOidToInt32 => check_variant(a, 3),
            UnaryFunc::CastOidToRegProc => check_variant(a, 3),
            UnaryFunc::CastRegProcToOid => check_variant(a, 3),
            UnaryFunc::CastCharToString => check_variant(a, 13),
            UnaryFunc::CastVarCharToString => check_variant(a, 13),
            UnaryFunc::CastInPlace { .. } => true,
            UnaryFunc::CastInt16ToNumeric(_) => check_variant(a, 2),
            UnaryFunc::CastInt32ToNumeric(_) => check_variant(a, 3),
            UnaryFunc::CastInt64ToNumeric(_) => check_variant(a, 4),
            UnaryFunc::CastStringToNumeric(_) => check_variant(a, 13),
            UnaryFunc::CastFloat32ToNumeric(_) => check_variant(a, 5),
            UnaryFunc::CastFloat64ToNumeric(_) => check_variant(a, 6),
            UnaryFunc::CastJsonbToNumeric(_) => check_jsonb_variant(a),
            UnaryFunc::CastStringToChar { .. } => check_variant(a, 13),
            UnaryFunc::PadChar { .. } => check_variant(a, 13),
            UnaryFunc::CastStringToVarChar { .. } => check_variant(a, 13),
            UnaryFunc::BitLengthBytes => (check_variant(a, 13) || check_variant(a, 12)),
            UnaryFunc::BitLengthString => (check_variant(a, 13) || check_variant(a, 12)),
            UnaryFunc::ByteLengthBytes => (check_variant(a, 13) || check_variant(a, 12)),
            UnaryFunc::ByteLengthString => (check_variant(a, 13) || check_variant(a, 12)),
            UnaryFunc::IsRegexpMatch(_) => check_variant(a, 13),
            UnaryFunc::RegexpMatch(_) => check_variant(a, 13),
            UnaryFunc::RecordGet(i) => check_variant(a, 15) && check_field(a, *i),
            UnaryFunc::RescaleNumeric(_) => check_numeric(a),
            UnaryFunc::DatePartInterval(_) => check_interval(a),
            UnaryFunc::DatePartTimestamp(_) => check_timestamp(a),
            UnaryFunc::DatePartTimestampTz(_) => check_timestamptz(a),
            UnaryFunc::DateTruncTimestamp(_) => check_timestamp(a),
            UnaryFunc::DateTruncTimestampTz(_) => check_timestamptz(a),
            UnaryFunc::TimezoneTimestamp(tz) => check_zone(*tz) && check_timestamp(a),
            UnaryFunc::TimezoneTimestampTz(tz) => check_zone(*tz) && check_timestamptz(a),
            UnaryFunc::TimezoneTime { tz, .. } => check_zone(*tz) && check_time(a),
            UnaryFunc::Sleep => true,
            UnaryFunc::PgColumnSize => true,
            UnaryFunc::MzRowSize => true,
            UnaryFunc::CastRecordToString { .. } => true,
            UnaryFunc::CastArrayToString { .. } => true,
            UnaryFunc::CastListToString { .. } => true,
            UnaryFunc::CastMapToString { .. } => true,
            UnaryFunc::CastStringToArray { .. } => false,
            UnaryFunc::CastStringToList { .. } => false,
            UnaryFunc::CastStringToMap { .. } => false,
            UnaryFunc::CastList1ToList2 { .. } => false,
        }
    }

    /// The function on a datum. A null operand of a function that lets
    /// nulls through gives null before anything else is looked at. The
    /// function that waits returns null at once: the waiting is the
    /// caller's.
    pub fn apply<F: FloatUnit>(&self, a: &Datum, fu: &F) -> (r: Result<Datum, EvalError>)
        ensures
            self.propagates_nulls() && a@ is Null ==> res_view(r) == Ok::<DatumV, EvalErrorV>(DatumV::Null),
            !(self.propagates_nulls() && a@ is Null) && !self.accepts(a@) ==> res_view(r) == Err::<
                DatumV,
                EvalErrorV,
            >(wrong_shape()),
            self.exact_on(a@) && !self.casts_elements() ==> res_view(r) == self.apply_spec(a@),
    {
        reveal(UnaryFunc::apply_spec);
        if self.propagates_nulls() && a.is_null() {
            return Ok(Datum::Null);
        }
        if !self.check(a) {
            return Err(shape_error());
        }
        match self {
            UnaryFunc::Not => Ok(not(a)),
            UnaryFunc::IsNull => Ok(is_null(a)),
            UnaryFunc::IsTrue => Ok(is_true(a)),
            UnaryFunc::IsFalse => Ok(is_false(a)),
            UnaryFunc::BitNotInt16 => Ok(bit_not_int16(a)),
            UnaryFunc::BitNotInt32 => Ok(bit_not_int32(a)),
            UnaryFunc::BitNotInt64 => Ok(bit_not_int64(a)),
            UnaryFunc::NegInt16 => neg_int16(a),
            UnaryFunc::NegInt32 => neg_int32(a),
            UnaryFunc::NegInt64 => neg_int64(a),
            UnaryFunc::NegFloat32 => Ok(neg_float32(a)),
            UnaryFunc::NegFloat64 => Ok(neg_float64(a)),
            UnaryFunc::NegNumeric => neg_numeric(a),
            UnaryFunc::NegInterval => neg_interval(a),
            UnaryFunc::SqrtNumeric => sqrt_numeric(a),
            UnaryFunc::AbsInt16 => abs_int16(a),
            UnaryFunc::AbsInt32 => abs_int32(a),
            UnaryFunc::AbsInt64 => abs_int64(a),
            UnaryFunc::AbsFloat32 => Ok(abs_float32(a)),
            UnaryFunc::AbsFloat64 => Ok(abs_float64(a)),
            UnaryFunc::AbsNumeric => Ok(abs_numeric(a)),
            UnaryFunc::CastBoolToString => Ok(cast_bool_to_string(a)),
            UnaryFunc::CastBoolToStringNonstandard => Ok(cast_bool_to_string_nonstandard(a)),
            UnaryFunc::CastBoolToInt32 => Ok(cast_bool_to_int32(a)),
            UnaryFunc::CastInt16ToFloat32 => Ok(cast_int16_to_float32(a, fu)),
            UnaryFunc::CastInt16ToFloat64 => Ok(cast_int16_to_float64(a, fu)),
            UnaryFunc::CastInt16ToInt32 => Ok(cast_int16_to_int32(a)),
            UnaryFunc::CastInt16ToInt64 => Ok(cast_int16_to_int64(a)),
            UnaryFunc::CastInt16ToString => Ok(cast_int16_to_string(a)),
            UnaryFunc::CastInt32ToBool => Ok(cast_int32_to_bool(a)),
            UnaryFunc::CastInt32ToFloat32 => Ok(cast_int32_to_float32(a, fu)),
            UnaryFunc::CastInt32ToFloat64 => Ok(cast_int32_to_float64(a, fu)),
            UnaryFunc::CastInt32ToInt16 => cast_int32_to_int16(a),
            UnaryFunc::CastInt32ToInt64 => Ok(cast_int32_to_int64(a)),
            UnaryFunc::CastInt32ToString => Ok(cast_int32_to_string(a)),
            UnaryFunc::CastInt64ToInt16 => cast_int64_to_int16(a),
            UnaryFunc::CastInt64ToInt32 => cast_int64_to_int32(a),
            UnaryFunc::CastInt64ToBool => Ok(cast_int64_to_bool(a)),
            UnaryFunc::CastInt64ToFloat32 => Ok(cast_int64_to_float32(a, fu)),
            UnaryFunc::CastInt64ToFloat64 => Ok(cast_int64_to_float64(a, fu)),
            UnaryFunc::CastInt64ToString => Ok(cast_int64_to_string(a)),
            UnaryFunc::CastFloat32ToInt16 => cast_float32_to_int16(a),
            UnaryFunc::CastFloat32ToInt32 => cast_float32_to_int32(a),
            UnaryFunc::CastFloat32ToInt64 => cast_float32_to_int64(a),
            UnaryFunc::CastFloat32ToFloat64 => Ok(cast_float32_to_float64(a, fu)),
            UnaryFunc::CastFloat32ToString => Ok(cast_float32_to_string(a, fu)),
            UnaryFunc::CastFloat64ToInt16 => cast_float64_to_int16(a),
            UnaryFunc::CastFloat64ToInt32 => cast_float64_to_int32(a),
            UnaryFunc::CastFloat64ToInt64 => cast_float64_to_int64(a),
            UnaryFunc::CastFloat64ToFloat32 => cast_float64_to_float32(a, fu),
            UnaryFunc::CastFloat64ToString => Ok(cast_float64_to_string(a, fu)),
            UnaryFunc::CastNumericToFloat32 => cast_numeric_to_float32(a, fu),
            UnaryFunc::CastNumericToFloat64 => cast_numeric_to_float64(a, fu),
            UnaryFunc::CastNumericToInt16 => cast_numeric_to_int16(a),
            UnaryFunc::CastNumericToInt32 => cast_numeric_to_int32(a),
            UnaryFunc::CastNumericToInt64 => cast_numeric_to_int64(a),
            UnaryFunc::CastNumericToString => Ok(cast_numeric_to_string(a)),
            UnaryFunc::CastStringToBool => cast_string_to_bool(a),
            UnaryFunc::CastStringToBytes => cast_string_to_bytes(a),
            UnaryFunc::CastStringToInt16 => cast_string_to_int16(a),
            UnaryFunc::CastStringToInt32 => cast_string_to_int32(a),
            UnaryFunc::CastStringToInt64 => cast_string_to_int64(a),
            UnaryFunc::CastStringToFloat32 => cast_string_to_float32(a, fu),
            UnaryFunc::CastStringToFloat64 => cast_string_to_float64(a, fu),
            UnaryFunc::CastStringToDate => cast_string_to_date(a),
            UnaryFunc::CastStringToTime => cast_string_to_time(a),
            UnaryFunc::CastStringToTimestamp => cast_string_to_timestamp(a),
            UnaryFunc::CastStringToTimestampTz => cast_string_to_timestamptz(a),
            UnaryFunc::CastStringToInterval => cast_string_to_interval(a),
            UnaryFunc::CastStringToUuid => cast_string_to_uuid(a),
            UnaryFunc::CastDateToTimestamp => Ok(cast_date_to_timestamp(a)),
            UnaryFunc::CastDateToTimestampTz => Ok(cast_date_to_timestamptz(a)),
            UnaryFunc::CastDateToString => Ok(cast_date_to_string(a)),
            UnaryFunc::CastTimeToInterval => cast_time_to_interval(a),
            UnaryFunc::CastTimeToString => Ok(cast_time_to_string(a)),
            UnaryFunc::CastTimestampToDate => Ok(cast_timestamp_to_date(a)),
            UnaryFunc::CastTimestampToTimestampTz => Ok(cast_timestamp_to_timestamptz(a)),
            UnaryFunc::CastTimestampToString => Ok(cast_timestamp_to_string(a)),
            UnaryFunc::CastTimestampTzToDate => Ok(cast_timestamptz_to_date(a)),
            UnaryFunc::CastTimestampTzToTimestamp => Ok(cast_timestamptz_to_timestamp(a)),
            UnaryFunc::CastTimestampTzToString => Ok(cast_timestamptz_to_string(a)),
            UnaryFunc::CastIntervalToString => Ok(cast_interval_to_string(a)),
            UnaryFunc::CastIntervalToTime => Ok(cast_interval_to_time(a)),
            UnaryFunc::CastBytesToString => Ok(cast_bytes_to_string(a)),
            UnaryFunc::CastStringToJsonb => cast_string_to_jsonb(a),
            UnaryFunc::CastJsonbToString => Ok(cast_jsonb_to_string(a, fu)),
            UnaryFunc::CastJsonbOrNullToJsonb => Ok(cast_jsonb_or_null_to_jsonb(a)),
            UnaryFunc::CastJsonbToInt16 => cast_jsonb_to_int16(a),
            UnaryFunc::CastJsonbToInt32 => cast_jsonb_to_int32(a),
            UnaryFunc::CastJsonbToInt64 => cast_jsonb_to_int64(a),
            UnaryFunc::CastJsonbToFloat32 => cast_jsonb_to_float32(a, fu),
            UnaryFunc::CastJsonbToFloat64 => cast_jsonb_to_float64(a, fu),
            UnaryFunc::CastJsonbToBool => cast_jsonb_to_bool(a),
            UnaryFunc::CastUuidToString => Ok(cast_uuid_to_string(a)),
            UnaryFunc::CeilNumeric => ceil_numeric(a),
            UnaryFunc::FloorNumeric => floor_numeric(a),
            UnaryFunc::Ascii => Ok(ascii(a)),
            UnaryFunc::CharLength => char_length(a),
            UnaryFunc::ToTimestamp => Ok(to_timestamp(a, fu)),
            UnaryFunc::JsonbArrayLength => Ok(jsonb_array_length(a)),
            UnaryFunc::JsonbTypeof => Ok(jsonb_typeof(a)),
            UnaryFunc::JsonbStripNulls => Ok(jsonb_strip_nulls(a)),
            UnaryFunc::JsonbPretty => Ok(jsonb_pretty(a, fu)),
            UnaryFunc::TrimWhitespace => Ok(trim_whitespace(a)),
            UnaryFunc::TrimLeadingWhitespace => Ok(trim_leading_whitespace(a)),
            UnaryFunc::TrimTrailingWhitespace => Ok(trim_trailing_whitespace(a)),
            UnaryFunc::ListLength => Ok(list_length(a)),
            UnaryFunc::Upper => Ok(upper(a)),
            UnaryFunc::Lower => Ok(lower(a)),
            UnaryFunc::Log10Numeric => log10_numeric(a),
            UnaryFunc::LnNumeric => ln_numeric(a),
            UnaryFunc::ExpNumeric => exp_numeric(a),
            UnaryFunc::SqrtFloat64 => float64_function(a, FloatFn::Sqrt, fu),
            UnaryFunc::CbrtFloat64 => float64_function(a, FloatFn::Cbrt, fu),
            UnaryFunc::Cos => float64_function(a, FloatFn::Cos, fu),
            UnaryFunc::Cosh => float64_function(a, FloatFn::Cosh, fu),
            UnaryFunc::Sin => float64_function(a, FloatFn::Sin, fu),
            UnaryFunc::Sinh => float64_function(a, FloatFn::Sinh, fu),
            UnaryFunc::Tan => float64_function(a, FloatFn::Tan, fu),
            UnaryFunc::Tanh => float64_function(a, FloatFn::Tanh, fu),
            UnaryFunc::Cot => float64_function(a, FloatFn::Cot, fu),
            UnaryFunc::Log10 => float64_function(a, FloatFn::Log10, fu),
            UnaryFunc::Ln => float64_function(a, FloatFn::Ln, fu),
            UnaryFunc::Exp => float64_function(a, FloatFn::Exp, fu),
            UnaryFunc::CeilFloat32 => Ok(round_float32(a, FloatFn::Ceil, fu)),
            UnaryFunc::CeilFloat64 => Ok(round_float64(a, FloatFn::Ceil, fu)),
            UnaryFunc::FloorFloat32 => Ok(round_float32(a, FloatFn::Floor, fu)),
            UnaryFunc::FloorFloat64 => Ok(round_float64(a, FloatFn::Floor, fu)),
            UnaryFunc::RoundFloat32 => Ok(round_float32(a, FloatFn::Round, fu)),
            UnaryFunc::RoundFloat64 => Ok(round_float64(a, FloatFn::Round, fu)),
            UnaryFunc::RoundNumeric => Ok(round_numeric_unary(a)),
            UnaryFunc::CastInt32ToOid => Ok(a.clone()),
            UnaryFunc::CastInt32ToRegProc => Ok(a.clone()),
            UnaryFunc::CastOidToInt32 => Ok(a.clone()),
            UnaryFunc::CastOidToRegProc => Ok(a.clone()),
            UnaryFunc::CastRegProcToOid => Ok(a.clone()),
            UnaryFunc::CastCharToString => Ok(a.clone()),
            UnaryFunc::CastVarCharToString => Ok(a.clone()),
            UnaryFunc::CastInPlace { .. } => Ok(a.clone()),
            UnaryFunc::CastInt16ToNumeric(scale) => cast_int16_to_numeric(a, *scale),
            UnaryFunc::CastInt32ToNumeric(scale) => cast_int32_to_numeric(a, *scale),
            UnaryFunc::CastInt64ToNumeric(scale) => cast_int64_to_numeric(a, *scale),
            UnaryFunc::CastStringToNumeric(scale) => cast_string_to_numeric(a, *scale),
            UnaryFunc::CastFloat32ToNumeric(scale) => cast_float32_to_numeric(a, *scale, fu),
            UnaryFunc::CastFloat64ToNumeric(scale) => cast_float64_to_numeric(a, *scale, fu),
            UnaryFunc::CastJsonbToNumeric(scale) => cast_jsonb_to_numeric(a, *scale, fu),
            UnaryFunc::CastStringToChar { length, fail_on_len } => cast_str_to_char(a, *length, *fail_on_len),
            UnaryFunc::PadChar { length } => pad_char(a, *length),
            UnaryFunc::CastStringToVarChar { length, fail_on_len } => {
                cast_string_to_varchar(a, *length, *fail_on_len)
            },
            UnaryFunc::BitLengthBytes => bit_length(a),
            UnaryFunc::BitLengthString => bit_length(a),
            UnaryFunc::ByteLengthBytes => byte_length(a),
            UnaryFunc::ByteLengthString => byte_length(a),
            UnaryFunc::IsRegexpMatch(regex) => Ok(is_regexp_match_static(a, regex)),
            UnaryFunc::RegexpMatch(regex) => regexp_match_static(a, regex),
            UnaryFunc::RecordGet(i) => Ok(record_get(a, *i)),
            UnaryFunc::RescaleNumeric(scale) => rescale_numeric(a, *scale),
            UnaryFunc::DatePartInterval(units) => date_part_interval_inner(*units, a.unwrap_interval(), fu),
            UnaryFunc::DatePartTimestamp(units) => date_part_timestamp_inner(*units, a.unwrap_timestamp(), fu),
            UnaryFunc::DatePartTimestampTz(units) => date_part_timestamp_inner(*units, a.unwrap_timestamptz(), fu),
            UnaryFunc::DateTruncTimestamp(units) => stamp(date_trunc_inner(*units, a.unwrap_timestamp()), false),
            UnaryFunc::DateTruncTimestampTz(units) => stamp(date_trunc_inner(*units, a.unwrap_timestamptz()), true),
            UnaryFunc::TimezoneTimestamp(tz) => timezone_timestamp(*tz, a.unwrap_timestamp()),
            UnaryFunc::TimezoneTimestampTz(tz) => timezone_timestamptz(*tz, a.unwrap_timestamptz()),
            UnaryFunc::TimezoneTime { tz, .. } => Ok(timezone_time(*tz, a.unwrap_time())),
            UnaryFunc::Sleep => Ok(Datum::Null),
            UnaryFunc::PgColumnSize => Err(size_error()),
            UnaryFunc::MzRowSize => Err(size_error()),
            UnaryFunc::CastRecordToString { ty } => cast_collection_to_string(a, ty, fu),
            UnaryFunc::CastArrayToString { ty } => cast_collection_to_string(a, ty, fu),
            UnaryFunc::CastListToString { ty } => cast_collection_to_string(a, ty, fu),
            UnaryFunc::CastMapToString { ty } => cast_collection_to_string(a, ty, fu),
            UnaryFunc::CastStringToArray { .. } => Err(shape_error()),
            UnaryFunc::CastStringToList { .. } => Err(shape_error()),
            UnaryFunc::CastStringToMap { .. } => Err(shape_error()),
            UnaryFunc::CastList1ToList2 { .. } => Err(shape_error()),
        }
    }
}

} // verus!
