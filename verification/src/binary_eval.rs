//! The functions of two operands on datums.

use vstd::prelude::*;
use crate::binary::BinaryFunc;
use crate::datetime::civil;
use crate::datum::{ArrayDimension, Datum, DatumV, Interval, Timestamp, res_view};
use crate::error::{EvalError, EvalErrorV};
use crate::float::FloatUnit;
use crate::func_datetime::{
    add_date_interval, add_date_time, add_interval, add_interval_spec, add_time_interval, add_timestamp_interval,
    add_timestamptz_interval, date_part_interval, date_part_timestamp, date_trunc, date_trunc_spec, div_interval,
    duration_or_error, interval_minus, interval_or_error, is_date, is_interval, is_time, is_timestamp,
    is_timestamptz, mul_interval, start_of, sub_date, sub_date_interval, sub_interval, sub_interval_spec, sub_time,
    sub_time_interval, sub_timestamp, sub_timestamp_interval, sub_timestamptz, sub_timestamptz_interval, time_plus,
    timestamp_or_error, timestamptz_or_error, timezone_interval_time, timezone_interval_timestamp,
    timezone_interval_timestamptz, timezone_time, timezone_timestamp, timezone_timestamptz, units_of_name,
    unknown_units, zone_interval_error,
};
use crate::func_digest::{
    convert_from, convert_from_spec, digest_bytes, digest_spec, digest_string, encoded_bytes_char_length,
    encoded_bytes_char_length_spec,
};
use crate::func_encoding::{decode, decode_spec, encode, encode_spec};
use crate::func_float::{
    add_float32, add_float64, div_float32, div_float64, mod_float32, mod_float64, mul_float32, mul_float64, power,
    sub_float32, sub_float64,
};
use crate::func_int::{
    add_int16, add_int16_spec, add_int32, add_int32_spec, add_int64, add_int64_spec, bit_and_int16, bit_and_int32,
    bit_and_int64, bit_or_int16, bit_or_int32, bit_or_int64, bit_shift_left_int16, bit_shift_left_int32,
    bit_shift_left_int64, bit_shift_right_int16, bit_shift_right_int32, bit_shift_right_int64, bit_xor_int16,
    bit_xor_int32, bit_xor_int64, div_int16, div_int16_spec, div_int32, div_int32_spec, div_int64, div_int64_spec,
    eq, gt, gte, lt, lte, mod_int16, mod_int16_spec, mod_int32, mod_int32_spec, mod_int64, mod_int64_spec, mul_int16,
    mul_int16_spec, mul_int32, mul_int32_spec, mul_int64, mul_int64_spec, not_eq, sub_int16, sub_int16_spec,
    sub_int32, sub_int32_spec, sub_int64, sub_int64_spec,
};
use crate::func_jsonb::{
    contains_spec, each_text, each_text_or_null, follow_path, has_pair, is_key_of, jsonb_concat, jsonb_concat_spec,
    jsonb_contains_jsonb, jsonb_contains_string, jsonb_contains_string_spec, jsonb_delete_int64,
    jsonb_delete_int64_spec, jsonb_delete_string, jsonb_delete_string_spec, jsonb_get_int64, jsonb_get_int64_spec,
    jsonb_get_path, jsonb_get_string, jsonb_get_string_spec, map_contains_all_keys, map_contains_any_keys,
    map_contains_key, map_contains_map, map_get_value, map_get_values, maybe_stringify,
};
use crate::func_list::{
    array_contains, array_index, array_length, array_lower, array_upper, dimension_length, element_list_concat,
    invalid_dimension, lengths_fit, list_element_concat, list_index, list_length_max, list_list_concat,
    list_list_concat_spec, max_len_on_dim, nth_from_one, occurs_in,
};
use crate::func_numeric::{
    add_numeric, add_numeric_spec, check_numeric, checked_outcome, div_numeric, div_numeric_spec, is_numeric,
    log_base_numeric, log_base_numeric_spec, mod_numeric, mod_numeric_spec, mul_numeric, power_numeric,
    power_numeric_spec, round_numeric_binary, round_numeric_binary_spec, sub_numeric, sub_numeric_spec,
};
use crate::func_parse::{parse_timezone, timezone_in};
use crate::func_regex::{build_regex_spec, is_like_pattern_match_dynamic, is_like_spec, is_regexp_match_dynamic};
use crate::func_string::{
    left, left_spec, length_datum, position, repeat_string, right, right_spec, text_concat_binary, trim,
    trim_leading, trim_trailing,
};
use crate::func_stringify::{mz_render_typemod, typemod_text};
use crate::func_to_char::{rendered, to_char_timestamp, to_char_timestamptz};
use crate::jsonb::{check_jsonb, has_double, is_jsonb};
use crate::numeric::{NUMERIC_MAX_EXPONENT, NUMERIC_MIN_EXPONENT, dec_mul_result};
use crate::order::{Order, datum_order, float32_is_nan, float32_key, float64_is_nan, float64_key};
use crate::pairs::lookup;
use crate::pattern::regex_captures;
use crate::shape::{
    check_bool, check_date, check_interval, check_measured_array, check_text_array, check_time, check_timestamp,
    check_timestamptz, check_variant, shape_error, wrong_shape,
};
use crate::strings::{repeated, trimmed};
use crate::text::{first_match, trimmed_end_of, trimmed_of, trimmed_start_of};

verus! {

/// The conjunction of two truth values of which either may be unknown:
/// false where one is false, else unknown where one is unknown.
pub open spec fn and_spec(a: DatumV, b: DatumV) -> DatumV {
    if a is False || b is False {
        DatumV::False
    } else if a is Null || b is Null {
        DatumV::Null
    } else {
        DatumV::True
    }
}

/// The disjunction of two truth values of which either may be unknown:
/// true where one is true, else unknown where one is unknown.
pub open spec fn or_spec(a: DatumV, b: DatumV) -> DatumV {
    if a is True || b is True {
        DatumV::True
    } else if a is Null || b is Null {
        DatumV::Null
    } else {
        DatumV::False
    }
}

/// The conjunction of two datums.
pub fn and_datums(a: &Datum, b: &Datum) -> (r: Datum)
    ensures
        r@ == and_spec(a@, b@),
{
    match (a, b) {
        (Datum::False, _) | (_, Datum::False) => Datum::False,
        (Datum::Null, _) | (_, Datum::Null) => Datum::Null,
        _ => Datum::True,
    }
}

/// The disjunction of two datums.
pub fn or_datums(a: &Datum, b: &Datum) -> (r: Datum)
    ensures
        r@ == or_spec(a@, b@),
{
    match (a, b) {
        (Datum::True, _) | (_, Datum::True) => Datum::True,
        (Datum::Null, _) | (_, Datum::Null) => Datum::Null,
        _ => Datum::False,
    }
}

/// A timestamp truncated to the unit that a text names, as a datum with or
/// without time zone.
pub open spec fn truncated_to(units: Seq<char>, ts: Timestamp, tz: bool) -> Result<DatumV, EvalErrorV> {
    match units_of_name(units) {
        None => Err(unknown_units(units)),
        Some(u) => stamped(date_trunc_spec(u, ts), tz),
    }
}

/// A timestamp, if there is one, as a datum with or without time zone.
pub open spec fn stamped(r: Result<Timestamp, EvalErrorV>, tz: bool) -> Result<DatumV, EvalErrorV> {
    match r {
        Ok(t) => Ok(
            if tz {
                DatumV::TimestampTz(t)
            } else {
                DatumV::Timestamp(t)
            },
        ),
        Err(e) => Err(e),
    }
}

/// A timestamp, if there is one, as a datum with or without time zone.
pub fn stamp(r: Result<Timestamp, EvalError>, tz: bool) -> (out: Result<Datum, EvalError>)
    ensures
        res_view(out) == stamped(
            match r {
                Ok(t) => Ok(t),
                Err(e) => Err(e@),
            },
            tz,
        ),
{
    match r {
        Ok(t) => Ok(
            if tz {
                Datum::TimestampTz(t)
            } else {
                Datum::Timestamp(t)
            },
        ),
        Err(e) => Err(e),
    }
}

/// A time of day, a timestamp or a timestamp with time zone in the zone
/// that a text names: a time of day and a timestamp with time zone are
/// moved from UTC into the zone, a timestamp from the zone to UTC.
pub open spec fn in_zone_of(name: Seq<char>, b: DatumV) -> Result<DatumV, EvalErrorV> {
    match timezone_in(trimmed(name)) {
        None => Err(EvalErrorV::InvalidTimezone(name)),
        Some(tz) => match b {
            DatumV::Time(t) => Ok(DatumV::Time(time_plus(t, tz.offset_secs as int * 1_000_000_000))),
            DatumV::Timestamp(t) => timestamptz_or_error(t.plus_nanos(-(tz.offset_secs as int * 1_000_000_000))),
            DatumV::TimestampTz(t) => timestamp_or_error(t.plus_nanos(tz.offset_secs as int * 1_000_000_000)),
            _ => Err(wrong_shape()),
        },
    }
}

/// A time of day, a timestamp or a timestamp with time zone in the zone
/// that a text names. The wall time at which a time of day is asked for
/// has no part in it, since the zones known here keep their distance from
/// UTC.
pub fn in_named_zone(a: &Datum, b: &Datum, wall_time: Option<Timestamp>) -> (r: Result<Datum, EvalError>)
    requires
        a@ is String,
        is_time(b@) || is_timestamp(b@) || is_timestamptz(b@),
    ensures
        res_view(r) == in_zone_of(a@->String_0, b@),
{
    match parse_timezone(a.unwrap_str()) {
        Ok(tz) => match b {
            Datum::Time(t) => Ok(timezone_time(tz, *t)),
            Datum::Timestamp(t) => timezone_timestamp(tz, *t),
            Datum::TimestampTz(t) => timezone_timestamptz(tz, *t),
            _ => Err(shape_error()),
        },
        Err(e) => Err(e),
    }
}

impl BinaryFunc {
    /// Whether the function is defined on two datums, neither of which is
    /// a null that the function lets through.
    pub open spec fn accepts(self, a: DatumV, b: DatumV) -> bool {
        match self {
            BinaryFunc::And => (a.is_bool() || a is Null) && (b.is_bool() || b is Null),
            BinaryFunc::Or => (a.is_bool() || a is Null) && (b.is_bool() || b is Null),
            BinaryFunc::AddInt16 => a is Int16 && b is Int16,
            BinaryFunc::AddInt32 => a is Int32 && b is Int32,
            BinaryFunc::AddInt64 => a is Int64 && b is Int64,
            BinaryFunc::AddFloat32 => a is Float32 && b is Float32,
            BinaryFunc::AddFloat64 => a is Float64 && b is Float64,
            BinaryFunc::AddInterval => is_interval(a) && is_interval(b),
            BinaryFunc::AddTimestampInterval => is_timestamp(a) && is_interval(b),
            BinaryFunc::AddTimestampTzInterval => is_timestamptz(a) && is_interval(b),
            BinaryFunc::AddDateInterval => is_date(a) && is_interval(b),
            BinaryFunc::AddDateTime => is_date(a) && is_time(b),
            BinaryFunc::AddTimeInterval => is_time(a) && is_interval(b),
            BinaryFunc::AddNumeric => is_numeric(a) && is_numeric(b),
            BinaryFunc::BitAndInt16 => a is Int16 && b is Int16,
            BinaryFunc::BitAndInt32 => a is Int32 && b is Int32,
            BinaryFunc::BitAndInt64 => a is Int64 && b is Int64,
            BinaryFunc::BitOrInt16 => a is Int16 && b is Int16,
            BinaryFunc::BitOrInt32 => a is Int32 && b is Int32,
            BinaryFunc::BitOrInt64 => a is Int64 && b is Int64,
            BinaryFunc::BitXorInt16 => a is Int16 && b is Int16,
            BinaryFunc::BitXorInt32 => a is Int32 && b is Int32,
            BinaryFunc::BitXorInt64 => a is Int64 && b is Int64,
            BinaryFunc::BitShiftLeftInt16 => a is Int16 && b is Int32,
            BinaryFunc::BitShiftLeftInt32 => a is Int32 && b is Int32,
            BinaryFunc::BitShiftLeftInt64 => a is Int64 && b is Int32,
            BinaryFunc::BitShiftRightInt16 => a is Int16 && b is Int32,
            BinaryFunc::BitShiftRightInt32 => a is Int32 && b is Int32,
            BinaryFunc::BitShiftRightInt64 => a is Int64 && b is Int32,
            BinaryFunc::SubInt16 => a is Int16 && b is Int16,
            BinaryFunc::SubInt32 => a is Int32 && b is Int32,
            BinaryFunc::SubInt64 => a is Int64 && b is Int64,
            BinaryFunc::SubFloat32 => a is Float32 && b is Float32,
            BinaryFunc::SubFloat64 => a is Float64 && b is Float64,
            BinaryFunc::SubInterval => is_interval(a) && is_interval(b),
            BinaryFunc::SubTimestamp => is_timestamp(a) && is_timestamp(b),
            BinaryFunc::SubTimestampTz => is_timestamptz(a) && is_timestamptz(b),
            BinaryFunc::SubTimestampInterval => is_timestamp(a) && is_interval(b),
            BinaryFunc::SubTimestampTzInterval => is_timestamptz(a) && is_interval(b),
            BinaryFunc::SubDate => is_date(a) && is_date(b),
            BinaryFunc::SubDateInterval => is_date(a) && is_interval(b),
            BinaryFunc::SubTime => is_time(a) && is_time(b),
            BinaryFunc::SubTimeInterval => is_time(a) && is_interval(b),
            BinaryFunc::SubNumeric => is_numeric(a) && is_numeric(b),
            BinaryFunc::MulInt16 => a is Int16 && b is Int16,
            BinaryFunc::MulInt32 => a is Int32 && b is Int32,
            BinaryFunc::MulInt64 => a is Int64 && b is Int64,
            BinaryFunc::MulFloat32 => a is Float32 && b is Float32,
            BinaryFunc::MulFloat64 => a is Float64 && b is Float64,
            BinaryFunc::MulNumeric => is_numeric(a) && is_numeric(b),
            BinaryFunc::MulInterval => is_interval(a) && b is Float64,
            BinaryFunc::DivInt16 => a is Int16 && b is Int16,
            BinaryFunc::DivInt32 => a is Int32 && b is Int32,
            BinaryFunc::DivInt64 => a is Int64 && b is Int64,
            BinaryFunc::DivFloat32 => a is Float32 && b is Float32,
            BinaryFunc::DivFloat64 => a is Float64 && b is Float64,
            BinaryFunc::DivNumeric => is_numeric(a) && is_numeric(b),
            BinaryFunc::DivInterval => is_interval(a) && b is Float64,
            BinaryFunc::ModInt16 => a is Int16 && b is Int16,
            BinaryFunc::ModInt32 => a is Int32 && b is Int32,
            BinaryFunc::ModInt64 => a is Int64 && b is Int64,
            BinaryFunc::ModFloat32 => a is Float32 && b is Float32,
            BinaryFunc::ModFloat64 => a is Float64 && b is Float64,
            BinaryFunc::ModNumeric => is_numeric(a) && is_numeric(b),
            BinaryFunc::Eq => true,
            BinaryFunc::NotEq => true,
            BinaryFunc::Lt => true,
            BinaryFunc::Lte => true,
            BinaryFunc::Gt => true,
            BinaryFunc::Gte => true,
            BinaryFunc::ToCharTimestamp => is_timestamp(a) && b is String,
            BinaryFunc::ToCharTimestampTz => is_timestamptz(a) && b is String,
            BinaryFunc::TimezoneIntervalTimestamp => is_interval(a) && is_timestamp(b),
            BinaryFunc::TimezoneIntervalTimestampTz => is_interval(a) && is_timestamptz(b),
            BinaryFunc::TimezoneIntervalTime => is_interval(a) && is_time(b),
            BinaryFunc::JsonbContainsString => b is String,
            BinaryFunc::JsonbConcat => true,
            BinaryFunc::JsonbContainsJsonb => true,
            BinaryFunc::JsonbDeleteInt64 => b is Int64,
            BinaryFunc::JsonbDeleteString => b is String,
            BinaryFunc::MapContainsKey => a is Dict && b is String,
            BinaryFunc::MapGetValue => a is Dict && b is String,
            BinaryFunc::MapGetValues => a is Dict && b is Array && each_text(b->elements),
            BinaryFunc::MapContainsAllKeys => a is Dict && b is Array && each_text_or_null(b->elements),
            BinaryFunc::MapContainsAnyKeys => a is Dict && b is Array && each_text_or_null(b->elements),
            BinaryFunc::MapContainsMap => a is Dict && b is Dict,
            BinaryFunc::ConvertFrom => a is Bytes && b is String,
            BinaryFunc::Left => a is String && b is Int32,
            BinaryFunc::Position => a is String && b is String,
            BinaryFunc::Right => a is String && b is Int32,
            BinaryFunc::RepeatString => a is String && b is Int32,
            BinaryFunc::Trim => a is String && b is String,
            BinaryFunc::TrimLeading => a is String && b is String,
            BinaryFunc::TrimTrailing => a is String && b is String,
            BinaryFunc::EncodedBytesCharLength => a is Bytes && b is String,
            BinaryFunc::ListIndex => a is List && b is Int64,
            BinaryFunc::ArrayContains => b is Array,
            BinaryFunc::ArrayIndex => a is Array && b is Int64,
            BinaryFunc::ArrayLength => a is Array && b is Int64 && lengths_fit(a->dims),
            BinaryFunc::ArrayLower => a is Array && b is Int64,
            BinaryFunc::ArrayUpper => a is Array && b is Int64 && lengths_fit(a->dims),
            BinaryFunc::ListListConcat => (a is Null || a is List) && (b is Null || b is List),
            BinaryFunc::ListElementConcat => (a is Null || a is List),
            BinaryFunc::ElementListConcat => (b is Null || b is List),
            BinaryFunc::DigestString => a is String && b is String,
            BinaryFunc::DigestBytes => a is Bytes && b is String,
            BinaryFunc::MzRenderTypemod => a is Int32 && b is Int32,
            BinaryFunc::Encode => a is Bytes && b is String,
            BinaryFunc::Decode => a is String && b is String,
            BinaryFunc::Power => a is Float64 && b is Float64,
            BinaryFunc::PowerNumeric => is_numeric(a) && is_numeric(b),
            BinaryFunc::TextConcat => a is String && b is String,
            BinaryFunc::LogNumeric => is_numeric(a) && is_numeric(b),
            BinaryFunc::RoundNumeric => is_numeric(a) && b is Int32,
            BinaryFunc::IsLikePatternMatch { .. } => a is String && b is String,
            BinaryFunc::IsRegexpMatch { .. } => a is String && b is String,
            BinaryFunc::JsonbGetInt64 { .. } => is_jsonb(a) && b is Int64,
            BinaryFunc::JsonbGetString { .. } => is_jsonb(a) && b is String,
            BinaryFunc::JsonbGetPath { .. } => is_jsonb(a) && b is Array && each_text_or_null(b->elements),
            BinaryFunc::ListLengthMax { .. } => b is Int64,
            BinaryFunc::DatePartInterval => a is String && is_interval(b),
            BinaryFunc::DatePartTimestamp => a is String && is_timestamp(b),
            BinaryFunc::DatePartTimestampTz => a is String && is_timestamptz(b),
            BinaryFunc::DateTruncTimestamp => a is String && is_timestamp(b),
            BinaryFunc::DateTruncTimestampTz => a is String && is_timestamptz(b),
            BinaryFunc::TimezoneTimestamp => a is String && is_timestamp(b),
            BinaryFunc::TimezoneTimestampTz => a is String && is_timestamptz(b),
            BinaryFunc::TimezoneTime { .. } => a is String && is_time(b),
        }
    }

    /// Whether the operands alone decide the result. Where they do not, the
    /// floating-point unit of the host has a part in it.
    pub open spec fn exact(self) -> bool {
        match self {
            BinaryFunc::AddFloat32 => false,
            BinaryFunc::AddFloat64 => false,
            BinaryFunc::SubFloat32 => false,
            BinaryFunc::SubFloat64 => false,
            BinaryFunc::MulFloat32 => false,
            BinaryFunc::MulFloat64 => false,
            BinaryFunc::MulInterval => false,
            BinaryFunc::DivFloat32 => false,
            BinaryFunc::DivFloat64 => false,
            BinaryFunc::DivInterval => false,
            BinaryFunc::ModFloat32 => false,
            BinaryFunc::ModFloat64 => false,
            BinaryFunc::JsonbContainsJsonb => false,
            BinaryFunc::Power => false,
            BinaryFunc::JsonbGetInt64 { stringify } => !stringify,
            BinaryFunc::JsonbGetString { stringify } => !stringify,
            BinaryFunc::JsonbGetPath { stringify } => !stringify,
            BinaryFunc::DatePartInterval => false,
            BinaryFunc::DatePartTimestamp => false,
            BinaryFunc::DatePartTimestampTz => false,
            _ => true,
        }
    }

    /// Whether the operands decide the result: the function is exact, or it
    /// is exact on these operands, because nothing is asked of the host for
    /// them.
    pub open spec fn exact_on(self, a: DatumV, b: DatumV) -> bool {
        match self {
            BinaryFunc::DivFloat32 => float32_key(b->Float32_0) == 0 && !float32_is_nan(a->Float32_0),
            BinaryFunc::DivFloat64 => float64_key(b->Float64_0) == 0 && !float64_is_nan(a->Float64_0),
            BinaryFunc::ModFloat32 => float32_key(b->Float32_0) == 0 && !float32_is_nan(a->Float32_0),
            BinaryFunc::ModFloat64 => float64_key(b->Float64_0) == 0 && !float64_is_nan(a->Float64_0),
            BinaryFunc::JsonbContainsJsonb => !has_double(a) && !has_double(b),
            BinaryFunc::JsonbGetInt64 { stringify } => {
                !(stringify && has_double(jsonb_get_int64_spec(a, b->Int64_0 as int, false)))
            },
            BinaryFunc::JsonbGetString { stringify } => {
                !(stringify && has_double(jsonb_get_string_spec(a, b->String_0, false)))
            },
            BinaryFunc::JsonbGetPath { stringify } => !(stringify && has_double(follow_path(a, b->elements, 0))),
            _ => self.exact(),
        }
    }

    /// The result on two datums that the function accepts, where it is
    /// exact.
    pub open spec fn result_spec(self, a: DatumV, b: DatumV) -> Result<DatumV, EvalErrorV> {
        match self {
            BinaryFunc::And => Ok::<DatumV, EvalErrorV>(and_spec(a, b)),
            BinaryFunc::Or => Ok::<DatumV, EvalErrorV>(or_spec(a, b)),
            BinaryFunc::AddInt16 => add_int16_spec(a, b),
            BinaryFunc::AddInt32 => add_int32_spec(a, b),
            BinaryFunc::AddInt64 => add_int64_spec(a, b),
            BinaryFunc::AddInterval => interval_or_error(a->Interval_0.plus(b->Interval_0)),
            BinaryFunc::AddTimestampInterval => timestamp_or_error(add_interval_spec(a->Timestamp_0, b->Interval_0)),
            BinaryFunc::AddTimestampTzInterval => {
                timestamptz_or_error(add_interval_spec(a->TimestampTz_0, b->Interval_0))
            },
            BinaryFunc::AddDateInterval => timestamp_or_error(add_interval_spec(start_of(a->Date_0), b->Interval_0)),
            BinaryFunc::AddDateTime => Ok::<DatumV, EvalErrorV>(
                DatumV::Timestamp(Timestamp { date: a->Date_0, time: b->Time_0 }),
            ),
            BinaryFunc::AddTimeInterval => Ok::<DatumV, EvalErrorV>(
                DatumV::Time(time_plus(a->Time_0, b->Interval_0.duration as int)),
            ),
            BinaryFunc::AddNumeric => add_numeric_spec(a->Numeric_0, b->Numeric_0),
            BinaryFunc::BitAndInt16 => Ok::<DatumV, EvalErrorV>(DatumV::Int16(a->Int16_0 & b->Int16_0)),
            BinaryFunc::BitAndInt32 => Ok::<DatumV, EvalErrorV>(DatumV::Int32(a->Int32_0 & b->Int32_0)),
            BinaryFunc::BitAndInt64 => Ok::<DatumV, EvalErrorV>(DatumV::Int64(a->Int64_0 & b->Int64_0)),
            BinaryFunc::BitOrInt16 => Ok::<DatumV, EvalErrorV>(DatumV::Int16(a->Int16_0 | b->Int16_0)),
            BinaryFunc::BitOrInt32 => Ok::<DatumV, EvalErrorV>(DatumV::Int32(a->Int32_0 | b->Int32_0)),
            BinaryFunc::BitOrInt64 => Ok::<DatumV, EvalErrorV>(DatumV::Int64(a->Int64_0 | b->Int64_0)),
            BinaryFunc::BitXorInt16 => Ok::<DatumV, EvalErrorV>(DatumV::Int16(a->Int16_0 ^ b->Int16_0)),
            BinaryFunc::BitXorInt32 => Ok::<DatumV, EvalErrorV>(DatumV::Int32(a->Int32_0 ^ b->Int32_0)),
            BinaryFunc::BitXorInt64 => Ok::<DatumV, EvalErrorV>(DatumV::Int64(a->Int64_0 ^ b->Int64_0)),
            BinaryFunc::BitShiftLeftInt16 => Ok::<DatumV, EvalErrorV>(
                DatumV::Int16((a->Int16_0 as i32).wrapping_shl(b->Int32_0 as u32) as i16),
            ),
            BinaryFunc::BitShiftLeftInt32 => Ok::<DatumV, EvalErrorV>(
                DatumV::Int32(a->Int32_0.wrapping_shl(b->Int32_0 as u32)),
            ),
            BinaryFunc::BitShiftLeftInt64 => Ok::<DatumV, EvalErrorV>(
                DatumV::Int64(a->Int64_0.wrapping_shl(b->Int32_0 as u32)),
            ),
            BinaryFunc::BitShiftRightInt16 => Ok::<DatumV, EvalErrorV>(
                DatumV::Int16((a->Int16_0 as i32).wrapping_shr(b->Int32_0 as u32) as i16),
            ),
            BinaryFunc::BitShiftRightInt32 => Ok::<DatumV, EvalErrorV>(
                DatumV::Int32(a->Int32_0.wrapping_shr(b->Int32_0 as u32)),
            ),
            BinaryFunc::BitShiftRightInt64 => Ok::<DatumV, EvalErrorV>(
                DatumV::Int64(a->Int64_0.wrapping_shr(b->Int32_0 as u32)),
            ),
            BinaryFunc::SubInt16 => sub_int16_spec(a, b),
            BinaryFunc::SubInt32 => sub_int32_spec(a, b),
            BinaryFunc::SubInt64 => sub_int64_spec(a, b),
            BinaryFunc::SubInterval => interval_or_error(interval_minus(a->Interval_0, b->Interval_0)),
            BinaryFunc::SubTimestamp => duration_or_error(a->Timestamp_0.nanos() - b->Timestamp_0.nanos()),
            BinaryFunc::SubTimestampTz => duration_or_error(a->TimestampTz_0.nanos() - b->TimestampTz_0.nanos()),
            BinaryFunc::SubTimestampInterval => timestamp_or_error(sub_interval_spec(a->Timestamp_0, b->Interval_0)),
            BinaryFunc::SubTimestampTzInterval => {
                timestamptz_or_error(sub_interval_spec(a->TimestampTz_0, b->Interval_0))
            },
            BinaryFunc::SubDate => Ok::<DatumV, EvalErrorV>(DatumV::Int32((a->Date_0.days - b->Date_0.days) as i32)),
            BinaryFunc::SubDateInterval => timestamp_or_error(sub_interval_spec(start_of(a->Date_0), b->Interval_0)),
            BinaryFunc::SubTime => Ok::<DatumV, EvalErrorV>(
                DatumV::Interval(
                    Interval { months: 0, duration: (a->Time_0.nanos_of_day() - b->Time_0.nanos_of_day()) as i128 },
                ),
            ),
            BinaryFunc::SubTimeInterval => Ok::<DatumV, EvalErrorV>(
                DatumV::Time(time_plus(a->Time_0, -(b->Interval_0.duration as int))),
            ),
            BinaryFunc::SubNumeric => sub_numeric_spec(a->Numeric_0, b->Numeric_0),
            BinaryFunc::MulInt16 => mul_int16_spec(a, b),
            BinaryFunc::MulInt32 => mul_int32_spec(a, b),
            BinaryFunc::MulInt64 => mul_int64_spec(a, b),
            BinaryFunc::MulNumeric => checked_outcome(
                dec_mul_result(a->Numeric_0, b->Numeric_0, NUMERIC_MAX_EXPONENT, NUMERIC_MIN_EXPONENT),
            ),
            BinaryFunc::DivInt16 => div_int16_spec(a, b),
            BinaryFunc::DivInt32 => div_int32_spec(a, b),
            BinaryFunc::DivInt64 => div_int64_spec(a, b),
            BinaryFunc::DivFloat32 => Err::<DatumV, EvalErrorV>(EvalErrorV::DivisionByZero),
            BinaryFunc::DivFloat64 => Err::<DatumV, EvalErrorV>(EvalErrorV::DivisionByZero),
            BinaryFunc::DivNumeric => div_numeric_spec(a->Numeric_0, b->Numeric_0),
            BinaryFunc::ModInt16 => mod_int16_spec(a, b),
            BinaryFunc::ModInt32 => mod_int32_spec(a, b),
            BinaryFunc::ModInt64 => mod_int64_spec(a, b),
            BinaryFunc::ModFloat32 => Err::<DatumV, EvalErrorV>(EvalErrorV::DivisionByZero),
            BinaryFunc::ModFloat64 => Err::<DatumV, EvalErrorV>(EvalErrorV::DivisionByZero),
            BinaryFunc::ModNumeric => mod_numeric_spec(a->Numeric_0, b->Numeric_0),
            BinaryFunc::Eq => Ok::<DatumV, EvalErrorV>(DatumV::from_bool(datum_order(a, b) == Order::Equal)),
            BinaryFunc::NotEq => Ok::<DatumV, EvalErrorV>(DatumV::from_bool(datum_order(a, b) != Order::Equal)),
            BinaryFunc::Lt => Ok::<DatumV, EvalErrorV>(DatumV::from_bool(datum_order(a, b) == Order::Less)),
            BinaryFunc::Lte => Ok::<DatumV, EvalErrorV>(DatumV::from_bool(datum_order(a, b) != Order::Greater)),
            BinaryFunc::Gt => Ok::<DatumV, EvalErrorV>(DatumV::from_bool(datum_order(a, b) == Order::Greater)),
            BinaryFunc::Gte => Ok::<DatumV, EvalErrorV>(DatumV::from_bool(datum_order(a, b) != Order::Less)),
            BinaryFunc::ToCharTimestamp => Ok::<DatumV, EvalErrorV>(
                DatumV::String(rendered(b->String_0, 0, civil(a->Timestamp_0.date.days), a->Timestamp_0.time)),
            ),
            BinaryFunc::ToCharTimestampTz => Ok::<DatumV, EvalErrorV>(
                DatumV::String(rendered(b->String_0, 0, civil(a->TimestampTz_0.date.days), a->TimestampTz_0.time)),
            ),
            BinaryFunc::TimezoneIntervalTimestamp => if a->Interval_0.months != 0 {
                Err::<DatumV, EvalErrorV>(zone_interval_error())
            } else {
                timestamptz_or_error(b->Timestamp_0.plus_nanos(-(a->Interval_0.duration as int)))
            },
            BinaryFunc::TimezoneIntervalTimestampTz => if a->Interval_0.months != 0 {
                Err::<DatumV, EvalErrorV>(zone_interval_error())
            } else {
                timestamp_or_error(b->TimestampTz_0.plus_nanos(a->Interval_0.duration as int))
            },
            BinaryFunc::TimezoneIntervalTime => if a->Interval_0.months != 0 {
                Err::<DatumV, EvalErrorV>(zone_interval_error())
            } else {
                Ok::<DatumV, EvalErrorV>(DatumV::Time(time_plus(b->Time_0, a->Interval_0.duration as int)))
            },
            BinaryFunc::JsonbContainsString => Ok::<DatumV, EvalErrorV>(
                DatumV::from_bool(jsonb_contains_string_spec(a, b)),
            ),
            BinaryFunc::JsonbConcat => Ok::<DatumV, EvalErrorV>(jsonb_concat_spec(a, b)),
            BinaryFunc::JsonbContainsJsonb => Ok::<DatumV, EvalErrorV>(DatumV::from_bool(contains_spec(a, b, true))),
            BinaryFunc::JsonbDeleteInt64 => Ok::<DatumV, EvalErrorV>(jsonb_delete_int64_spec(a, b->Int64_0 as int)),
            BinaryFunc::JsonbDeleteString => Ok::<DatumV, EvalErrorV>(jsonb_delete_string_spec(a, b)),
            BinaryFunc::MapContainsKey => Ok::<DatumV, EvalErrorV>(
                DatumV::from_bool(lookup(a->Dict_0, b->String_0) is Some),
            ),
            BinaryFunc::MapGetValue => Ok::<DatumV, EvalErrorV>(
                match lookup(a->Dict_0, b->String_0) {
                    Some(d) => d,
                    None => DatumV::Null,
                },
            ),
            BinaryFunc::MapGetValues => Ok::<DatumV, EvalErrorV>(
                (DatumV::Array {
                    dims: seq![ArrayDimension { lower_bound: 1, length: b->elements.len() as usize }],
                    elements: Seq::new(
                        b->elements.len(),
                        |i: int|
                            match lookup(a->Dict_0, b->elements[i]->String_0) {
                                Some(d) => d,
                                None => DatumV::Null,
                            },
                    ),
                }),
            ),
            BinaryFunc::MapContainsAllKeys => Ok::<DatumV, EvalErrorV>(
                DatumV::from_bool(
                    forall|i: int| 0 <= i < b->elements.len() ==> is_key_of(a->Dict_0, #[trigger] b->elements[i]),
                ),
            ),
            BinaryFunc::MapContainsAnyKeys => Ok::<DatumV, EvalErrorV>(
                DatumV::from_bool(
                    exists|i: int| 0 <= i < b->elements.len() && is_key_of(a->Dict_0, #[trigger] b->elements[i]),
                ),
            ),
            BinaryFunc::MapContainsMap => Ok::<DatumV, EvalErrorV>(
                DatumV::from_bool(
                    forall|i: int|
                        0 <= i < b->Dict_0.len() ==> has_pair(a->Dict_0, (#[trigger] b->Dict_0[i]).0, b->Dict_0[i].1),
                ),
            ),
            BinaryFunc::ConvertFrom => convert_from_spec(a->Bytes_0, b->String_0),
            BinaryFunc::Left => Ok::<DatumV, EvalErrorV>(DatumV::String(left_spec(a->String_0, b->Int32_0 as int))),
            BinaryFunc::Position => length_datum(first_match(b->String_0, a->String_0, 0) + 1),
            BinaryFunc::Right => Ok::<DatumV, EvalErrorV>(DatumV::String(right_spec(a->String_0, b->Int32_0 as int))),
            BinaryFunc::RepeatString => Ok::<DatumV, EvalErrorV>(
                DatumV::String(
                    repeated(
                        a->String_0,
                        if b->Int32_0 > 0 {
                            b->Int32_0 as nat
                        } else {
                            0
                        },
                    ),
                ),
            ),
            BinaryFunc::Trim => Ok::<DatumV, EvalErrorV>(DatumV::String(trimmed_of(a->String_0, b->String_0))),
            BinaryFunc::TrimLeading => Ok::<DatumV, EvalErrorV>(
                DatumV::String(trimmed_start_of(a->String_0, b->String_0)),
            ),
            BinaryFunc::TrimTrailing => Ok::<DatumV, EvalErrorV>(
                DatumV::String(trimmed_end_of(a->String_0, b->String_0)),
            ),
            BinaryFunc::EncodedBytesCharLength => encoded_bytes_char_length_spec(a->Bytes_0, b->String_0),
            BinaryFunc::ListIndex => Ok::<DatumV, EvalErrorV>(nth_from_one(a->List_0, b->Int64_0 as int)),
            BinaryFunc::ArrayContains => Ok::<DatumV, EvalErrorV>(DatumV::from_bool(occurs_in(a, b->elements))),
            BinaryFunc::ArrayIndex => Ok::<DatumV, EvalErrorV>(nth_from_one(a->elements, b->Int64_0 as int)),
            BinaryFunc::ArrayLength => Ok::<DatumV, EvalErrorV>(dimension_length(a->dims, b->Int64_0 as int)),
            BinaryFunc::ArrayLower => Ok::<DatumV, EvalErrorV>(
                if 1 <= b->Int64_0 <= a->dims.len() {
                    DatumV::Int64(1)
                } else {
                    DatumV::Null
                },
            ),
            BinaryFunc::ArrayUpper => Ok::<DatumV, EvalErrorV>(dimension_length(a->dims, b->Int64_0 as int)),
            BinaryFunc::ListListConcat => Ok::<DatumV, EvalErrorV>(list_list_concat_spec(a, b)),
            BinaryFunc::ListElementConcat => Ok::<DatumV, EvalErrorV>(
                DatumV::List(
                    (if a is Null {
                        Seq::<DatumV>::empty()
                    } else {
                        a->List_0
                    }).push(b),
                ),
            ),
            BinaryFunc::ElementListConcat => Ok::<DatumV, EvalErrorV>(
                DatumV::List(
                    seq![a] + (if b is Null {
                        Seq::<DatumV>::empty()
                    } else {
                        b->List_0
                    }),
                ),
            ),
            BinaryFunc::DigestString => digest_spec(vstd::utf8::encode_utf8(a->String_0), b->String_0),
            BinaryFunc::DigestBytes => digest_spec(a->Bytes_0, b->String_0),
            BinaryFunc::MzRenderTypemod => Ok::<DatumV, EvalErrorV>(
                DatumV::String(typemod_text(a->Int32_0, b->Int32_0)),
            ),
            BinaryFunc::Encode => encode_spec(a->Bytes_0, b->String_0),
            BinaryFunc::Decode => decode_spec(a->String_0, b->String_0),
            BinaryFunc::PowerNumeric => power_numeric_spec(a->Numeric_0, b->Numeric_0),
            BinaryFunc::TextConcat => Ok::<DatumV, EvalErrorV>(DatumV::String(a->String_0 + b->String_0)),
            BinaryFunc::LogNumeric => log_base_numeric_spec(a->Numeric_0, b->Numeric_0),
            BinaryFunc::RoundNumeric => round_numeric_binary_spec(a->Numeric_0, b->Int32_0),
            BinaryFunc::IsLikePatternMatch { case_insensitive } => {
                is_like_spec(a->String_0, b->String_0, case_insensitive)
            },
            BinaryFunc::IsRegexpMatch { case_insensitive } => match build_regex_spec(
                b->String_0,
                if case_insensitive {
                    "i"@
                } else {
                    ""@
                },
            ) {
                Ok((p, ci)) => Ok::<DatumV, EvalErrorV>(
                    DatumV::from_bool(regex_captures(p, ci, a->String_0) is Some),
                ),
                Err(e) => Err::<DatumV, EvalErrorV>(e),
            },
            BinaryFunc::JsonbGetInt64 { stringify } => Ok::<DatumV, EvalErrorV>(
                jsonb_get_int64_spec(a, b->Int64_0 as int, stringify),
            ),
            BinaryFunc::JsonbGetString { stringify } => Ok::<DatumV, EvalErrorV>(
                jsonb_get_string_spec(a, b->String_0, stringify),
            ),
            BinaryFunc::JsonbGetPath { stringify } => Ok::<DatumV, EvalErrorV>(
                maybe_stringify(follow_path(a, b->elements, 0), stringify),
            ),
            BinaryFunc::ListLengthMax { max_dim } => if b->Int64_0 < 1 || b->Int64_0 > max_dim {
                Err::<DatumV, EvalErrorV>(invalid_dimension(max_dim, b->Int64_0))
            } else {
                Ok::<DatumV, EvalErrorV>(
                    match max_len_on_dim(a, b->Int64_0 as int) {
                        Some(n) => DatumV::Int64(n as usize as i64),
                        None => DatumV::Null,
                    },
                )
            },
            BinaryFunc::DateTruncTimestamp => truncated_to(a->String_0, b->Timestamp_0, false),
            BinaryFunc::DateTruncTimestampTz => truncated_to(a->String_0, b->TimestampTz_0, true),
            BinaryFunc::TimezoneTimestamp => in_zone_of(a->String_0, b),
            BinaryFunc::TimezoneTimestampTz => in_zone_of(a->String_0, b),
            BinaryFunc::TimezoneTime { .. } => in_zone_of(a->String_0, b),
            _ => arbitrary(),
        }
    }

    /// The result on two datums: null where the function lets nulls through
    /// and one of them is null; an error where it is not defined on them.
    #[verifier::opaque]
    pub open spec fn apply_spec(self, a: DatumV, b: DatumV) -> Result<DatumV, EvalErrorV> {
        if self.propagates_nulls() && (a is Null || b is Null) {
            Ok(DatumV::Null)
        } else if !self.accepts(a, b) {
            Err(wrong_shape())
        } else {
            self.result_spec(a, b)
        }
    }

    /// Whether the function is defined on two datums.
    pub fn check(&self, a: &Datum, b: &Datum) -> (r: bool)
        ensures
            r == self.accepts(a@, b@),
    {
        match self {
            BinaryFunc::And => (check_bool(a) || check_variant(a, 21)) && (check_bool(b) || check_variant(b, 21)),
            BinaryFunc::Or => (check_bool(a) || check_variant(a, 21)) && (check_bool(b) || check_variant(b, 21)),
            BinaryFunc::AddInt16 => check_variant(a, 2) && check_variant(b, 2),
            BinaryFunc::AddInt32 => check_variant(a, 3) && check_variant(b, 3),
            BinaryFunc::AddInt64 => check_variant(a, 4) && check_variant(b, 4),
            BinaryFunc::AddFloat32 => check_variant(a, 5) && check_variant(b, 5),
            BinaryFunc::AddFloat64 => check_variant(a, 6) && check_variant(b, 6),
            BinaryFunc::AddInterval => check_interval(a) && check_interval(b),
            BinaryFunc::AddTimestampInterval => check_timestamp(a) && check_interval(b),
            BinaryFunc::AddTimestampTzInterval => check_timestamptz(a) && check_interval(b),
            BinaryFunc::AddDateInterval => check_date(a) && check_interval(b),
            BinaryFunc::AddDateTime => check_date(a) && check_time(b),
            BinaryFunc::AddTimeInterval => check_time(a) && check_interval(b),
            BinaryFunc::AddNumeric => check_numeric(a) && check_numeric(b),
            BinaryFunc::BitAndInt16 => check_variant(a, 2) && check_variant(b, 2),
            BinaryFunc::BitAndInt32 => check_variant(a, 3) && check_variant(b, 3),
            BinaryFunc::BitAndInt64 => check_variant(a, 4) && check_variant(b, 4),
            BinaryFunc::BitOrInt16 => check_variant(a, 2) && check_variant(b, 2),
            BinaryFunc::BitOrInt32 => check_variant(a, 3) && check_variant(b, 3),
            BinaryFunc::BitOrInt64 => check_variant(a, 4) && check_variant(b, 4),
            BinaryFunc::BitXorInt16 => check_variant(a, 2) && check_variant(b, 2),
            BinaryFunc::BitXorInt32 => check_variant(a, 3) && check_variant(b, 3),
            BinaryFunc::BitXorInt64 => check_variant(a, 4) && check_variant(b, 4),
            BinaryFunc::BitShiftLeftInt16 => check_variant(a, 2) && check_variant(b, 3),
            BinaryFunc::BitShiftLeftInt32 => check_variant(a, 3) && check_variant(b, 3),
            BinaryFunc::BitShiftLeftInt64 => check_variant(a, 4) && check_variant(b, 3),
            BinaryFunc::BitShiftRightInt16 => check_variant(a, 2) && check_variant(b, 3),
            BinaryFunc::BitShiftRightInt32 => check_variant(a, 3) && check_variant(b, 3),
            BinaryFunc::BitShiftRightInt64 => check_variant(a, 4) && check_variant(b, 3),
            BinaryFunc::SubInt16 => check_variant(a, 2) && check_variant(b, 2),
            BinaryFunc::SubInt32 => check_variant(a, 3) && check_variant(b, 3),
            BinaryFunc::SubInt64 => check_variant(a, 4) && check_variant(b, 4),
            BinaryFunc::SubFloat32 => check_variant(a, 5) && check_variant(b, 5),
            BinaryFunc::SubFloat64 => check_variant(a, 6) && check_variant(b, 6),
            BinaryFunc::SubInterval => check_interval(a) && check_interval(b),
            BinaryFunc::SubTimestamp => check_timestamp(a) && check_timestamp(b),
            BinaryFunc::SubTimestampTz => check_timestamptz(a) && check_timestamptz(b),
            BinaryFunc::SubTimestampInterval => check_timestamp(a) && check_interval(b),
            BinaryFunc::SubTimestampTzInterval => check_timestamptz(a) && check_interval(b),
            BinaryFunc::SubDate => check_date(a) && check_date(b),
            BinaryFunc::SubDateInterval => check_date(a) && check_interval(b),
            BinaryFunc::SubTime => check_time(a) && check_time(b),
            BinaryFunc::SubTimeInterval => check_time(a) && check_interval(b),
            BinaryFunc::SubNumeric => check_numeric(a) && check_numeric(b),
            BinaryFunc::MulInt16 => check_variant(a, 2) && check_variant(b, 2),
            BinaryFunc::MulInt32 => check_variant(a, 3) && check_variant(b, 3),
            BinaryFunc::MulInt64 => check_variant(a, 4) && check_variant(b, 4),
            BinaryFunc::MulFloat32 => check_variant(a, 5) && check_variant(b, 5),
            BinaryFunc::MulFloat64 => check_variant(a, 6) && check_variant(b, 6),
            BinaryFunc::MulNumeric => check_numeric(a) && check_numeric(b),
            BinaryFunc::MulInterval => check_interval(a) && check_variant(b, 6),
            BinaryFunc::DivInt16 => check_variant(a, 2) && check_variant(b, 2),
            BinaryFunc::DivInt32 => check_variant(a, 3) && check_variant(b, 3),
            BinaryFunc::DivInt64 => check_variant(a, 4) && check_variant(b, 4),
            BinaryFunc::DivFloat32 => check_variant(a, 5) && check_variant(b, 5),
            BinaryFunc::DivFloat64 => check_variant(a, 6) && check_variant(b, 6),
            BinaryFunc::DivNumeric => check_numeric(a) && check_numeric(b),
            BinaryFunc::DivInterval => check_interval(a) && check_variant(b, 6),
            BinaryFunc::ModInt16 => check_variant(a, 2) && check_variant(b, 2),
            BinaryFunc::ModInt32 => check_variant(a, 3) && check_variant(b, 3),
            BinaryFunc::ModInt64 => check_variant(a, 4) && check_variant(b, 4),
            BinaryFunc::ModFloat32 => check_variant(a, 5) && check_variant(b, 5),
            BinaryFunc::ModFloat64 => check_variant(a, 6) && check_variant(b, 6),
            BinaryFunc::ModNumeric => check_numeric(a) && check_numeric(b),
            BinaryFunc::Eq => true,
            BinaryFunc::NotEq => true,
            BinaryFunc::Lt => true,
            BinaryFunc::Lte => true,
            BinaryFunc::Gt => true,
            BinaryFunc::Gte => true,
            BinaryFunc::ToCharTimestamp => check_timestamp(a) && check_variant(b, 13),
            BinaryFunc::ToCharTimestampTz => check_timestamptz(a) && check_variant(b, 13),
            BinaryFunc::TimezoneIntervalTimestamp => check_interval(a) && check_timestamp(b),
            BinaryFunc::TimezoneIntervalTimestampTz => check_interval(a) && check_timestamptz(b),
            BinaryFunc::TimezoneIntervalTime => check_interval(a) && check_time(b),
            BinaryFunc::JsonbContainsString => check_variant(b, 13),
            BinaryFunc::JsonbConcat => true,
            BinaryFunc::JsonbContainsJsonb => true,
            BinaryFunc::JsonbDeleteInt64 => check_variant(b, 4),
            BinaryFunc::JsonbDeleteString => check_variant(b, 13),
            BinaryFunc::MapContainsKey => check_variant(a, 16) && check_variant(b, 13),
            BinaryFunc::MapGetValue => check_variant(a, 16) && check_variant(b, 13),
            BinaryFunc::MapGetValues => check_variant(a, 16) && check_variant(b, 14) && check_text_array(b, false),
            BinaryFunc::MapContainsAllKeys => check_variant(a, 16)
                && check_variant(b, 14)
                && check_text_array(b, true),
            BinaryFunc::MapContainsAnyKeys => check_variant(a, 16)
                && check_variant(b, 14)
                && check_text_array(b, true),
            BinaryFunc::MapContainsMap => check_variant(a, 16) && check_variant(b, 16),
            BinaryFunc::ConvertFrom => check_variant(a, 12) && check_variant(b, 13),
            BinaryFunc::Left => check_variant(a, 13) && check_variant(b, 3),
            BinaryFunc::Position => check_variant(a, 13) && check_variant(b, 13),
            BinaryFunc::Right => check_variant(a, 13) && check_variant(b, 3),
            BinaryFunc::RepeatString => check_variant(a, 13) && check_variant(b, 3),
            BinaryFunc::Trim => check_variant(a, 13) && check_variant(b, 13),
            BinaryFunc::TrimLeading => check_variant(a, 13) && check_variant(b, 13),
            BinaryFunc::TrimTrailing => check_variant(a, 13) && check_variant(b, 13),
            BinaryFunc::EncodedBytesCharLength => check_variant(a, 12) && check_variant(b, 13),
            BinaryFunc::ListIndex => check_variant(a, 15) && check_variant(b, 4),
            BinaryFunc::ArrayContains => check_variant(b, 14),
            BinaryFunc::ArrayIndex => check_variant(a, 14) && check_variant(b, 4),
            BinaryFunc::ArrayLength => check_variant(a, 14) && check_variant(b, 4) && check_measured_array(a),
            BinaryFunc::ArrayLower => check_variant(a, 14) && check_variant(b, 4),
            BinaryFunc::ArrayUpper => check_variant(a, 14) && check_variant(b, 4) && check_measured_array(a),
            BinaryFunc::ListListConcat => (check_variant(a, 21) || check_variant(a, 15))
                && (check_variant(b, 21) || check_variant(b, 15)),
            BinaryFunc::ListElementConcat => (check_variant(a, 21) || check_variant(a, 15)),
            BinaryFunc::ElementListConcat => (check_variant(b, 21) || check_variant(b, 15)),
            BinaryFunc::DigestString => check_variant(a, 13) && check_variant(b, 13),
            BinaryFunc::DigestBytes => check_variant(a, 12) && check_variant(b, 13),
            BinaryFunc::MzRenderTypemod => check_variant(a, 3) && check_variant(b, 3),
            BinaryFunc::Encode => check_variant(a, 12) && check_variant(b, 13),
            BinaryFunc::Decode => check_variant(a, 13) && check_variant(b, 13),
            BinaryFunc::Power => check_variant(a, 6) && check_variant(b, 6),
            BinaryFunc::PowerNumeric => check_numeric(a) && check_numeric(b),
            BinaryFunc::TextConcat => check_variant(a, 13) && check_variant(b, 13),
            BinaryFunc::LogNumeric => check_numeric(a) && check_numeric(b),
            BinaryFunc::RoundNumeric => check_numeric(a) && check_variant(b, 3),
            BinaryFunc::IsLikePatternMatch { .. } => check_variant(a, 13) && check_variant(b, 13),
            BinaryFunc::IsRegexpMatch { .. } => check_variant(a, 13) && check_variant(b, 13),
            BinaryFunc::JsonbGetInt64 { .. } => check_jsonb(a) && check_variant(b, 4),
            BinaryFunc::JsonbGetString { .. } => check_jsonb(a) && check_variant(b, 13),
            BinaryFunc::JsonbGetPath { .. } => check_jsonb(a) && check_variant(b, 14) && check_text_array(b, true),
            BinaryFunc::ListLengthMax { .. } => check_variant(b, 4),
            BinaryFunc::DatePartInterval => check_variant(a, 13) && check_interval(b),
            BinaryFunc::DatePartTimestamp => check_variant(a, 13) && check_timestamp(b),
            BinaryFunc::DatePartTimestampTz => check_variant(a, 13) && check_timestamptz(b),
            BinaryFunc::DateTruncTimestamp => check_variant(a, 13) && check_timestamp(b),
            BinaryFunc::DateTruncTimestampTz => check_variant(a, 13) && check_timestamptz(b),
            BinaryFunc::TimezoneTimestamp => check_variant(a, 13) && check_timestamp(b),
            BinaryFunc::TimezoneTimestampTz => check_variant(a, 13) && check_timestamptz(b),
            BinaryFunc::TimezoneTime { .. } => check_variant(a, 13) && check_time(b),
        }
    }

    /// The function on two datums. A null operand of a function that lets
    /// nulls through gives null before anything else is looked at.
    pub fn apply<F: FloatUnit>(&self, a: &Datum, b: &Datum, fu: &F) -> (r: Result<Datum, EvalError>)
        ensures
            self.propagates_nulls() && (a@ is Null || b@ is Null) ==> res_view(r) == Ok::<DatumV, EvalErrorV>(
                DatumV::Null,
            ),
            !(self.propagates_nulls() && (a@ is Null || b@ is Null)) && !self.accepts(a@, b@) ==> res_view(r)
                == Err::<DatumV, EvalErrorV>(wrong_shape()),
            self.exact_on(a@, b@) ==> res_view(r) == self.apply_spec(a@, b@),
    {
        reveal(BinaryFunc::apply_spec);
        if self.propagates_nulls() && (a.is_null() || b.is_null()) {
            return Ok(Datum::Null);
        }
        if !self.check(a, b) {
            return Err(shape_error());
        }
        match self {
            BinaryFunc::And => Ok(and_datums(a, b)),
            BinaryFunc::Or => Ok(or_datums(a, b)),
            BinaryFunc::AddInt16 => add_int16(a, b),
            BinaryFunc::AddInt32 => add_int32(a, b),
            BinaryFunc::AddInt64 => add_int64(a, b),
            BinaryFunc::AddFloat32 => Ok(add_float32(a, b, fu)),
            BinaryFunc::AddFloat64 => Ok(add_float64(a, b, fu)),
            BinaryFunc::AddInterval => add_interval(a, b),
            BinaryFunc::AddTimestampInterval => add_timestamp_interval(a, b),
            BinaryFunc::AddTimestampTzInterval => add_timestamptz_interval(a, b),
            BinaryFunc::AddDateInterval => add_date_interval(a, b),
            BinaryFunc::AddDateTime => Ok(add_date_time(a, b)),
            BinaryFunc::AddTimeInterval => Ok(add_time_interval(a, b)),
            BinaryFunc::AddNumeric => add_numeric(a, b),
            BinaryFunc::BitAndInt16 => Ok(bit_and_int16(a, b)),
            BinaryFunc::BitAndInt32 => Ok(bit_and_int32(a, b)),
            BinaryFunc::BitAndInt64 => Ok(bit_and_int64(a, b)),
            BinaryFunc::BitOrInt16 => Ok(bit_or_int16(a, b)),
            BinaryFunc::BitOrInt32 => Ok(bit_or_int32(a, b)),
            BinaryFunc::BitOrInt64 => Ok(bit_or_int64(a, b)),
            BinaryFunc::BitXorInt16 => Ok(bit_xor_int16(a, b)),
            BinaryFunc::BitXorInt32 => Ok(bit_xor_int32(a, b)),
            BinaryFunc::BitXorInt64 => Ok(bit_xor_int64(a, b)),
            BinaryFunc::BitShiftLeftInt16 => Ok(bit_shift_left_int16(a, b)),
            BinaryFunc::BitShiftLeftInt32 => Ok(bit_shift_left_int32(a, b)),
            BinaryFunc::BitShiftLeftInt64 => Ok(bit_shift_left_int64(a, b)),
            BinaryFunc::BitShiftRightInt16 => Ok(bit_shift_right_int16(a, b)),
            BinaryFunc::BitShiftRightInt32 => Ok(bit_shift_right_int32(a, b)),
            BinaryFunc::BitShiftRightInt64 => Ok(bit_shift_right_int64(a, b)),
            BinaryFunc::SubInt16 => sub_int16(a, b),
            BinaryFunc::SubInt32 => sub_int32(a, b),
            BinaryFunc::SubInt64 => sub_int64(a, b),
            BinaryFunc::SubFloat32 => Ok(sub_float32(a, b, fu)),
            BinaryFunc::SubFloat64 => Ok(sub_float64(a, b, fu)),
            BinaryFunc::SubInterval => sub_interval(a, b),
            BinaryFunc::SubTimestamp => sub_timestamp(a, b),
            BinaryFunc::SubTimestampTz => sub_timestamptz(a, b),
            BinaryFunc::SubTimestampInterval => sub_timestamp_interval(a, b),
            BinaryFunc::SubTimestampTzInterval => sub_timestamptz_interval(a, b),
            BinaryFunc::SubDate => Ok(sub_date(a, b)),
            BinaryFunc::SubDateInterval => sub_date_interval(a, b),
            BinaryFunc::SubTime => Ok(sub_time(a, b)),
            BinaryFunc::SubTimeInterval => Ok(sub_time_interval(a, b)),
            BinaryFunc::SubNumeric => sub_numeric(a, b),
            BinaryFunc::MulInt16 => mul_int16(a, b),
            BinaryFunc::MulInt32 => mul_int32(a, b),
            BinaryFunc::MulInt64 => mul_int64(a, b),
            BinaryFunc::MulFloat32 => Ok(mul_float32(a, b, fu)),
            BinaryFunc::MulFloat64 => Ok(mul_float64(a, b, fu)),
            BinaryFunc::MulNumeric => mul_numeric(a, b),
            BinaryFunc::MulInterval => mul_interval(a, b, fu),
            BinaryFunc::DivInt16 => div_int16(a, b),
            BinaryFunc::DivInt32 => div_int32(a, b),
            BinaryFunc::DivInt64 => div_int64(a, b),
            BinaryFunc::DivFloat32 => div_float32(a, b, fu),
            BinaryFunc::DivFloat64 => div_float64(a, b, fu),
            BinaryFunc::DivNumeric => div_numeric(a, b),
            BinaryFunc::DivInterval => div_interval(a, b, fu),
            BinaryFunc::ModInt16 => mod_int16(a, b),
            BinaryFunc::ModInt32 => mod_int32(a, b),
            BinaryFunc::ModInt64 => mod_int64(a, b),
            BinaryFunc::ModFloat32 => mod_float32(a, b, fu),
            BinaryFunc::ModFloat64 => mod_float64(a, b, fu),
            BinaryFunc::ModNumeric => mod_numeric(a, b),
            BinaryFunc::Eq => Ok(eq(a, b)),
            BinaryFunc::NotEq => Ok(not_eq(a, b)),
            BinaryFunc::Lt => Ok(lt(a, b)),
            BinaryFunc::Lte => Ok(lte(a, b)),
            BinaryFunc::Gt => Ok(gt(a, b)),
            BinaryFunc::Gte => Ok(gte(a, b)),
            BinaryFunc::ToCharTimestamp => Ok(to_char_timestamp(a, b)),
            BinaryFunc::ToCharTimestampTz => Ok(to_char_timestamptz(a, b)),
            BinaryFunc::TimezoneIntervalTimestamp => timezone_interval_timestamp(a, b),
            BinaryFunc::TimezoneIntervalTimestampTz => timezone_interval_timestamptz(a, b),
            BinaryFunc::TimezoneIntervalTime => timezone_interval_time(a, b),
            BinaryFunc::JsonbContainsString => Ok(jsonb_contains_string(a, b)),
            BinaryFunc::JsonbConcat => Ok(jsonb_concat(a, b)),
            BinaryFunc::JsonbContainsJsonb => Ok(jsonb_contains_jsonb(a, b, fu)),
            BinaryFunc::JsonbDeleteInt64 => Ok(jsonb_delete_int64(a, b)),
            BinaryFunc::JsonbDeleteString => Ok(jsonb_delete_string(a, b)),
            BinaryFunc::MapContainsKey => Ok(map_contains_key(a, b)),
            BinaryFunc::MapGetValue => Ok(map_get_value(a, b)),
            BinaryFunc::MapGetValues => Ok(map_get_values(a, b)),
            BinaryFunc::MapContainsAllKeys => Ok(map_contains_all_keys(a, b)),
            BinaryFunc::MapContainsAnyKeys => Ok(map_contains_any_keys(a, b)),
            BinaryFunc::MapContainsMap => Ok(map_contains_map(a, b)),
            BinaryFunc::ConvertFrom => convert_from(a, b),
            BinaryFunc::Left => left(a, b),
            BinaryFunc::Position => position(a, b),
            BinaryFunc::Right => right(a, b),
            BinaryFunc::RepeatString => repeat_string(a, b),
            BinaryFunc::Trim => Ok(trim(a, b)),
            BinaryFunc::TrimLeading => Ok(trim_leading(a, b)),
            BinaryFunc::TrimTrailing => Ok(trim_trailing(a, b)),
            BinaryFunc::EncodedBytesCharLength => encoded_bytes_char_length(a, b),
            BinaryFunc::ListIndex => Ok(list_index(a, b)),
            BinaryFunc::ArrayContains => Ok(array_contains(a, b)),
            BinaryFunc::ArrayIndex => Ok(array_index(a, b)),
            BinaryFunc::ArrayLength => Ok(array_length(a, b)),
            BinaryFunc::ArrayLower => Ok(array_lower(a, b)),
            BinaryFunc::ArrayUpper => Ok(array_upper(a, b)),
            BinaryFunc::ListListConcat => Ok(list_list_concat(a, b)),
            BinaryFunc::ListElementConcat => Ok(list_element_concat(a, b)),
            BinaryFunc::ElementListConcat => Ok(element_list_concat(a, b)),
            BinaryFunc::DigestString => digest_string(a, b),
            BinaryFunc::DigestBytes => digest_bytes(a, b),
            BinaryFunc::MzRenderTypemod => Ok(mz_render_typemod(a, b)),
            BinaryFunc::Encode => encode(a, b),
            BinaryFunc::Decode => decode(a, b),
            BinaryFunc::Power => power(a, b, fu),
            BinaryFunc::PowerNumeric => power_numeric(a, b),
            BinaryFunc::TextConcat => Ok(text_concat_binary(a, b)),
            BinaryFunc::LogNumeric => log_base_numeric(a, b),
            BinaryFunc::RoundNumeric => round_numeric_binary(a, b),
            BinaryFunc::IsLikePatternMatch { case_insensitive } => {
                is_like_pattern_match_dynamic(a, b, *case_insensitive)
            },
            BinaryFunc::IsRegexpMatch { case_insensitive } => is_regexp_match_dynamic(a, b, *case_insensitive),
            BinaryFunc::JsonbGetInt64 { stringify } => Ok(jsonb_get_int64(a, b, *stringify, fu)),
            BinaryFunc::JsonbGetString { stringify } => Ok(jsonb_get_string(a, b, *stringify, fu)),
            BinaryFunc::JsonbGetPath { stringify } => Ok(jsonb_get_path(a, b, *stringify, fu)),
            BinaryFunc::ListLengthMax { max_dim } => list_length_max(a, b, *max_dim),
            BinaryFunc::DatePartInterval => date_part_interval(a, b.unwrap_interval(), fu),
            BinaryFunc::DatePartTimestamp => date_part_timestamp(a, b.unwrap_timestamp(), fu),
            BinaryFunc::DatePartTimestampTz => date_part_timestamp(a, b.unwrap_timestamptz(), fu),
            BinaryFunc::DateTruncTimestamp => stamp(date_trunc(a, b.unwrap_timestamp()), false),
            BinaryFunc::DateTruncTimestampTz => stamp(date_trunc(a, b.unwrap_timestamptz()), true),
            BinaryFunc::TimezoneTimestamp => in_named_zone(a, b, None),
            BinaryFunc::TimezoneTimestampTz => in_named_zone(a, b, None),
            BinaryFunc::TimezoneTime { wall_time } => in_named_zone(a, b, Some(*wall_time)),
        }
    }
}

} // verus!
