//! Functions of one argument: what they are, and what types they give.

use vstd::prelude::*;
use crate::datum::Timestamp;
use crate::expr::MirScalarExpr;
use crate::func_datetime::Timezone;
use crate::pattern::Regex;
use crate::scalar_type::{ColumnType, ScalarType, ScalarTypeV};
use crate::units::DateTimeUnits;

verus! {

/// A function of one argument.
#[derive(Debug, PartialEq, Eq, Hash)]
pub enum UnaryFunc {
    Not,
    IsNull,
    IsTrue,
    IsFalse,
    BitNotInt16,
    BitNotInt32,
    BitNotInt64,
    NegInt16,
    NegInt32,
    NegInt64,
    NegFloat32,
    NegFloat64,
    NegNumeric,
    NegInterval,
    SqrtFloat64,
    SqrtNumeric,
    CbrtFloat64,
    AbsInt16,
    AbsInt32,
    AbsInt64,
    AbsFloat32,
    AbsFloat64,
    AbsNumeric,
    CastBoolToString,
    CastBoolToStringNonstandard,
    CastBoolToInt32,
    CastInt16ToFloat32,
    CastInt16ToFloat64,
    CastInt16ToInt32,
    CastInt16ToInt64,
    CastInt16ToString,
    CastInt32ToBool,
    CastInt32ToFloat32,
    CastInt32ToFloat64,
    CastInt32ToOid,
    CastInt32ToRegProc,
    CastInt32ToInt16,
    CastInt32ToInt64,
    CastInt32ToString,
    CastOidToInt32,
    CastOidToRegProc,
    CastRegProcToOid,
    CastInt64ToInt16,
    CastInt64ToInt32,
    CastInt16ToNumeric(Option<u8>),
    CastInt32ToNumeric(Option<u8>),
    CastInt64ToBool,
    CastInt64ToNumeric(Option<u8>),
    CastInt64ToFloat32,
    CastInt64ToFloat64,
    CastInt64ToString,
    CastFloat32ToInt16,
    CastFloat32ToInt32,
    CastFloat32ToInt64,
    CastFloat32ToFloat64,
    CastFloat32ToString,
    CastFloat32ToNumeric(Option<u8>),
    CastFloat64ToNumeric(Option<u8>),
    CastFloat64ToInt16,
    CastFloat64ToInt32,
    CastFloat64ToInt64,
    CastFloat64ToFloat32,
    CastFloat64ToString,
    CastNumericToFloat32,
    CastNumericToFloat64,
    CastNumericToInt16,
    CastNumericToInt32,
    CastNumericToInt64,
    CastNumericToString,
    CastStringToBool,
    CastStringToBytes,
    CastStringToInt16,
    CastStringToInt32,
    CastStringToInt64,
    CastStringToFloat32,
    CastStringToFloat64,
    CastStringToDate,
    CastStringToArray { return_ty: ScalarType, cast_expr: Box<MirScalarExpr> },
    CastStringToList { return_ty: ScalarType, cast_expr: Box<MirScalarExpr> },
    CastStringToMap { return_ty: ScalarType, cast_expr: Box<MirScalarExpr> },
    CastStringToTime,
    CastStringToTimestamp,
    CastStringToTimestampTz,
    CastStringToInterval,
    CastStringToNumeric(Option<u8>),
    CastStringToUuid,
    CastStringToChar { length: Option<usize>, fail_on_len: bool },
    PadChar { length: Option<usize> },
    CastStringToVarChar { length: Option<usize>, fail_on_len: bool },
    CastCharToString,
    CastVarCharToString,
    CastDateToTimestamp,
    CastDateToTimestampTz,
    CastDateToString,
    CastTimeToInterval,
    CastTimeToString,
    CastTimestampToDate,
    CastTimestampToTimestampTz,
    CastTimestampToString,
    CastTimestampTzToDate,
    CastTimestampTzToTimestamp,
    CastTimestampTzToString,
    CastIntervalToString,
    CastIntervalToTime,
    CastBytesToString,
    CastStringToJsonb,
    CastJsonbToString,
    CastJsonbOrNullToJsonb,
    CastJsonbToInt16,
    CastJsonbToInt32,
    CastJsonbToInt64,
    CastJsonbToFloat32,
    CastJsonbToFloat64,
    CastJsonbToNumeric(Option<u8>),
    CastJsonbToBool,
    CastUuidToString,
    CastRecordToString { ty: ScalarType },
    CastArrayToString { ty: ScalarType },
    CastListToString { ty: ScalarType },
    CastList1ToList2 { return_ty: ScalarType, cast_expr: Box<MirScalarExpr> },
    CastMapToString { ty: ScalarType },
    CastInPlace { return_ty: ScalarType },
    CeilFloat32,
    CeilFloat64,
    CeilNumeric,
    FloorFloat32,
    FloorFloat64,
    FloorNumeric,
    Ascii,
    BitLengthBytes,
    BitLengthString,
    ByteLengthBytes,
    ByteLengthString,
    CharLength,
    IsRegexpMatch(Regex),
    RegexpMatch(Regex),
    DatePartInterval(DateTimeUnits),
    DatePartTimestamp(DateTimeUnits),
    DatePartTimestampTz(DateTimeUnits),
    DateTruncTimestamp(DateTimeUnits),
    DateTruncTimestampTz(DateTimeUnits),
    TimezoneTimestamp(Timezone),
    TimezoneTimestampTz(Timezone),
    TimezoneTime { tz: Timezone, wall_time: Timestamp },
    ToTimestamp,
    JsonbArrayLength,
    JsonbTypeof,
    JsonbStripNulls,
    JsonbPretty,
    RoundFloat32,
    RoundFloat64,
    RoundNumeric,
    TrimWhitespace,
    TrimLeadingWhitespace,
    TrimTrailingWhitespace,
    RecordGet(usize),
    ListLength,
    Upper,
    Lower,
    Cos,
    Cosh,
    Sin,
    Sinh,
    Tan,
    Tanh,
    Cot,
    Log10,
    Log10Numeric,
    Ln,
    LnNumeric,
    Exp,
    ExpNumeric,
    Sleep,
    RescaleNumeric(u8),
    PgColumnSize,
    MzRowSize,
}

impl UnaryFunc {
    /// Whether the result is null where the argument is null.
    pub open spec fn propagates_nulls_spec(&self) -> bool {
        match self {
            UnaryFunc::CastJsonbOrNullToJsonb
            | UnaryFunc::IsNull
            | UnaryFunc::IsTrue
            | UnaryFunc::IsFalse
            | UnaryFunc::Sleep
            | UnaryFunc::PgColumnSize
            | UnaryFunc::MzRowSize => false,
            _ => true,
        }
    }

    /// Whether the result is null where the argument is null.
    #[verifier::when_used_as_spec(propagates_nulls_spec)]
    pub fn propagates_nulls(&self) -> (r: bool)
        ensures
            r == self.propagates_nulls_spec(),
    {
        match self {
            UnaryFunc::CastJsonbOrNullToJsonb
            | UnaryFunc::IsNull
            | UnaryFunc::IsTrue
            | UnaryFunc::IsFalse
            | UnaryFunc::Sleep
            | UnaryFunc::PgColumnSize
            | UnaryFunc::MzRowSize => false,
            _ => true,
        }
    }

    /// Whether the result can be null where the argument is not.
    pub open spec fn introduces_nulls_spec(&self) -> bool {
        match self {
            UnaryFunc::CastJsonbToString
            | UnaryFunc::CastJsonbToInt16
            | UnaryFunc::CastJsonbToInt32
            | UnaryFunc::CastJsonbToInt64
            | UnaryFunc::CastJsonbToFloat32
            | UnaryFunc::CastJsonbToFloat64
            | UnaryFunc::CastJsonbToBool
            | UnaryFunc::RecordGet(_)
            | UnaryFunc::RegexpMatch(_)
            | UnaryFunc::JsonbArrayLength
            | UnaryFunc::ToTimestamp
            | UnaryFunc::Sleep
            | UnaryFunc::PgColumnSize
            | UnaryFunc::MzRowSize => true,
            _ => false,
        }
    }

    /// Whether the result can be null where the argument is not.
    #[verifier::when_used_as_spec(introduces_nulls_spec)]
    pub fn introduces_nulls(&self) -> (r: bool)
        ensures
            r == self.introduces_nulls_spec(),
    {
        match self {
            UnaryFunc::CastJsonbToString
            | UnaryFunc::CastJsonbToInt16
            | UnaryFunc::CastJsonbToInt32
            | UnaryFunc::CastJsonbToInt64
            | UnaryFunc::CastJsonbToFloat32
            | UnaryFunc::CastJsonbToFloat64
            | UnaryFunc::CastJsonbToBool
            | UnaryFunc::RecordGet(_)
            | UnaryFunc::RegexpMatch(_)
            | UnaryFunc::JsonbArrayLength
            | UnaryFunc::ToTimestamp
            | UnaryFunc::Sleep
            | UnaryFunc::PgColumnSize
            | UnaryFunc::MzRowSize => true,
            UnaryFunc::Not
            | UnaryFunc::IsNull
            | UnaryFunc::IsTrue
            | UnaryFunc::IsFalse
            | UnaryFunc::BitNotInt16
            | UnaryFunc::BitNotInt32
            | UnaryFunc::BitNotInt64
            | UnaryFunc::NegInt16
            | UnaryFunc::NegInt32
            | UnaryFunc::NegInt64
            | UnaryFunc::NegFloat32
            | UnaryFunc::NegFloat64
            | UnaryFunc::NegNumeric
            | UnaryFunc::NegInterval
            | UnaryFunc::SqrtFloat64
            | UnaryFunc::SqrtNumeric
            | UnaryFunc::CbrtFloat64
            | UnaryFunc::AbsInt16
            | UnaryFunc::AbsInt32
            | UnaryFunc::AbsInt64
            | UnaryFunc::AbsFloat32
            | UnaryFunc::AbsFloat64
            | UnaryFunc::AbsNumeric
            | UnaryFunc::CastBoolToString
            | UnaryFunc::CastBoolToStringNonstandard
            | UnaryFunc::CastBoolToInt32
            | UnaryFunc::CastInt16ToFloat32
            | UnaryFunc::CastInt16ToFloat64
            | UnaryFunc::CastInt16ToInt32
            | UnaryFunc::CastInt16ToInt64
            | UnaryFunc::CastInt16ToString
            | UnaryFunc::CastInt32ToBool
            | UnaryFunc::CastInt32ToFloat32
            | UnaryFunc::CastInt32ToFloat64
            | UnaryFunc::CastInt32ToOid
            | UnaryFunc::CastInt32ToRegProc
            | UnaryFunc::CastInt32ToInt16
            | UnaryFunc::CastInt32ToInt64
            | UnaryFunc::CastInt32ToString
            | UnaryFunc::CastOidToInt32
            | UnaryFunc::CastOidToRegProc
            | UnaryFunc::CastRegProcToOid
            | UnaryFunc::CastInt64ToInt16
            | UnaryFunc::CastInt64ToInt32
            | UnaryFunc::CastInt16ToNumeric(_)
            | UnaryFunc::CastInt32ToNumeric(_)
            | UnaryFunc::CastInt64ToBool
            | UnaryFunc::CastInt64ToNumeric(_)
            | UnaryFunc::CastInt64ToFloat32
            | UnaryFunc::CastInt64ToFloat64
            | UnaryFunc::CastInt64ToString
            | UnaryFunc::CastFloat32ToInt16
            | UnaryFunc::CastFloat32ToInt32
            | UnaryFunc::CastFloat32ToInt64
            | UnaryFunc::CastFloat32ToFloat64
            | UnaryFunc::CastFloat32ToString
            | UnaryFunc::CastFloat32ToNumeric(_)
            | UnaryFunc::CastFloat64ToNumeric(_)
            | UnaryFunc::CastFloat64ToInt16
            | UnaryFunc::CastFloat64ToInt32
            | UnaryFunc::CastFloat64ToInt64
            | UnaryFunc::CastFloat64ToFloat32
            | UnaryFunc::CastFloat64ToString
            | UnaryFunc::CastNumericToFloat32
            | UnaryFunc::CastNumericToFloat64
            | UnaryFunc::CastNumericToInt16
            | UnaryFunc::CastNumericToInt32
            | UnaryFunc::CastNumericToInt64
            | UnaryFunc::CastNumericToString
            | UnaryFunc::CastStringToBool
            | UnaryFunc::CastStringToBytes
            | UnaryFunc::CastStringToInt16
            | UnaryFunc::CastStringToInt32
            | UnaryFunc::CastStringToInt64
            | UnaryFunc::CastStringToFloat32
            | UnaryFunc::CastStringToFloat64
            | UnaryFunc::CastStringToDate
            | UnaryFunc::CastStringToArray { .. }
            | UnaryFunc::CastStringToList { .. }
            | UnaryFunc::CastStringToMap { .. }
            | UnaryFunc::CastStringToTime
            | UnaryFunc::CastStringToTimestamp
            | UnaryFunc::CastStringToTimestampTz
            | UnaryFunc::CastStringToInterval
            | UnaryFunc::CastStringToNumeric(_)
            | UnaryFunc::CastStringToUuid
            | UnaryFunc::CastStringToChar { .. }
            | UnaryFunc::PadChar { .. }
            | UnaryFunc::CastStringToVarChar { .. }
            | UnaryFunc::CastCharToString
            | UnaryFunc::CastVarCharToString
            | UnaryFunc::CastDateToTimestamp
            | UnaryFunc::CastDateToTimestampTz
            | UnaryFunc::CastDateToString
            | UnaryFunc::CastTimeToInterval
            | UnaryFunc::CastTimeToString
            | UnaryFunc::CastTimestampToDate
            | UnaryFunc::CastTimestampToTimestampTz
            | UnaryFunc::CastTimestampToString
            | UnaryFunc::CastTimestampTzToDate
            | UnaryFunc::CastTimestampTzToTimestamp
            | UnaryFunc::CastTimestampTzToString
            | UnaryFunc::CastIntervalToString
            | UnaryFunc::CastIntervalToTime
            | UnaryFunc::CastBytesToString
            | UnaryFunc::CastStringToJsonb
            | UnaryFunc::CastJsonbOrNullToJsonb
            | UnaryFunc::CastJsonbToNumeric(_)
            | UnaryFunc::CastUuidToString
            | UnaryFunc::CastRecordToString { .. }
            | UnaryFunc::CastArrayToString { .. }
            | UnaryFunc::CastListToString { .. }
            | UnaryFunc::CastList1ToList2 { .. }
            | UnaryFunc::CastMapToString { .. }
            | UnaryFunc::CastInPlace { .. }
            | UnaryFunc::CeilFloat32
            | UnaryFunc::CeilFloat64
            | UnaryFunc::CeilNumeric
            | UnaryFunc::FloorFloat32
            | UnaryFunc::FloorFloat64
            | UnaryFunc::FloorNumeric
            | UnaryFunc::Ascii
            | UnaryFunc::BitLengthBytes
            | UnaryFunc::BitLengthString
            | UnaryFunc::ByteLengthBytes
            | UnaryFunc::ByteLengthString
            | UnaryFunc::CharLength
            | UnaryFunc::IsRegexpMatch(_)
            | UnaryFunc::DatePartInterval(_)
            | UnaryFunc::DatePartTimestamp(_)
            | UnaryFunc::DatePartTimestampTz(_)
            | UnaryFunc::DateTruncTimestamp(_)
            | UnaryFunc::DateTruncTimestampTz(_)
            | UnaryFunc::TimezoneTimestamp(_)
            | UnaryFunc::TimezoneTimestampTz(_)
            | UnaryFunc::TimezoneTime { .. }
            | UnaryFunc::JsonbTypeof
            | UnaryFunc::JsonbStripNulls
            | UnaryFunc::JsonbPretty
            | UnaryFunc::RoundFloat32
            | UnaryFunc::RoundFloat64
            | UnaryFunc::RoundNumeric
            | UnaryFunc::TrimWhitespace
            | UnaryFunc::TrimLeadingWhitespace
            | UnaryFunc::TrimTrailingWhitespace
            | UnaryFunc::ListLength
            | UnaryFunc::Upper
            | UnaryFunc::Lower
            | UnaryFunc::Cos
            | UnaryFunc::Cosh
            | UnaryFunc::Sin
            | UnaryFunc::Sinh
            | UnaryFunc::Tan
            | UnaryFunc::Tanh
            | UnaryFunc::Cot
            | UnaryFunc::Log10
            | UnaryFunc::Log10Numeric
            | UnaryFunc::Ln
            | UnaryFunc::LnNumeric
            | UnaryFunc::Exp
            | UnaryFunc::ExpNumeric
            | UnaryFunc::RescaleNumeric(_) => false,
        }
    }

    /// Whether different arguments give different results.
    pub open spec fn preserves_uniqueness_spec(&self) -> bool {
        match self {
            UnaryFunc::NegNumeric
            | UnaryFunc::CastBoolToString
            | UnaryFunc::CastBoolToStringNonstandard
            | UnaryFunc::CastCharToString
            | UnaryFunc::CastVarCharToString
            | UnaryFunc::CastInt16ToInt32
            | UnaryFunc::CastInt16ToInt64
            | UnaryFunc::CastInt16ToString
            | UnaryFunc::CastInt32ToInt16
            | UnaryFunc::CastInt32ToInt64
            | UnaryFunc::CastInt32ToString
            | UnaryFunc::CastInt64ToString
            | UnaryFunc::CastStringToBytes
            | UnaryFunc::CastDateToTimestamp
            | UnaryFunc::CastDateToTimestampTz
            | UnaryFunc::CastDateToString
            | UnaryFunc::CastTimeToInterval
            | UnaryFunc::CastTimeToString
            | UnaryFunc::Not
            | UnaryFunc::NegInt16
            | UnaryFunc::NegInt32
            | UnaryFunc::NegInt64
            | UnaryFunc::NegFloat32
            | UnaryFunc::NegFloat64
            | UnaryFunc::BitNotInt16
            | UnaryFunc::BitNotInt32
            | UnaryFunc::BitNotInt64 => true,
            _ => false,
        }
    }

    /// Whether different arguments give different results. That is so
    /// mostly of the casts to a type that holds all that the type of the
    /// argument holds.
    #[verifier::when_used_as_spec(preserves_uniqueness_spec)]
    pub fn preserves_uniqueness(&self) -> (r: bool)
        ensures
            r == self.preserves_uniqueness_spec(),
    {
        match self {
            UnaryFunc::NegNumeric
            | UnaryFunc::CastBoolToString
            | UnaryFunc::CastBoolToStringNonstandard
            | UnaryFunc::CastCharToString
            | UnaryFunc::CastVarCharToString
            | UnaryFunc::CastInt16ToInt32
            | UnaryFunc::CastInt16ToInt64
            | UnaryFunc::CastInt16ToString
            | UnaryFunc::CastInt32ToInt16
            | UnaryFunc::CastInt32ToInt64
            | UnaryFunc::CastInt32ToString
            | UnaryFunc::CastInt64ToString
            | UnaryFunc::CastStringToBytes
            | UnaryFunc::CastDateToTimestamp
            | UnaryFunc::CastDateToTimestampTz
            | UnaryFunc::CastDateToString
            | UnaryFunc::CastTimeToInterval
            | UnaryFunc::CastTimeToString
            | UnaryFunc::Not
            | UnaryFunc::NegInt16
            | UnaryFunc::NegInt32
            | UnaryFunc::NegInt64
            | UnaryFunc::NegFloat32
            | UnaryFunc::NegFloat64
            | UnaryFunc::BitNotInt16
            | UnaryFunc::BitNotInt32
            | UnaryFunc::BitNotInt64 => true,
            _ => false,
        }
    }

    /// The types of arguments for which the function has a type: a record
    /// with the field where it takes a field of a record.
    pub open spec fn typed_for(self, input: ScalarTypeV) -> bool {
        match self {
            UnaryFunc::RecordGet(i) => input is Record && i < input->Record_fields.len(),
            _ => true,
        }
    }

    /// The scalar type of the result for an argument of the given scalar
    /// type.
    pub open spec fn output_scalar_type(self, input: ScalarTypeV) -> ScalarTypeV {
        match self {
            UnaryFunc::Ascii
            | UnaryFunc::CharLength
            | UnaryFunc::BitLengthBytes
            | UnaryFunc::BitLengthString
            | UnaryFunc::ByteLengthBytes
            | UnaryFunc::ByteLengthString
            | UnaryFunc::CastBoolToInt32
            | UnaryFunc::CastStringToInt32
            | UnaryFunc::CastInt16ToInt32
            | UnaryFunc::CastInt64ToInt32
            | UnaryFunc::CastNumericToInt32
            | UnaryFunc::CastOidToInt32
            | UnaryFunc::CastJsonbToInt32
            | UnaryFunc::AbsInt32
            | UnaryFunc::NegInt32
            | UnaryFunc::BitNotInt32
            | UnaryFunc::CastFloat32ToInt32
            | UnaryFunc::CastFloat64ToInt32
            | UnaryFunc::PgColumnSize
            | UnaryFunc::MzRowSize => ScalarTypeV::Int32,
            UnaryFunc::IsRegexpMatch(_)
            | UnaryFunc::CastInt32ToBool
            | UnaryFunc::CastInt64ToBool
            | UnaryFunc::CastStringToBool
            | UnaryFunc::CastJsonbToBool
            | UnaryFunc::Not
            | UnaryFunc::IsNull
            | UnaryFunc::IsTrue
            | UnaryFunc::IsFalse => ScalarTypeV::Bool,
            UnaryFunc::CastStringToBytes => ScalarTypeV::Bytes,
            UnaryFunc::CastStringToInterval
            | UnaryFunc::CastTimeToInterval => ScalarTypeV::Interval,
            UnaryFunc::CastStringToUuid => ScalarTypeV::Uuid,
            UnaryFunc::CastStringToJsonb
            | UnaryFunc::CastJsonbOrNullToJsonb
            | UnaryFunc::JsonbStripNulls => ScalarTypeV::Jsonb,
            UnaryFunc::CastBoolToString
            | UnaryFunc::CastBoolToStringNonstandard
            | UnaryFunc::CastCharToString
            | UnaryFunc::CastVarCharToString
            | UnaryFunc::CastInt16ToString
            | UnaryFunc::CastInt32ToString
            | UnaryFunc::CastInt64ToString
            | UnaryFunc::CastNumericToString
            | UnaryFunc::CastDateToString
            | UnaryFunc::CastTimeToString
            | UnaryFunc::CastTimestampToString
            | UnaryFunc::CastTimestampTzToString
            | UnaryFunc::CastIntervalToString
            | UnaryFunc::CastBytesToString
            | UnaryFunc::CastUuidToString
            | UnaryFunc::CastRecordToString { .. }
            | UnaryFunc::CastArrayToString { .. }
            | UnaryFunc::CastListToString { .. }
            | UnaryFunc::CastMapToString { .. }
            | UnaryFunc::TrimWhitespace
            | UnaryFunc::TrimLeadingWhitespace
            | UnaryFunc::TrimTrailingWhitespace
            | UnaryFunc::Upper
            | UnaryFunc::Lower
            | UnaryFunc::CastJsonbToString
            | UnaryFunc::JsonbTypeof
            | UnaryFunc::JsonbPretty
            | UnaryFunc::CastFloat32ToString
            | UnaryFunc::CastFloat64ToString => ScalarTypeV::String,
            UnaryFunc::CastStringToFloat32
            | UnaryFunc::CastInt16ToFloat32
            | UnaryFunc::CastInt32ToFloat32
            | UnaryFunc::CastInt64ToFloat32
            | UnaryFunc::CastNumericToFloat32
            | UnaryFunc::CastJsonbToFloat32
            | UnaryFunc::NegFloat32
            | UnaryFunc::AbsFloat32
            | UnaryFunc::CeilFloat32
            | UnaryFunc::FloorFloat32
            | UnaryFunc::RoundFloat32
            | UnaryFunc::CastFloat64ToFloat32 => ScalarTypeV::Float32,
            UnaryFunc::CastStringToFloat64
            | UnaryFunc::CastInt16ToFloat64
            | UnaryFunc::CastInt32ToFloat64
            | UnaryFunc::CastInt64ToFloat64
            | UnaryFunc::CastNumericToFloat64
            | UnaryFunc::CastJsonbToFloat64
            | UnaryFunc::DatePartInterval(_)
            | UnaryFunc::DatePartTimestamp(_)
            | UnaryFunc::DatePartTimestampTz(_)
            | UnaryFunc::NegFloat64
            | UnaryFunc::AbsFloat64
            | UnaryFunc::CeilFloat64
            | UnaryFunc::FloorFloat64
            | UnaryFunc::RoundFloat64
            | UnaryFunc::SqrtFloat64
            | UnaryFunc::CbrtFloat64
            | UnaryFunc::Cos
            | UnaryFunc::Cosh
            | UnaryFunc::Sin
            | UnaryFunc::Sinh
            | UnaryFunc::Tan
            | UnaryFunc::Tanh
            | UnaryFunc::Cot
            | UnaryFunc::Log10
            | UnaryFunc::Ln
            | UnaryFunc::Exp
            | UnaryFunc::CastFloat32ToFloat64 => ScalarTypeV::Float64,
            UnaryFunc::CastStringToInt16
            | UnaryFunc::CastInt32ToInt16
            | UnaryFunc::CastInt64ToInt16
            | UnaryFunc::CastNumericToInt16
            | UnaryFunc::CastJsonbToInt16
            | UnaryFunc::AbsInt16
            | UnaryFunc::NegInt16
            | UnaryFunc::BitNotInt16
            | UnaryFunc::CastFloat32ToInt16
            | UnaryFunc::CastFloat64ToInt16 => ScalarTypeV::Int16,
            UnaryFunc::CastStringToInt64
            | UnaryFunc::CastInt16ToInt64
            | UnaryFunc::CastInt32ToInt64
            | UnaryFunc::CastNumericToInt64
            | UnaryFunc::CastJsonbToInt64
            | UnaryFunc::JsonbArrayLength
            | UnaryFunc::ListLength
            | UnaryFunc::AbsInt64
            | UnaryFunc::NegInt64
            | UnaryFunc::BitNotInt64
            | UnaryFunc::CastFloat32ToInt64
            | UnaryFunc::CastFloat64ToInt64 => ScalarTypeV::Int64,
            UnaryFunc::CastInt32ToOid
            | UnaryFunc::CastRegProcToOid => ScalarTypeV::Oid,
            UnaryFunc::CastInt32ToRegProc
            | UnaryFunc::CastOidToRegProc => ScalarTypeV::RegProc,
            UnaryFunc::CastStringToDate
            | UnaryFunc::CastTimestampToDate
            | UnaryFunc::CastTimestampTzToDate => ScalarTypeV::Date,
            UnaryFunc::CastStringToTime
            | UnaryFunc::CastIntervalToTime
            | UnaryFunc::TimezoneTime { .. } => ScalarTypeV::Time,
            UnaryFunc::CastStringToTimestamp
            | UnaryFunc::CastDateToTimestamp
            | UnaryFunc::CastTimestampTzToTimestamp
            | UnaryFunc::TimezoneTimestampTz(_)
            | UnaryFunc::DateTruncTimestamp(_) => ScalarTypeV::Timestamp,
            UnaryFunc::CastStringToTimestampTz
            | UnaryFunc::CastDateToTimestampTz
            | UnaryFunc::CastTimestampToTimestampTz
            | UnaryFunc::TimezoneTimestamp(_)
            | UnaryFunc::DateTruncTimestampTz(_)
            | UnaryFunc::ToTimestamp
            | UnaryFunc::Sleep => ScalarTypeV::TimestampTz,
            UnaryFunc::AbsNumeric
            | UnaryFunc::CeilNumeric
            | UnaryFunc::ExpNumeric
            | UnaryFunc::FloorNumeric
            | UnaryFunc::LnNumeric
            | UnaryFunc::Log10Numeric
            | UnaryFunc::NegNumeric
            | UnaryFunc::RoundNumeric
            | UnaryFunc::SqrtNumeric => ScalarTypeV::Numeric { scale: None },
            UnaryFunc::CastStringToNumeric(scale)
            | UnaryFunc::CastInt16ToNumeric(scale)
            | UnaryFunc::CastInt32ToNumeric(scale)
            | UnaryFunc::CastInt64ToNumeric(scale)
            | UnaryFunc::CastFloat32ToNumeric(scale)
            | UnaryFunc::CastFloat64ToNumeric(scale)
            | UnaryFunc::CastJsonbToNumeric(scale) => ScalarTypeV::Numeric { scale },
            UnaryFunc::CastStringToArray { return_ty, .. }
            | UnaryFunc::CastStringToMap { return_ty, .. }
            | UnaryFunc::CastInPlace { return_ty } => return_ty@,
            UnaryFunc::CastList1ToList2 { return_ty, .. } | UnaryFunc::CastStringToList { return_ty, .. } => {
                return_ty@.default_embedded_value()
            },
            UnaryFunc::CastStringToChar { length, .. } | UnaryFunc::PadChar { length } => ScalarTypeV::Char { length },
            UnaryFunc::CastStringToVarChar { length, .. } => ScalarTypeV::VarChar { length },
            UnaryFunc::NegInterval => input,
            UnaryFunc::RecordGet(i) => input->Record_fields[i as int].1.scalar_type,
            UnaryFunc::RegexpMatch(_) => ScalarTypeV::Array(Box::new(ScalarTypeV::String)),
            UnaryFunc::RescaleNumeric(scale) => ScalarTypeV::Numeric { scale: Some(scale) },
        }
    }

    /// Whether the result is nullable for an argument of the given
    /// nullability: where the function introduces nulls, or propagates them
    /// and the argument is nullable.
    pub open spec fn output_nullable(self, nullable: bool) -> bool {
        self.introduces_nulls_spec() || (self.propagates_nulls_spec() && nullable)
    }

    /// The column type of the result for an argument of the given column
    /// type.
    pub fn output_type(&self, input_type: ColumnType) -> (r: ColumnType)
        requires
            self.typed_for(input_type.scalar_type@),
        ensures
            r.scalar_type@ == self.output_scalar_type(input_type.scalar_type@),
            r.nullable == self.output_nullable(input_type.nullable),
    {
        proof {
            reveal_with_fuel(crate::scalar_type::scalar_type_view, 3);
        }
        let nullable = if self.introduces_nulls() {
            true
        } else if self.propagates_nulls() {
            input_type.nullable
        } else {
            false
        };
        let scalar_type = match self {
            UnaryFunc::Ascii
            | UnaryFunc::CharLength
            | UnaryFunc::BitLengthBytes
            | UnaryFunc::BitLengthString
            | UnaryFunc::ByteLengthBytes
            | UnaryFunc::ByteLengthString
            | UnaryFunc::CastBoolToInt32
            | UnaryFunc::CastStringToInt32
            | UnaryFunc::CastInt16ToInt32
            | UnaryFunc::CastInt64ToInt32
            | UnaryFunc::CastNumericToInt32
            | UnaryFunc::CastOidToInt32
            | UnaryFunc::CastJsonbToInt32
            | UnaryFunc::AbsInt32
            | UnaryFunc::NegInt32
            | UnaryFunc::BitNotInt32
            | UnaryFunc::CastFloat32ToInt32
            | UnaryFunc::CastFloat64ToInt32
            | UnaryFunc::PgColumnSize
            | UnaryFunc::MzRowSize => ScalarType::Int32,
            UnaryFunc::IsRegexpMatch(_)
            | UnaryFunc::CastInt32ToBool
            | UnaryFunc::CastInt64ToBool
            | UnaryFunc::CastStringToBool
            | UnaryFunc::CastJsonbToBool
            | UnaryFunc::Not
            | UnaryFunc::IsNull
            | UnaryFunc::IsTrue
            | UnaryFunc::IsFalse => ScalarType::Bool,
            UnaryFunc::CastStringToBytes => ScalarType::Bytes,
            UnaryFunc::CastStringToInterval
            | UnaryFunc::CastTimeToInterval => ScalarType::Interval,
            UnaryFunc::CastStringToUuid => ScalarType::Uuid,
            UnaryFunc::CastStringToJsonb
            | UnaryFunc::CastJsonbOrNullToJsonb
            | UnaryFunc::JsonbStripNulls => ScalarType::Jsonb,
            UnaryFunc::CastBoolToString
            | UnaryFunc::CastBoolToStringNonstandard
            | UnaryFunc::CastCharToString
            | UnaryFunc::CastVarCharToString
            | UnaryFunc::CastInt16ToString
            | UnaryFunc::CastInt32ToString
            | UnaryFunc::CastInt64ToString
            | UnaryFunc::CastNumericToString
            | UnaryFunc::CastDateToString
            | UnaryFunc::CastTimeToString
            | UnaryFunc::CastTimestampToString
            | UnaryFunc::CastTimestampTzToString
            | UnaryFunc::CastIntervalToString
            | UnaryFunc::CastBytesToString
            | UnaryFunc::CastUuidToString
            | UnaryFunc::CastRecordToString { .. }
            | UnaryFunc::CastArrayToString { .. }
            | UnaryFunc::CastListToString { .. }
            | UnaryFunc::CastMapToString { .. }
            | UnaryFunc::TrimWhitespace
            | UnaryFunc::TrimLeadingWhitespace
            | UnaryFunc::TrimTrailingWhitespace
            | UnaryFunc::Upper
            | UnaryFunc::Lower
            | UnaryFunc::CastJsonbToString
            | UnaryFunc::JsonbTypeof
            | UnaryFunc::JsonbPretty
            | UnaryFunc::CastFloat32ToString
            | UnaryFunc::CastFloat64ToString => ScalarType::String,
            UnaryFunc::CastStringToFloat32
            | UnaryFunc::CastInt16ToFloat32
            | UnaryFunc::CastInt32ToFloat32
            | UnaryFunc::CastInt64ToFloat32
            | UnaryFunc::CastNumericToFloat32
            | UnaryFunc::CastJsonbToFloat32
            | UnaryFunc::NegFloat32
            | UnaryFunc::AbsFloat32
            | UnaryFunc::CeilFloat32
            | UnaryFunc::FloorFloat32
            | UnaryFunc::RoundFloat32
            | UnaryFunc::CastFloat64ToFloat32 => ScalarType::Float32,
            UnaryFunc::CastStringToFloat64
            | UnaryFunc::CastInt16ToFloat64
            | UnaryFunc::CastInt32ToFloat64
            | UnaryFunc::CastInt64ToFloat64
            | UnaryFunc::CastNumericToFloat64
            | UnaryFunc::CastJsonbToFloat64
            | UnaryFunc::DatePartInterval(_)
            | UnaryFunc::DatePartTimestamp(_)
            | UnaryFunc::DatePartTimestampTz(_)
            | UnaryFunc::NegFloat64
            | UnaryFunc::AbsFloat64
            | UnaryFunc::CeilFloat64
            | UnaryFunc::FloorFloat64
            | UnaryFunc::RoundFloat64
            | UnaryFunc::SqrtFloat64
            | UnaryFunc::CbrtFloat64
            | UnaryFunc::Cos
            | UnaryFunc::Cosh
            | UnaryFunc::Sin
            | UnaryFunc::Sinh
            | UnaryFunc::Tan
            | UnaryFunc::Tanh
            | UnaryFunc::Cot
            | UnaryFunc::Log10
            | UnaryFunc::Ln
            | UnaryFunc::Exp
            | UnaryFunc::CastFloat32ToFloat64 => ScalarType::Float64,
            UnaryFunc::CastStringToInt16
            | UnaryFunc::CastInt32ToInt16
            | UnaryFunc::CastInt64ToInt16
            | UnaryFunc::CastNumericToInt16
            | UnaryFunc::CastJsonbToInt16
            | UnaryFunc::AbsInt16
            | UnaryFunc::NegInt16
            | UnaryFunc::BitNotInt16
            | UnaryFunc::CastFloat32ToInt16
            | UnaryFunc::CastFloat64ToInt16 => ScalarType::Int16,
            UnaryFunc::CastStringToInt64
            | UnaryFunc::CastInt16ToInt64
            | UnaryFunc::CastInt32ToInt64
            | UnaryFunc::CastNumericToInt64
            | UnaryFunc::CastJsonbToInt64
            | UnaryFunc::JsonbArrayLength
            | UnaryFunc::ListLength
            | UnaryFunc::AbsInt64
            | UnaryFunc::NegInt64
            | UnaryFunc::BitNotInt64
            | UnaryFunc::CastFloat32ToInt64
            | UnaryFunc::CastFloat64ToInt64 => ScalarType::Int64,
            UnaryFunc::CastInt32ToOid
            | UnaryFunc::CastRegProcToOid => ScalarType::Oid,
            UnaryFunc::CastInt32ToRegProc
            | UnaryFunc::CastOidToRegProc => ScalarType::RegProc,
            UnaryFunc::CastStringToDate
            | UnaryFunc::CastTimestampToDate
            | UnaryFunc::CastTimestampTzToDate => ScalarType::Date,
            UnaryFunc::CastStringToTime
            | UnaryFunc::CastIntervalToTime
            | UnaryFunc::TimezoneTime { .. } => ScalarType::Time,
            UnaryFunc::CastStringToTimestamp
            | UnaryFunc::CastDateToTimestamp
            | UnaryFunc::CastTimestampTzToTimestamp
            | UnaryFunc::TimezoneTimestampTz(_)
            | UnaryFunc::DateTruncTimestamp(_) => ScalarType::Timestamp,
            UnaryFunc::CastStringToTimestampTz
            | UnaryFunc::CastDateToTimestampTz
            | UnaryFunc::CastTimestampToTimestampTz
            | UnaryFunc::TimezoneTimestamp(_)
            | UnaryFunc::DateTruncTimestampTz(_)
            | UnaryFunc::ToTimestamp
            | UnaryFunc::Sleep => ScalarType::TimestampTz,
            UnaryFunc::AbsNumeric
            | UnaryFunc::CeilNumeric
            | UnaryFunc::ExpNumeric
            | UnaryFunc::FloorNumeric
            | UnaryFunc::LnNumeric
            | UnaryFunc::Log10Numeric
            | UnaryFunc::NegNumeric
            | UnaryFunc::RoundNumeric
            | UnaryFunc::SqrtNumeric => ScalarType::Numeric { scale: None },
            UnaryFunc::CastStringToNumeric(scale)
            | UnaryFunc::CastInt16ToNumeric(scale)
            | UnaryFunc::CastInt32ToNumeric(scale)
            | UnaryFunc::CastInt64ToNumeric(scale)
            | UnaryFunc::CastFloat32ToNumeric(scale)
            | UnaryFunc::CastFloat64ToNumeric(scale)
            | UnaryFunc::CastJsonbToNumeric(scale) => ScalarType::Numeric { scale: *scale },
            UnaryFunc::CastStringToArray { return_ty, .. }
            | UnaryFunc::CastStringToMap { return_ty, .. }
            | UnaryFunc::CastInPlace { return_ty } => return_ty.clone(),
            UnaryFunc::CastList1ToList2 { return_ty, .. } | UnaryFunc::CastStringToList { return_ty, .. } => {
                return_ty.default_embedded_value()
            },
            UnaryFunc::CastStringToChar { length, .. } | UnaryFunc::PadChar { length } => ScalarType::Char {
                length: *length,
            },
            UnaryFunc::CastStringToVarChar { length, .. } => ScalarType::VarChar { length: *length },
            UnaryFunc::NegInterval => input_type.scalar_type,
            UnaryFunc::RecordGet(i) => {
                proof {
                    crate::scalar_type::lemma_record_view(input_type.scalar_type);
                }
                match &input_type.scalar_type {
                    ScalarType::Record { fields, .. } => fields[*i].1.scalar_type.clone(),
                    _ => ScalarType::Bool,
                }
            },
            UnaryFunc::RegexpMatch(_) => ScalarType::Array(Box::new(ScalarType::String)),
            UnaryFunc::RescaleNumeric(scale) => ScalarType::Numeric { scale: Some(*scale) },
        };
        scalar_type.nullable(nullable)
    }

    /// The name under which the function is shown.
    pub fn name(&self) -> (r: &'static str)
        ensures
            r@ == self.name_spec(),
    {
        match self {
            UnaryFunc::Not => "!",
            UnaryFunc::IsNull => "isnull",
            UnaryFunc::IsTrue => "istrue",
            UnaryFunc::IsFalse => "isfalse",
            UnaryFunc::BitNotInt16 => "~",
            UnaryFunc::BitNotInt32 => "~",
            UnaryFunc::BitNotInt64 => "~",
            UnaryFunc::NegInt16 => "-",
            UnaryFunc::NegInt32 => "-",
            UnaryFunc::NegInt64 => "-",
            UnaryFunc::NegFloat32 => "-",
            UnaryFunc::NegFloat64 => "-",
            UnaryFunc::NegNumeric => "-",
            UnaryFunc::NegInterval => "-",
            UnaryFunc::SqrtFloat64 => "sqrtf64",
            UnaryFunc::SqrtNumeric => "sqrtnumeric",
            UnaryFunc::CbrtFloat64 => "cbrtf64",
            UnaryFunc::AbsInt16 => "abs",
            UnaryFunc::AbsInt32 => "abs",
            UnaryFunc::AbsInt64 => "abs",
            UnaryFunc::AbsFloat32 => "abs",
            UnaryFunc::AbsFloat64 => "abs",
            UnaryFunc::AbsNumeric => "abs",
            UnaryFunc::CastBoolToString => "booltostr",
            UnaryFunc::CastBoolToStringNonstandard => "booltostrns",
            UnaryFunc::CastBoolToInt32 => "booltoi32",
            UnaryFunc::CastInt16ToFloat32 => "i16tof32",
            UnaryFunc::CastInt16ToFloat64 => "i16tof64",
            UnaryFunc::CastInt16ToInt32 => "i16toi32",
            UnaryFunc::CastInt16ToInt64 => "i16toi64",
            UnaryFunc::CastInt16ToString => "i16tostr",
            UnaryFunc::CastInt32ToBool => "i32tobool",
            UnaryFunc::CastInt32ToFloat32 => "i32tof32",
            UnaryFunc::CastInt32ToFloat64 => "i32tof64",
            UnaryFunc::CastInt32ToOid => "i32tooid",
            UnaryFunc::CastInt32ToRegProc => "i32toregproc",
            UnaryFunc::CastInt32ToInt16 => "i32toi16",
            UnaryFunc::CastInt32ToInt64 => "i32toi64",
            UnaryFunc::CastInt32ToString => "i32tostr",
            UnaryFunc::CastOidToInt32 => "oidtoi32",
            UnaryFunc::CastOidToRegProc => "oidtoregproc",
            UnaryFunc::CastRegProcToOid => "regproctooid",
            UnaryFunc::CastInt64ToInt16 => "i64toi16",
            UnaryFunc::CastInt64ToInt32 => "i64toi32",
            UnaryFunc::CastInt16ToNumeric(_) => "i16tonumeric",
            UnaryFunc::CastInt32ToNumeric(_) => "i32tonumeric",
            UnaryFunc::CastInt64ToBool => "i64tobool",
            UnaryFunc::CastInt64ToNumeric(_) => "i64tonumeric",
            UnaryFunc::CastInt64ToFloat32 => "i64tof32",
            UnaryFunc::CastInt64ToFloat64 => "i64tof64",
            UnaryFunc::CastInt64ToString => "i64tostr",
            UnaryFunc::CastFloat32ToInt16 => "f32toi16",
            UnaryFunc::CastFloat32ToInt32 => "f32toi32",
            UnaryFunc::CastFloat32ToInt64 => "f32toi64",
            UnaryFunc::CastFloat32ToFloat64 => "f32tof64",
            UnaryFunc::CastFloat32ToString => "f32tostr",
            UnaryFunc::CastFloat32ToNumeric(_) => "f32tonumeric",
            UnaryFunc::CastFloat64ToNumeric(_) => "f32tonumeric",
            UnaryFunc::CastFloat64ToInt16 => "f64toi16",
            UnaryFunc::CastFloat64ToInt32 => "f64toi32",
            UnaryFunc::CastFloat64ToInt64 => "f64toi64",
            UnaryFunc::CastFloat64ToFloat32 => "f64tof32",
            UnaryFunc::CastFloat64ToString => "f64tostr",
            UnaryFunc::CastNumericToFloat32 => "numerictof32",
            UnaryFunc::CastNumericToFloat64 => "numerictof64",
            UnaryFunc::CastNumericToInt16 => "numerictoi16",
            UnaryFunc::CastNumericToInt32 => "numerictoi32",
            UnaryFunc::CastNumericToInt64 => "numerictoi64",
            UnaryFunc::CastNumericToString => "numerictostr",
            UnaryFunc::CastStringToBool => "strtobool",
            UnaryFunc::CastStringToBytes => "strtobytes",
            UnaryFunc::CastStringToInt16 => "strtoi16",
            UnaryFunc::CastStringToInt32 => "strtoi32",
            UnaryFunc::CastStringToInt64 => "strtoi64",
            UnaryFunc::CastStringToFloat32 => "strtof32",
            UnaryFunc::CastStringToFloat64 => "strtof64",
            UnaryFunc::CastStringToDate => "strtodate",
            UnaryFunc::CastStringToArray { .. } => "strtoarray",
            UnaryFunc::CastStringToList { .. } => "strtolist",
            UnaryFunc::CastStringToMap { .. } => "strtomap",
            UnaryFunc::CastStringToTime => "strtotime",
            UnaryFunc::CastStringToTimestamp => "strtots",
            UnaryFunc::CastStringToTimestampTz => "strtotstz",
            UnaryFunc::CastStringToInterval => "strtoiv",
            UnaryFunc::CastStringToNumeric(_) => "strtonumeric",
            UnaryFunc::CastStringToUuid => "strtouuid",
            UnaryFunc::CastStringToChar { .. } => "strtochar",
            UnaryFunc::PadChar { .. } => "padchar",
            UnaryFunc::CastStringToVarChar { .. } => "strtovarchar",
            UnaryFunc::CastCharToString => "chartostr",
            UnaryFunc::CastVarCharToString => "varchartostr",
            UnaryFunc::CastDateToTimestamp => "datetots",
            UnaryFunc::CastDateToTimestampTz => "datetotstz",
            UnaryFunc::CastDateToString => "datetostr",
            UnaryFunc::CastTimeToInterval => "timetoiv",
            UnaryFunc::CastTimeToString => "timetostr",
            UnaryFunc::CastTimestampToDate => "tstodate",
            UnaryFunc::CastTimestampToTimestampTz => "tstotstz",
            UnaryFunc::CastTimestampToString => "tstostr",
            UnaryFunc::CastTimestampTzToDate => "tstodate",
            UnaryFunc::CastTimestampTzToTimestamp => "tstztots",
            UnaryFunc::CastTimestampTzToString => "tstztostr",
            UnaryFunc::CastIntervalToString => "ivtostr",
            UnaryFunc::CastIntervalToTime => "ivtotime",
            UnaryFunc::CastBytesToString => "bytestostr",
            UnaryFunc::CastStringToJsonb => "strtojsonb",
            UnaryFunc::CastJsonbToString => "jsonbtostr",
            UnaryFunc::CastJsonbOrNullToJsonb => "jsonb?tojsonb",
            UnaryFunc::CastJsonbToInt16 => "jsonbtoi16",
            UnaryFunc::CastJsonbToInt32 => "jsonbtoi32",
            UnaryFunc::CastJsonbToInt64 => "jsonbtoi64",
            UnaryFunc::CastJsonbToFloat32 => "jsonbtof32",
            UnaryFunc::CastJsonbToFloat64 => "jsonbtof64",
            UnaryFunc::CastJsonbToNumeric(_) => "jsonbtonumeric",
            UnaryFunc::CastJsonbToBool => "jsonbtobool",
            UnaryFunc::CastUuidToString => "uuidtostr",
            UnaryFunc::CastRecordToString { .. } => "recordtostr",
            UnaryFunc::CastArrayToString { .. } => "arraytostr",
            UnaryFunc::CastListToString { .. } => "listtostr",
            UnaryFunc::CastList1ToList2 { .. } => "list1tolist2",
            UnaryFunc::CastMapToString { .. } => "maptostr",
            UnaryFunc::CastInPlace { .. } => "castinplace",
            UnaryFunc::CeilFloat32 => "ceilf32",
            UnaryFunc::CeilFloat64 => "ceilf64",
            UnaryFunc::CeilNumeric => "ceilnumeric",
            UnaryFunc::FloorFloat32 => "floorf32",
            UnaryFunc::FloorFloat64 => "floorf64",
            UnaryFunc::FloorNumeric => "floornumeric",
            UnaryFunc::Ascii => "ascii",
            UnaryFunc::BitLengthBytes => "bit_length",
            UnaryFunc::BitLengthString => "bit_length",
            UnaryFunc::ByteLengthBytes => "octet_length",
            UnaryFunc::ByteLengthString => "octet_length",
            UnaryFunc::CharLength => "char_length",
            UnaryFunc::IsRegexpMatch(_) => "~",
            UnaryFunc::RegexpMatch(_) => "regexp_match",
            UnaryFunc::DatePartInterval(_) => "date_part_iv",
            UnaryFunc::DatePartTimestamp(_) => "date_part_ts",
            UnaryFunc::DatePartTimestampTz(_) => "date_part_tstz",
            UnaryFunc::DateTruncTimestamp(_) => "date_trunc_ts",
            UnaryFunc::DateTruncTimestampTz(_) => "date_trunc_tstz",
            UnaryFunc::TimezoneTimestamp(_) => "timezone_ts",
            UnaryFunc::TimezoneTimestampTz(_) => "timezone_tstz",
            UnaryFunc::TimezoneTime { .. } => "timezone_t",
            UnaryFunc::ToTimestamp => "tots",
            UnaryFunc::JsonbArrayLength => "jsonb_array_length",
            UnaryFunc::JsonbTypeof => "jsonb_typeof",
            UnaryFunc::JsonbStripNulls => "jsonb_strip_nulls",
            UnaryFunc::JsonbPretty => "jsonb_pretty",
            UnaryFunc::RoundFloat32 => "roundf32",
            UnaryFunc::RoundFloat64 => "roundf64",
            UnaryFunc::RoundNumeric => "roundnumeric",
            UnaryFunc::TrimWhitespace => "btrim",
            UnaryFunc::TrimLeadingWhitespace => "ltrim",
            UnaryFunc::TrimTrailingWhitespace => "rtrim",
            UnaryFunc::RecordGet(_) => "record_get",
            UnaryFunc::ListLength => "list_length",
            UnaryFunc::Upper => "upper",
            UnaryFunc::Lower => "lower",
            UnaryFunc::Cos => "cos",
            UnaryFunc::Cosh => "cosh",
            UnaryFunc::Sin => "sin",
            UnaryFunc::Sinh => "sinh",
            UnaryFunc::Tan => "tan",
            UnaryFunc::Tanh => "tanh",
            UnaryFunc::Cot => "cot",
            UnaryFunc::Log10 => "log10f64",
            UnaryFunc::Log10Numeric => "log10numeric",
            UnaryFunc::Ln => "lnf64",
            UnaryFunc::LnNumeric => "lnnumeric",
            UnaryFunc::Exp => "expf64",
            UnaryFunc::ExpNumeric => "expnumeric",
            UnaryFunc::Sleep => "mz_sleep",
            UnaryFunc::RescaleNumeric(_) => "rescale_numeric",
            UnaryFunc::PgColumnSize => "pg_column_size",
            UnaryFunc::MzRowSize => "mz_row_size",
        }
    }

    /// The name under which the function is shown.
    pub open spec fn name_spec(self) -> Seq<char> {
        match self {
            UnaryFunc::Not => "!"@,
            UnaryFunc::IsNull => "isnull"@,
            UnaryFunc::IsTrue => "istrue"@,
            UnaryFunc::IsFalse => "isfalse"@,
            UnaryFunc::BitNotInt16 => "~"@,
            UnaryFunc::BitNotInt32 => "~"@,
            UnaryFunc::BitNotInt64 => "~"@,
            UnaryFunc::NegInt16 => "-"@,
            UnaryFunc::NegInt32 => "-"@,
            UnaryFunc::NegInt64 => "-"@,
            UnaryFunc::NegFloat32 => "-"@,
            UnaryFunc::NegFloat64 => "-"@,
            UnaryFunc::NegNumeric => "-"@,
            UnaryFunc::NegInterval => "-"@,
            UnaryFunc::SqrtFloat64 => "sqrtf64"@,
            UnaryFunc::SqrtNumeric => "sqrtnumeric"@,
            UnaryFunc::CbrtFloat64 => "cbrtf64"@,
            UnaryFunc::AbsInt16 => "abs"@,
            UnaryFunc::AbsInt32 => "abs"@,
            UnaryFunc::AbsInt64 => "abs"@,
            UnaryFunc::AbsFloat32 => "abs"@,
            UnaryFunc::AbsFloat64 => "abs"@,
            UnaryFunc::AbsNumeric => "abs"@,
            UnaryFunc::CastBoolToString => "booltostr"@,
            UnaryFunc::CastBoolToStringNonstandard => "booltostrns"@,
            UnaryFunc::CastBoolToInt32 => "booltoi32"@,
            UnaryFunc::CastInt16ToFloat32 => "i16tof32"@,
            UnaryFunc::CastInt16ToFloat64 => "i16tof64"@,
            UnaryFunc::CastInt16ToInt32 => "i16toi32"@,
            UnaryFunc::CastInt16ToInt64 => "i16toi64"@,
            UnaryFunc::CastInt16ToString => "i16tostr"@,
            UnaryFunc::CastInt32ToBool => "i32tobool"@,
            UnaryFunc::CastInt32ToFloat32 => "i32tof32"@,
            UnaryFunc::CastInt32ToFloat64 => "i32tof64"@,
            UnaryFunc::CastInt32ToOid => "i32tooid"@,
            UnaryFunc::CastInt32ToRegProc => "i32toregproc"@,
            UnaryFunc::CastInt32ToInt16 => "i32toi16"@,
            UnaryFunc::CastInt32ToInt64 => "i32toi64"@,
            UnaryFunc::CastInt32ToString => "i32tostr"@,
            UnaryFunc::CastOidToInt32 => "oidtoi32"@,
            UnaryFunc::CastOidToRegProc => "oidtoregproc"@,
            UnaryFunc::CastRegProcToOid => "regproctooid"@,
            UnaryFunc::CastInt64ToInt16 => "i64toi16"@,
            UnaryFunc::CastInt64ToInt32 => "i64toi32"@,
            UnaryFunc::CastInt16ToNumeric(_) => "i16tonumeric"@,
            UnaryFunc::CastInt32ToNumeric(_) => "i32tonumeric"@,
            UnaryFunc::CastInt64ToBool => "i64tobool"@,
            UnaryFunc::CastInt64ToNumeric(_) => "i64tonumeric"@,
            UnaryFunc::CastInt64ToFloat32 => "i64tof32"@,
            UnaryFunc::CastInt64ToFloat64 => "i64tof64"@,
            UnaryFunc::CastInt64ToString => "i64tostr"@,
            UnaryFunc::CastFloat32ToInt16 => "f32toi16"@,
            UnaryFunc::CastFloat32ToInt32 => "f32toi32"@,
            UnaryFunc::CastFloat32ToInt64 => "f32toi64"@,
            UnaryFunc::CastFloat32ToFloat64 => "f32tof64"@,
            UnaryFunc::CastFloat32ToString => "f32tostr"@,
            UnaryFunc::CastFloat32ToNumeric(_) => "f32tonumeric"@,
            UnaryFunc::CastFloat64ToNumeric(_) => "f32tonumeric"@,
            UnaryFunc::CastFloat64ToInt16 => "f64toi16"@,
            UnaryFunc::CastFloat64ToInt32 => "f64toi32"@,
            UnaryFunc::CastFloat64ToInt64 => "f64toi64"@,
            UnaryFunc::CastFloat64ToFloat32 => "f64tof32"@,
            UnaryFunc::CastFloat64ToString => "f64tostr"@,
            UnaryFunc::CastNumericToFloat32 => "numerictof32"@,
            UnaryFunc::CastNumericToFloat64 => "numerictof64"@,
            UnaryFunc::CastNumericToInt16 => "numerictoi16"@,
            UnaryFunc::CastNumericToInt32 => "numerictoi32"@,
            UnaryFunc::CastNumericToInt64 => "numerictoi64"@,
            UnaryFunc::CastNumericToString => "numerictostr"@,
            UnaryFunc::CastStringToBool => "strtobool"@,
            UnaryFunc::CastStringToBytes => "strtobytes"@,
            UnaryFunc::CastStringToInt16 => "strtoi16"@,
            UnaryFunc::CastStringToInt32 => "strtoi32"@,
            UnaryFunc::CastStringToInt64 => "strtoi64"@,
            UnaryFunc::CastStringToFloat32 => "strtof32"@,
            UnaryFunc::CastStringToFloat64 => "strtof64"@,
            UnaryFunc::CastStringToDate => "strtodate"@,
            UnaryFunc::CastStringToArray { .. } => "strtoarray"@,
            UnaryFunc::CastStringToList { .. } => "strtolist"@,
            UnaryFunc::CastStringToMap { .. } => "strtomap"@,
            UnaryFunc::CastStringToTime => "strtotime"@,
            UnaryFunc::CastStringToTimestamp => "strtots"@,
            UnaryFunc::CastStringToTimestampTz => "strtotstz"@,
            UnaryFunc::CastStringToInterval => "strtoiv"@,
            UnaryFunc::CastStringToNumeric(_) => "strtonumeric"@,
            UnaryFunc::CastStringToUuid => "strtouuid"@,
            UnaryFunc::CastStringToChar { .. } => "strtochar"@,
            UnaryFunc::PadChar { .. } => "padchar"@,
            UnaryFunc::CastStringToVarChar { .. } => "strtovarchar"@,
            UnaryFunc::CastCharToString => "chartostr"@,
            UnaryFunc::CastVarCharToString => "varchartostr"@,
            UnaryFunc::CastDateToTimestamp => "datetots"@,
            UnaryFunc::CastDateToTimestampTz => "datetotstz"@,
            UnaryFunc::CastDateToString => "datetostr"@,
            UnaryFunc::CastTimeToInterval => "timetoiv"@,
            UnaryFunc::CastTimeToString => "timetostr"@,
            UnaryFunc::CastTimestampToDate => "tstodate"@,
            UnaryFunc::CastTimestampToTimestampTz => "tstotstz"@,
            UnaryFunc::CastTimestampToString => "tstostr"@,
            UnaryFunc::CastTimestampTzToDate => "tstodate"@,
            UnaryFunc::CastTimestampTzToTimestamp => "tstztots"@,
            UnaryFunc::CastTimestampTzToString => "tstztostr"@,
            UnaryFunc::CastIntervalToString => "ivtostr"@,
            UnaryFunc::CastIntervalToTime => "ivtotime"@,
            UnaryFunc::CastBytesToString => "bytestostr"@,
            UnaryFunc::CastStringToJsonb => "strtojsonb"@,
            UnaryFunc::CastJsonbToString => "jsonbtostr"@,
            UnaryFunc::CastJsonbOrNullToJsonb => "jsonb?tojsonb"@,
            UnaryFunc::CastJsonbToInt16 => "jsonbtoi16"@,
            UnaryFunc::CastJsonbToInt32 => "jsonbtoi32"@,
            UnaryFunc::CastJsonbToInt64 => "jsonbtoi64"@,
            UnaryFunc::CastJsonbToFloat32 => "jsonbtof32"@,
            UnaryFunc::CastJsonbToFloat64 => "jsonbtof64"@,
            UnaryFunc::CastJsonbToNumeric(_) => "jsonbtonumeric"@,
            UnaryFunc::CastJsonbToBool => "jsonbtobool"@,
            UnaryFunc::CastUuidToString => "uuidtostr"@,
            UnaryFunc::CastRecordToString { .. } => "recordtostr"@,
            UnaryFunc::CastArrayToString { .. } => "arraytostr"@,
            UnaryFunc::CastListToString { .. } => "listtostr"@,
            UnaryFunc::CastList1ToList2 { .. } => "list1tolist2"@,
            UnaryFunc::CastMapToString { .. } => "maptostr"@,
            UnaryFunc::CastInPlace { .. } => "castinplace"@,
            UnaryFunc::CeilFloat32 => "ceilf32"@,
            UnaryFunc::CeilFloat64 => "ceilf64"@,
            UnaryFunc::CeilNumeric => "ceilnumeric"@,
            UnaryFunc::FloorFloat32 => "floorf32"@,
            UnaryFunc::FloorFloat64 => "floorf64"@,
            UnaryFunc::FloorNumeric => "floornumeric"@,
            UnaryFunc::Ascii => "ascii"@,
            UnaryFunc::BitLengthBytes => "bit_length"@,
            UnaryFunc::BitLengthString => "bit_length"@,
            UnaryFunc::ByteLengthBytes => "octet_length"@,
            UnaryFunc::ByteLengthString => "octet_length"@,
            UnaryFunc::CharLength => "char_length"@,
            UnaryFunc::IsRegexpMatch(_) => "~"@,
            UnaryFunc::RegexpMatch(_) => "regexp_match"@,
            UnaryFunc::DatePartInterval(_) => "date_part_iv"@,
            UnaryFunc::DatePartTimestamp(_) => "date_part_ts"@,
            UnaryFunc::DatePartTimestampTz(_) => "date_part_tstz"@,
            UnaryFunc::DateTruncTimestamp(_) => "date_trunc_ts"@,
            UnaryFunc::DateTruncTimestampTz(_) => "date_trunc_tstz"@,
            UnaryFunc::TimezoneTimestamp(_) => "timezone_ts"@,
            UnaryFunc::TimezoneTimestampTz(_) => "timezone_tstz"@,
            UnaryFunc::TimezoneTime { .. } => "timezone_t"@,
            UnaryFunc::ToTimestamp => "tots"@,
            UnaryFunc::JsonbArrayLength => "jsonb_array_length"@,
            UnaryFunc::JsonbTypeof => "jsonb_typeof"@,
            UnaryFunc::JsonbStripNulls => "jsonb_strip_nulls"@,
            UnaryFunc::JsonbPretty => "jsonb_pretty"@,
            UnaryFunc::RoundFloat32 => "roundf32"@,
            UnaryFunc::RoundFloat64 => "roundf64"@,
            UnaryFunc::RoundNumeric => "roundnumeric"@,
            UnaryFunc::TrimWhitespace => "btrim"@,
            UnaryFunc::TrimLeadingWhitespace => "ltrim"@,
            UnaryFunc::TrimTrailingWhitespace => "rtrim"@,
            UnaryFunc::RecordGet(_) => "record_get"@,
            UnaryFunc::ListLength => "list_length"@,
            UnaryFunc::Upper => "upper"@,
            UnaryFunc::Lower => "lower"@,
            UnaryFunc::Cos => "cos"@,
            UnaryFunc::Cosh => "cosh"@,
            UnaryFunc::Sin => "sin"@,
            UnaryFunc::Sinh => "sinh"@,
            UnaryFunc::Tan => "tan"@,
            UnaryFunc::Tanh => "tanh"@,
            UnaryFunc::Cot => "cot"@,
            UnaryFunc::Log10 => "log10f64"@,
            UnaryFunc::Log10Numeric => "log10numeric"@,
            UnaryFunc::Ln => "lnf64"@,
            UnaryFunc::LnNumeric => "lnnumeric"@,
            UnaryFunc::Exp => "expf64"@,
            UnaryFunc::ExpNumeric => "expnumeric"@,
            UnaryFunc::Sleep => "mz_sleep"@,
            UnaryFunc::RescaleNumeric(_) => "rescale_numeric"@,
            UnaryFunc::PgColumnSize => "pg_column_size"@,
            UnaryFunc::MzRowSize => "mz_row_size"@,
        }
    }
}

/// The nullability of the result of a function of one argument is what
/// its two properties say: it is nullable exactly where the function
/// introduces nulls, or propagates them and the argument is nullable.
pub proof fn lemma_unary_nullability(f: UnaryFunc, nullable: bool)
    ensures
        f.output_nullable(nullable) == (f.introduces_nulls_spec() || (f.propagates_nulls_spec() && nullable)),
        f.output_nullable(true) == (f.introduces_nulls_spec() || f.propagates_nulls_spec()),
        f.output_nullable(false) == f.introduces_nulls_spec(),
{
}

} // verus!
