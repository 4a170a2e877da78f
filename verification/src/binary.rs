//! Functions of two arguments: what they are, and what types they give.

use vstd::prelude::*;
use crate::datum::Timestamp;
use crate::scalar_type::{ColumnType, ScalarType, ScalarTypeV};

verus! {

/// A function of two arguments.
#[derive(Clone, Debug, PartialEq, Eq, Hash)]
pub enum BinaryFunc {
    And,
    Or,
    AddInt16,
    AddInt32,
    AddInt64,
    AddFloat32,
    AddFloat64,
    AddInterval,
    AddTimestampInterval,
    AddTimestampTzInterval,
    AddDateInterval,
    AddDateTime,
    AddTimeInterval,
    AddNumeric,
    BitAndInt16,
    BitAndInt32,
    BitAndInt64,
    BitOrInt16,
    BitOrInt32,
    BitOrInt64,
    BitXorInt16,
    BitXorInt32,
    BitXorInt64,
    BitShiftLeftInt16,
    BitShiftLeftInt32,
    BitShiftLeftInt64,
    BitShiftRightInt16,
    BitShiftRightInt32,
    BitShiftRightInt64,
    SubInt16,
    SubInt32,
    SubInt64,
    SubFloat32,
    SubFloat64,
    SubInterval,
    SubTimestamp,
    SubTimestampTz,
    SubTimestampInterval,
    SubTimestampTzInterval,
    SubDate,
    SubDateInterval,
    SubTime,
    SubTimeInterval,
    SubNumeric,
    MulInt16,
    MulInt32,
    MulInt64,
    MulFloat32,
    MulFloat64,
    MulNumeric,
    MulInterval,
    DivInt16,
    DivInt32,
    DivInt64,
    DivFloat32,
    DivFloat64,
    DivNumeric,
    DivInterval,
    ModInt16,
    ModInt32,
    ModInt64,
    ModFloat32,
    ModFloat64,
    ModNumeric,
    RoundNumeric,
    Eq,
    NotEq,
    Lt,
    Lte,
    Gt,
    Gte,
    IsLikePatternMatch { case_insensitive: bool },
    IsRegexpMatch { case_insensitive: bool },
    ToCharTimestamp,
    ToCharTimestampTz,
    DatePartInterval,
    DatePartTimestamp,
    DatePartTimestampTz,
    DateTruncTimestamp,
    DateTruncTimestampTz,
    TimezoneTimestamp,
    TimezoneTimestampTz,
    TimezoneTime { wall_time: Timestamp },
    TimezoneIntervalTimestamp,
    TimezoneIntervalTimestampTz,
    TimezoneIntervalTime,
    TextConcat,
    JsonbGetInt64 { stringify: bool },
    JsonbGetString { stringify: bool },
    JsonbGetPath { stringify: bool },
    JsonbContainsString,
    JsonbConcat,
    JsonbContainsJsonb,
    JsonbDeleteInt64,
    JsonbDeleteString,
    MapContainsKey,
    MapGetValue,
    MapGetValues,
    MapContainsAllKeys,
    MapContainsAnyKeys,
    MapContainsMap,
    ConvertFrom,
    Left,
    Position,
    Right,
    RepeatString,
    Trim,
    TrimLeading,
    TrimTrailing,
    EncodedBytesCharLength,
    ListIndex,
    ListLengthMax { max_dim: usize },
    ArrayContains,
    ArrayIndex,
    ArrayLength,
    ArrayLower,
    ArrayUpper,
    ListListConcat,
    ListElementConcat,
    ElementListConcat,
    DigestString,
    DigestBytes,
    MzRenderTypemod,
    Encode,
    Decode,
    LogNumeric,
    Power,
    PowerNumeric,
}

impl BinaryFunc {
    /// Whether the result is null where an argument is null.
    pub open spec fn propagates_nulls_spec(&self) -> bool {
        !(self is And || self is Or || self is ListListConcat || self is ListElementConcat || self is ElementListConcat)
    }

    /// Whether the result is null where an argument is null.
    #[verifier::when_used_as_spec(propagates_nulls_spec)]
    pub fn propagates_nulls(&self) -> (r: bool)
        ensures
            r == self.propagates_nulls_spec(),
    {
        match self {
            BinaryFunc::And
            | BinaryFunc::Or
            | BinaryFunc::ListListConcat
            | BinaryFunc::ListElementConcat
            | BinaryFunc::ElementListConcat => false,
            _ => true,
        }
    }

    /// Whether the result can be null where no argument is.
    pub open spec fn introduces_nulls_spec(&self) -> bool {
        match self {
            BinaryFunc::And
            | BinaryFunc::Or
            | BinaryFunc::Eq
            | BinaryFunc::NotEq
            | BinaryFunc::Lt
            | BinaryFunc::Lte
            | BinaryFunc::Gt
            | BinaryFunc::Gte
            | BinaryFunc::AddInt16
            | BinaryFunc::AddInt32
            | BinaryFunc::AddInt64
            | BinaryFunc::AddFloat32
            | BinaryFunc::AddFloat64
            | BinaryFunc::AddTimestampInterval
            | BinaryFunc::AddTimestampTzInterval
            | BinaryFunc::AddDateTime
            | BinaryFunc::AddDateInterval
            | BinaryFunc::AddTimeInterval
            | BinaryFunc::AddInterval
            | BinaryFunc::BitAndInt16
            | BinaryFunc::BitAndInt32
            | BinaryFunc::BitAndInt64
            | BinaryFunc::BitOrInt16
            | BinaryFunc::BitOrInt32
            | BinaryFunc::BitOrInt64
            | BinaryFunc::BitXorInt16
            | BinaryFunc::BitXorInt32
            | BinaryFunc::BitXorInt64
            | BinaryFunc::BitShiftLeftInt16
            | BinaryFunc::BitShiftLeftInt32
            | BinaryFunc::BitShiftLeftInt64
            | BinaryFunc::BitShiftRightInt16
            | BinaryFunc::BitShiftRightInt32
            | BinaryFunc::BitShiftRightInt64
            | BinaryFunc::SubInterval
            | BinaryFunc::MulInterval
            | BinaryFunc::DivInterval
            | BinaryFunc::AddNumeric
            | BinaryFunc::SubInt16
            | BinaryFunc::SubInt32
            | BinaryFunc::SubInt64
            | BinaryFunc::SubFloat32
            | BinaryFunc::SubFloat64
            | BinaryFunc::SubTimestamp
            | BinaryFunc::SubTimestampTz
            | BinaryFunc::SubTimestampInterval
            | BinaryFunc::SubTimestampTzInterval
            | BinaryFunc::SubDate
            | BinaryFunc::SubDateInterval
            | BinaryFunc::SubTime
            | BinaryFunc::SubTimeInterval
            | BinaryFunc::SubNumeric
            | BinaryFunc::MulInt16
            | BinaryFunc::MulInt32
            | BinaryFunc::MulInt64
            | BinaryFunc::MulFloat32
            | BinaryFunc::MulFloat64
            | BinaryFunc::MulNumeric
            | BinaryFunc::DivInt16
            | BinaryFunc::DivInt32
            | BinaryFunc::DivInt64
            | BinaryFunc::DivFloat32
            | BinaryFunc::DivFloat64
            | BinaryFunc::ModInt16
            | BinaryFunc::ModInt32
            | BinaryFunc::ModInt64
            | BinaryFunc::ModFloat32
            | BinaryFunc::ModFloat64
            | BinaryFunc::ModNumeric => false,
            _ => true,
        }
    }

    /// Whether the result can be null where no argument is. The answer
    /// errs on the side of yes.
    #[verifier::when_used_as_spec(introduces_nulls_spec)]
    pub fn introduces_nulls(&self) -> (r: bool)
        ensures
            r == self.introduces_nulls_spec(),
    {
        match self {
            BinaryFunc::And
            | BinaryFunc::Or
            | BinaryFunc::Eq
            | BinaryFunc::NotEq
            | BinaryFunc::Lt
            | BinaryFunc::Lte
            | BinaryFunc::Gt
            | BinaryFunc::Gte
            | BinaryFunc::AddInt16
            | BinaryFunc::AddInt32
            | BinaryFunc::AddInt64
            | BinaryFunc::AddFloat32
            | BinaryFunc::AddFloat64
            | BinaryFunc::AddTimestampInterval
            | BinaryFunc::AddTimestampTzInterval
            | BinaryFunc::AddDateTime
            | BinaryFunc::AddDateInterval
            | BinaryFunc::AddTimeInterval
            | BinaryFunc::AddInterval
            | BinaryFunc::BitAndInt16
            | BinaryFunc::BitAndInt32
            | BinaryFunc::BitAndInt64
            | BinaryFunc::BitOrInt16
            | BinaryFunc::BitOrInt32
            | BinaryFunc::BitOrInt64
            | BinaryFunc::BitXorInt16
            | BinaryFunc::BitXorInt32
            | BinaryFunc::BitXorInt64
            | BinaryFunc::BitShiftLeftInt16
            | BinaryFunc::BitShiftLeftInt32
            | BinaryFunc::BitShiftLeftInt64
            | BinaryFunc::BitShiftRightInt16
            | BinaryFunc::BitShiftRightInt32
            | BinaryFunc::BitShiftRightInt64
            | BinaryFunc::SubInterval
            | BinaryFunc::MulInterval
            | BinaryFunc::DivInterval
            | BinaryFunc::AddNumeric
            | BinaryFunc::SubInt16
            | BinaryFunc::SubInt32
            | BinaryFunc::SubInt64
            | BinaryFunc::SubFloat32
            | BinaryFunc::SubFloat64
            | BinaryFunc::SubTimestamp
            | BinaryFunc::SubTimestampTz
            | BinaryFunc::SubTimestampInterval
            | BinaryFunc::SubTimestampTzInterval
            | BinaryFunc::SubDate
            | BinaryFunc::SubDateInterval
            | BinaryFunc::SubTime
            | BinaryFunc::SubTimeInterval
            | BinaryFunc::SubNumeric
            | BinaryFunc::MulInt16
            | BinaryFunc::MulInt32
            | BinaryFunc::MulInt64
            | BinaryFunc::MulFloat32
            | BinaryFunc::MulFloat64
            | BinaryFunc::MulNumeric
            | BinaryFunc::DivInt16
            | BinaryFunc::DivInt32
            | BinaryFunc::DivInt64
            | BinaryFunc::DivFloat32
            | BinaryFunc::DivFloat64
            | BinaryFunc::ModInt16
            | BinaryFunc::ModInt32
            | BinaryFunc::ModInt64
            | BinaryFunc::ModFloat32
            | BinaryFunc::ModFloat64
            | BinaryFunc::ModNumeric => false,
            _ => true,
        }
    }

    /// Whether the function is written between its arguments.
    pub open spec fn is_infix_op_spec(&self) -> bool {
        match self {
            BinaryFunc::And
            | BinaryFunc::Or
            | BinaryFunc::AddInt16
            | BinaryFunc::AddInt32
            | BinaryFunc::AddInt64
            | BinaryFunc::AddFloat32
            | BinaryFunc::AddFloat64
            | BinaryFunc::AddTimestampInterval
            | BinaryFunc::AddTimestampTzInterval
            | BinaryFunc::AddDateTime
            | BinaryFunc::AddDateInterval
            | BinaryFunc::AddTimeInterval
            | BinaryFunc::AddInterval
            | BinaryFunc::BitAndInt16
            | BinaryFunc::BitAndInt32
            | BinaryFunc::BitAndInt64
            | BinaryFunc::BitOrInt16
            | BinaryFunc::BitOrInt32
            | BinaryFunc::BitOrInt64
            | BinaryFunc::BitXorInt16
            | BinaryFunc::BitXorInt32
            | BinaryFunc::BitXorInt64
            | BinaryFunc::BitShiftLeftInt16
            | BinaryFunc::BitShiftLeftInt32
            | BinaryFunc::BitShiftLeftInt64
            | BinaryFunc::BitShiftRightInt16
            | BinaryFunc::BitShiftRightInt32
            | BinaryFunc::BitShiftRightInt64
            | BinaryFunc::SubInterval
            | BinaryFunc::MulInterval
            | BinaryFunc::DivInterval
            | BinaryFunc::AddNumeric
            | BinaryFunc::SubInt16
            | BinaryFunc::SubInt32
            | BinaryFunc::SubInt64
            | BinaryFunc::SubFloat32
            | BinaryFunc::SubFloat64
            | BinaryFunc::SubTimestamp
            | BinaryFunc::SubTimestampTz
            | BinaryFunc::SubTimestampInterval
            | BinaryFunc::SubTimestampTzInterval
            | BinaryFunc::SubDate
            | BinaryFunc::SubDateInterval
            | BinaryFunc::SubTime
            | BinaryFunc::SubTimeInterval
            | BinaryFunc::SubNumeric
            | BinaryFunc::MulInt16
            | BinaryFunc::MulInt32
            | BinaryFunc::MulInt64
            | BinaryFunc::MulFloat32
            | BinaryFunc::MulFloat64
            | BinaryFunc::MulNumeric
            | BinaryFunc::DivInt16
            | BinaryFunc::DivInt32
            | BinaryFunc::DivInt64
            | BinaryFunc::DivFloat32
            | BinaryFunc::DivFloat64
            | BinaryFunc::DivNumeric
            | BinaryFunc::ModInt16
            | BinaryFunc::ModInt32
            | BinaryFunc::ModInt64
            | BinaryFunc::ModFloat32
            | BinaryFunc::ModFloat64
            | BinaryFunc::ModNumeric
            | BinaryFunc::Eq
            | BinaryFunc::NotEq
            | BinaryFunc::Lt
            | BinaryFunc::Lte
            | BinaryFunc::Gt
            | BinaryFunc::Gte
            | BinaryFunc::JsonbConcat
            | BinaryFunc::JsonbContainsJsonb
            | BinaryFunc::JsonbGetInt64 { .. }
            | BinaryFunc::JsonbGetString { .. }
            | BinaryFunc::JsonbGetPath { .. }
            | BinaryFunc::JsonbContainsString
            | BinaryFunc::JsonbDeleteInt64
            | BinaryFunc::JsonbDeleteString
            | BinaryFunc::MapContainsKey
            | BinaryFunc::MapGetValue
            | BinaryFunc::MapGetValues
            | BinaryFunc::MapContainsAllKeys
            | BinaryFunc::MapContainsAnyKeys
            | BinaryFunc::MapContainsMap
            | BinaryFunc::TextConcat
            | BinaryFunc::ListIndex
            | BinaryFunc::IsRegexpMatch { .. }
            | BinaryFunc::ArrayContains
            | BinaryFunc::ArrayIndex
            | BinaryFunc::ArrayLength
            | BinaryFunc::ArrayLower
            | BinaryFunc::ArrayUpper
            | BinaryFunc::ListListConcat
            | BinaryFunc::ListElementConcat
            | BinaryFunc::ElementListConcat => true,
            _ => false,
        }
    }

    /// Whether the function is written between its arguments.
    #[verifier::when_used_as_spec(is_infix_op_spec)]
    pub fn is_infix_op(&self) -> (r: bool)
        ensures
            r == self.is_infix_op_spec(),
    {
        match self {
            BinaryFunc::And
            | BinaryFunc::Or
            | BinaryFunc::AddInt16
            | BinaryFunc::AddInt32
            | BinaryFunc::AddInt64
            | BinaryFunc::AddFloat32
            | BinaryFunc::AddFloat64
            | BinaryFunc::AddTimestampInterval
            | BinaryFunc::AddTimestampTzInterval
            | BinaryFunc::AddDateTime
            | BinaryFunc::AddDateInterval
            | BinaryFunc::AddTimeInterval
            | BinaryFunc::AddInterval
            | BinaryFunc::BitAndInt16
            | BinaryFunc::BitAndInt32
            | BinaryFunc::BitAndInt64
            | BinaryFunc::BitOrInt16
            | BinaryFunc::BitOrInt32
            | BinaryFunc::BitOrInt64
            | BinaryFunc::BitXorInt16
            | BinaryFunc::BitXorInt32
            | BinaryFunc::BitXorInt64
            | BinaryFunc::BitShiftLeftInt16
            | BinaryFunc::BitShiftLeftInt32
            | BinaryFunc::BitShiftLeftInt64
            | BinaryFunc::BitShiftRightInt16
            | BinaryFunc::BitShiftRightInt32
            | BinaryFunc::BitShiftRightInt64
            | BinaryFunc::SubInterval
            | BinaryFunc::MulInterval
            | BinaryFunc::DivInterval
            | BinaryFunc::AddNumeric
            | BinaryFunc::SubInt16
            | BinaryFunc::SubInt32
            | BinaryFunc::SubInt64
            | BinaryFunc::SubFloat32
            | BinaryFunc::SubFloat64
            | BinaryFunc::SubTimestamp
            | BinaryFunc::SubTimestampTz
            | BinaryFunc::SubTimestampInterval
            | BinaryFunc::SubTimestampTzInterval
            | BinaryFunc::SubDate
            | BinaryFunc::SubDateInterval
            | BinaryFunc::SubTime
            | BinaryFunc::SubTimeInterval
            | BinaryFunc::SubNumeric
            | BinaryFunc::MulInt16
            | BinaryFunc::MulInt32
            | BinaryFunc::MulInt64
            | BinaryFunc::MulFloat32
            | BinaryFunc::MulFloat64
            | BinaryFunc::MulNumeric
            | BinaryFunc::DivInt16
            | BinaryFunc::DivInt32
            | BinaryFunc::DivInt64
            | BinaryFunc::DivFloat32
            | BinaryFunc::DivFloat64
            | BinaryFunc::DivNumeric
            | BinaryFunc::ModInt16
            | BinaryFunc::ModInt32
            | BinaryFunc::ModInt64
            | BinaryFunc::ModFloat32
            | BinaryFunc::ModFloat64
            | BinaryFunc::ModNumeric
            | BinaryFunc::Eq
            | BinaryFunc::NotEq
            | BinaryFunc::Lt
            | BinaryFunc::Lte
            | BinaryFunc::Gt
            | BinaryFunc::Gte
            | BinaryFunc::JsonbConcat
            | BinaryFunc::JsonbContainsJsonb
            | BinaryFunc::JsonbGetInt64 { .. }
            | BinaryFunc::JsonbGetString { .. }
            | BinaryFunc::JsonbGetPath { .. }
            | BinaryFunc::JsonbContainsString
            | BinaryFunc::JsonbDeleteInt64
            | BinaryFunc::JsonbDeleteString
            | BinaryFunc::MapContainsKey
            | BinaryFunc::MapGetValue
            | BinaryFunc::MapGetValues
            | BinaryFunc::MapContainsAllKeys
            | BinaryFunc::MapContainsAnyKeys
            | BinaryFunc::MapContainsMap
            | BinaryFunc::TextConcat
            | BinaryFunc::ListIndex
            | BinaryFunc::IsRegexpMatch { .. }
            | BinaryFunc::ArrayContains
            | BinaryFunc::ArrayIndex
            | BinaryFunc::ArrayLength
            | BinaryFunc::ArrayLower
            | BinaryFunc::ArrayUpper
            | BinaryFunc::ListListConcat
            | BinaryFunc::ListElementConcat
            | BinaryFunc::ElementListConcat => true,
            BinaryFunc::RoundNumeric
            | BinaryFunc::IsLikePatternMatch { .. }
            | BinaryFunc::ToCharTimestamp
            | BinaryFunc::ToCharTimestampTz
            | BinaryFunc::DatePartInterval
            | BinaryFunc::DatePartTimestamp
            | BinaryFunc::DatePartTimestampTz
            | BinaryFunc::DateTruncTimestamp
            | BinaryFunc::DateTruncTimestampTz
            | BinaryFunc::TimezoneTimestamp
            | BinaryFunc::TimezoneTimestampTz
            | BinaryFunc::TimezoneTime { .. }
            | BinaryFunc::TimezoneIntervalTimestamp
            | BinaryFunc::TimezoneIntervalTimestampTz
            | BinaryFunc::TimezoneIntervalTime
            | BinaryFunc::ConvertFrom
            | BinaryFunc::Left
            | BinaryFunc::Position
            | BinaryFunc::Right
            | BinaryFunc::RepeatString
            | BinaryFunc::Trim
            | BinaryFunc::TrimLeading
            | BinaryFunc::TrimTrailing
            | BinaryFunc::EncodedBytesCharLength
            | BinaryFunc::ListLengthMax { .. }
            | BinaryFunc::DigestString
            | BinaryFunc::DigestBytes
            | BinaryFunc::MzRenderTypemod
            | BinaryFunc::Encode
            | BinaryFunc::Decode
            | BinaryFunc::LogNumeric
            | BinaryFunc::Power
            | BinaryFunc::PowerNumeric => false,
        }
    }

    /// The function that is true exactly where this one is false, for the
    /// comparisons.
    pub fn negate(&self) -> (r: Option<BinaryFunc>)
        ensures
            r == match self {
                BinaryFunc::Eq => Some(BinaryFunc::NotEq),
                BinaryFunc::NotEq => Some(BinaryFunc::Eq),
                BinaryFunc::Lt => Some(BinaryFunc::Gte),
                BinaryFunc::Gte => Some(BinaryFunc::Lt),
                BinaryFunc::Gt => Some(BinaryFunc::Lte),
                BinaryFunc::Lte => Some(BinaryFunc::Gt),
                _ => None,
            },
    {
        match self {
            BinaryFunc::Eq => Some(BinaryFunc::NotEq),
            BinaryFunc::NotEq => Some(BinaryFunc::Eq),
            BinaryFunc::Lt => Some(BinaryFunc::Gte),
            BinaryFunc::Gte => Some(BinaryFunc::Lt),
            BinaryFunc::Gt => Some(BinaryFunc::Lte),
            BinaryFunc::Lte => Some(BinaryFunc::Gt),
            _ => None,
        }
    }

    /// The types of arguments for which the function has a type: a map
    /// where it takes a value of a map, a list or an array where it takes
    /// an element.
    pub open spec fn typed_for(self, input1: ScalarTypeV, input2: ScalarTypeV) -> bool {
        match self {
            BinaryFunc::MapGetValue | BinaryFunc::MapGetValues => input1 is Dict,
            BinaryFunc::ListIndex => input1 is List,
            BinaryFunc::ArrayIndex => input1 is Array,
            _ => true,
        }
    }

    /// The scalar type of the result for arguments of the given scalar
    /// types.
    pub open spec fn output_scalar_type(self, input1: ScalarTypeV, input2: ScalarTypeV) -> ScalarTypeV {
        match self {
            BinaryFunc::And
            | BinaryFunc::Or
            | BinaryFunc::Eq
            | BinaryFunc::NotEq
            | BinaryFunc::Lt
            | BinaryFunc::Lte
            | BinaryFunc::Gt
            | BinaryFunc::Gte
            | BinaryFunc::ArrayContains
            | BinaryFunc::IsLikePatternMatch { .. }
            | BinaryFunc::IsRegexpMatch { .. }
            | BinaryFunc::JsonbContainsString
            | BinaryFunc::JsonbContainsJsonb
            | BinaryFunc::MapContainsKey
            | BinaryFunc::MapContainsAllKeys
            | BinaryFunc::MapContainsAnyKeys
            | BinaryFunc::MapContainsMap => ScalarTypeV::Bool,
            BinaryFunc::ToCharTimestamp
            | BinaryFunc::ToCharTimestampTz
            | BinaryFunc::ConvertFrom
            | BinaryFunc::Left
            | BinaryFunc::Right
            | BinaryFunc::Trim
            | BinaryFunc::TrimLeading
            | BinaryFunc::TrimTrailing
            | BinaryFunc::MzRenderTypemod
            | BinaryFunc::TextConcat
            | BinaryFunc::Encode => ScalarTypeV::String,
            BinaryFunc::AddInt16
            | BinaryFunc::SubInt16
            | BinaryFunc::MulInt16
            | BinaryFunc::DivInt16
            | BinaryFunc::ModInt16
            | BinaryFunc::BitAndInt16
            | BinaryFunc::BitOrInt16
            | BinaryFunc::BitXorInt16
            | BinaryFunc::BitShiftLeftInt16
            | BinaryFunc::BitShiftRightInt16 => ScalarTypeV::Int16,
            BinaryFunc::AddInt32
            | BinaryFunc::SubInt32
            | BinaryFunc::MulInt32
            | BinaryFunc::DivInt32
            | BinaryFunc::ModInt32
            | BinaryFunc::BitAndInt32
            | BinaryFunc::BitOrInt32
            | BinaryFunc::BitXorInt32
            | BinaryFunc::BitShiftLeftInt32
            | BinaryFunc::BitShiftRightInt32
            | BinaryFunc::EncodedBytesCharLength
            | BinaryFunc::SubDate
            | BinaryFunc::Position => ScalarTypeV::Int32,
            BinaryFunc::AddInt64
            | BinaryFunc::SubInt64
            | BinaryFunc::MulInt64
            | BinaryFunc::DivInt64
            | BinaryFunc::ModInt64
            | BinaryFunc::BitAndInt64
            | BinaryFunc::BitOrInt64
            | BinaryFunc::BitXorInt64
            | BinaryFunc::BitShiftLeftInt64
            | BinaryFunc::BitShiftRightInt64
            | BinaryFunc::ListLengthMax { .. }
            | BinaryFunc::ArrayLength
            | BinaryFunc::ArrayLower
            | BinaryFunc::ArrayUpper => ScalarTypeV::Int64,
            BinaryFunc::AddFloat32
            | BinaryFunc::SubFloat32
            | BinaryFunc::MulFloat32
            | BinaryFunc::DivFloat32
            | BinaryFunc::ModFloat32 => ScalarTypeV::Float32,
            BinaryFunc::AddFloat64
            | BinaryFunc::SubFloat64
            | BinaryFunc::MulFloat64
            | BinaryFunc::DivFloat64
            | BinaryFunc::ModFloat64
            | BinaryFunc::DatePartInterval
            | BinaryFunc::DatePartTimestamp
            | BinaryFunc::DatePartTimestampTz
            | BinaryFunc::Power => ScalarTypeV::Float64,
            BinaryFunc::AddInterval
            | BinaryFunc::SubInterval
            | BinaryFunc::SubTimestamp
            | BinaryFunc::SubTimestampTz
            | BinaryFunc::MulInterval
            | BinaryFunc::DivInterval
            | BinaryFunc::SubTime => ScalarTypeV::Interval,
            BinaryFunc::AddDateInterval
            | BinaryFunc::SubDateInterval
            | BinaryFunc::AddDateTime
            | BinaryFunc::DateTruncTimestamp
            | BinaryFunc::TimezoneTimestampTz
            | BinaryFunc::TimezoneIntervalTimestampTz => ScalarTypeV::Timestamp,
            BinaryFunc::DateTruncTimestampTz
            | BinaryFunc::TimezoneTimestamp
            | BinaryFunc::TimezoneIntervalTimestamp => ScalarTypeV::TimestampTz,
            BinaryFunc::TimezoneTime { .. }
            | BinaryFunc::TimezoneIntervalTime => ScalarTypeV::Time,
            BinaryFunc::JsonbConcat
            | BinaryFunc::JsonbDeleteInt64
            | BinaryFunc::JsonbDeleteString => ScalarTypeV::Jsonb,
            BinaryFunc::DigestString
            | BinaryFunc::DigestBytes
            | BinaryFunc::Decode => ScalarTypeV::Bytes,
            BinaryFunc::AddNumeric
            | BinaryFunc::DivNumeric
            | BinaryFunc::LogNumeric
            | BinaryFunc::ModNumeric
            | BinaryFunc::MulNumeric
            | BinaryFunc::PowerNumeric
            | BinaryFunc::RoundNumeric
            | BinaryFunc::SubNumeric => ScalarTypeV::Numeric { scale: None },
            BinaryFunc::AddTimestampInterval
            | BinaryFunc::SubTimestampInterval
            | BinaryFunc::AddTimestampTzInterval
            | BinaryFunc::SubTimestampTzInterval
            | BinaryFunc::AddTimeInterval
            | BinaryFunc::SubTimeInterval
            | BinaryFunc::RepeatString => input1,
            BinaryFunc::JsonbGetInt64 { stringify }
            | BinaryFunc::JsonbGetString { stringify }
            | BinaryFunc::JsonbGetPath { stringify } => if stringify {
                ScalarTypeV::String
            } else {
                ScalarTypeV::Jsonb
            },
            BinaryFunc::MapGetValue => *input1->Dict_value_type,
            BinaryFunc::MapGetValues => ScalarTypeV::Array(input1->Dict_value_type),
            BinaryFunc::ListIndex => *input1->List_element_type,
            BinaryFunc::ArrayIndex => *input1->Array_0,
            BinaryFunc::ListListConcat | BinaryFunc::ListElementConcat => input1.default_embedded_value(),
            BinaryFunc::ElementListConcat => input2.default_embedded_value(),
        }
    }

    /// Whether the result is nullable for arguments of the given
    /// nullability: where the function introduces nulls, or propagates them
    /// and an argument is nullable.
    pub open spec fn output_nullable(self, nullable1: bool, nullable2: bool) -> bool {
        self.introduces_nulls_spec() || (self.propagates_nulls_spec() && (nullable1 || nullable2))
    }

    /// The column type of the result for arguments of the given column
    /// types.
    pub fn output_type(&self, input1_type: ColumnType, input2_type: ColumnType) -> (r: ColumnType)
        requires
            self.typed_for(input1_type.scalar_type@, input2_type.scalar_type@),
        ensures
            r.scalar_type@ == self.output_scalar_type(input1_type.scalar_type@, input2_type.scalar_type@),
            r.nullable == self.output_nullable(input1_type.nullable, input2_type.nullable),
    {
        let nullable = self.introduces_nulls() || (self.propagates_nulls() && (input1_type.nullable
            || input2_type.nullable));
        let scalar_type = match self {
            BinaryFunc::And
            | BinaryFunc::Or
            | BinaryFunc::Eq
            | BinaryFunc::NotEq
            | BinaryFunc::Lt
            | BinaryFunc::Lte
            | BinaryFunc::Gt
            | BinaryFunc::Gte
            | BinaryFunc::ArrayContains
            | BinaryFunc::IsLikePatternMatch { .. }
            | BinaryFunc::IsRegexpMatch { .. }
            | BinaryFunc::JsonbContainsString
            | BinaryFunc::JsonbContainsJsonb
            | BinaryFunc::MapContainsKey
            | BinaryFunc::MapContainsAllKeys
            | BinaryFunc::MapContainsAnyKeys
            | BinaryFunc::MapContainsMap => ScalarType::Bool,
            BinaryFunc::ToCharTimestamp
            | BinaryFunc::ToCharTimestampTz
            | BinaryFunc::ConvertFrom
            | BinaryFunc::Left
            | BinaryFunc::Right
            | BinaryFunc::Trim
            | BinaryFunc::TrimLeading
            | BinaryFunc::TrimTrailing
            | BinaryFunc::MzRenderTypemod
            | BinaryFunc::TextConcat
            | BinaryFunc::Encode => ScalarType::String,
            BinaryFunc::AddInt16
            | BinaryFunc::SubInt16
            | BinaryFunc::MulInt16
            | BinaryFunc::DivInt16
            | BinaryFunc::ModInt16
            | BinaryFunc::BitAndInt16
            | BinaryFunc::BitOrInt16
            | BinaryFunc::BitXorInt16
            | BinaryFunc::BitShiftLeftInt16
            | BinaryFunc::BitShiftRightInt16 => ScalarType::Int16,
            BinaryFunc::AddInt32
            | BinaryFunc::SubInt32
            | BinaryFunc::MulInt32
            | BinaryFunc::DivInt32
            | BinaryFunc::ModInt32
            | BinaryFunc::BitAndInt32
            | BinaryFunc::BitOrInt32
            | BinaryFunc::BitXorInt32
            | BinaryFunc::BitShiftLeftInt32
            | BinaryFunc::BitShiftRightInt32
            | BinaryFunc::EncodedBytesCharLength
            | BinaryFunc::SubDate
            | BinaryFunc::Position => ScalarType::Int32,
            BinaryFunc::AddInt64
            | BinaryFunc::SubInt64
            | BinaryFunc::MulInt64
            | BinaryFunc::DivInt64
            | BinaryFunc::ModInt64
            | BinaryFunc::BitAndInt64
            | BinaryFunc::BitOrInt64
            | BinaryFunc::BitXorInt64
            | BinaryFunc::BitShiftLeftInt64
            | BinaryFunc::BitShiftRightInt64
            | BinaryFunc::ListLengthMax { .. }
            | BinaryFunc::ArrayLength
            | BinaryFunc::ArrayLower
            | BinaryFunc::ArrayUpper => ScalarType::Int64,
            BinaryFunc::AddFloat32
            | BinaryFunc::SubFloat32
            | BinaryFunc::MulFloat32
            | BinaryFunc::DivFloat32
            | BinaryFunc::ModFloat32 => ScalarType::Float32,
            BinaryFunc::AddFloat64
            | BinaryFunc::SubFloat64
            | BinaryFunc::MulFloat64
            | BinaryFunc::DivFloat64
            | BinaryFunc::ModFloat64
            | BinaryFunc::DatePartInterval
            | BinaryFunc::DatePartTimestamp
            | BinaryFunc::DatePartTimestampTz
            | BinaryFunc::Power => ScalarType::Float64,
            BinaryFunc::AddInterval
            | BinaryFunc::SubInterval
            | BinaryFunc::SubTimestamp
            | BinaryFunc::SubTimestampTz
            | BinaryFunc::MulInterval
            | BinaryFunc::DivInterval
            | BinaryFunc::SubTime => ScalarType::Interval,
            BinaryFunc::AddDateInterval
            | BinaryFunc::SubDateInterval
            | BinaryFunc::AddDateTime
            | BinaryFunc::DateTruncTimestamp
            | BinaryFunc::TimezoneTimestampTz
            | BinaryFunc::TimezoneIntervalTimestampTz => ScalarType::Timestamp,
            BinaryFunc::DateTruncTimestampTz
            | BinaryFunc::TimezoneTimestamp
            | BinaryFunc::TimezoneIntervalTimestamp => ScalarType::TimestampTz,
            BinaryFunc::TimezoneTime { .. }
            | BinaryFunc::TimezoneIntervalTime => ScalarType::Time,
            BinaryFunc::JsonbConcat
            | BinaryFunc::JsonbDeleteInt64
            | BinaryFunc::JsonbDeleteString => ScalarType::Jsonb,
            BinaryFunc::DigestString
            | BinaryFunc::DigestBytes
            | BinaryFunc::Decode => ScalarType::Bytes,
            BinaryFunc::AddNumeric
            | BinaryFunc::DivNumeric
            | BinaryFunc::LogNumeric
            | BinaryFunc::ModNumeric
            | BinaryFunc::MulNumeric
            | BinaryFunc::PowerNumeric
            | BinaryFunc::RoundNumeric
            | BinaryFunc::SubNumeric => ScalarType::Numeric { scale: None },
            BinaryFunc::AddTimestampInterval
            | BinaryFunc::SubTimestampInterval
            | BinaryFunc::AddTimestampTzInterval
            | BinaryFunc::SubTimestampTzInterval
            | BinaryFunc::AddTimeInterval
            | BinaryFunc::SubTimeInterval
            | BinaryFunc::RepeatString => input1_type.scalar_type,
            BinaryFunc::JsonbGetInt64 { stringify }
            | BinaryFunc::JsonbGetString { stringify }
            | BinaryFunc::JsonbGetPath { stringify } => if *stringify {
                ScalarType::String
            } else {
                ScalarType::Jsonb
            },
            BinaryFunc::MapGetValue => input1_type.scalar_type.unwrap_map_value_type().clone(),
            BinaryFunc::MapGetValues => ScalarType::Array(
                Box::new(input1_type.scalar_type.unwrap_map_value_type().clone()),
            ),
            BinaryFunc::ListIndex => input1_type.scalar_type.unwrap_list_element_type().clone(),
            BinaryFunc::ArrayIndex => input1_type.scalar_type.unwrap_array_element_type().clone(),
            BinaryFunc::ListListConcat | BinaryFunc::ListElementConcat => {
                input1_type.scalar_type.default_embedded_value()
            },
            BinaryFunc::ElementListConcat => input2_type.scalar_type.default_embedded_value(),
        };
        scalar_type.nullable(nullable)
    }

    /// The name or sign under which the function is shown.
    pub fn name(&self) -> (r: &'static str)
        ensures
            r@ == self.name_spec(),
    {
        match self {
            BinaryFunc::And => "&&",
            BinaryFunc::Or => "||",
            BinaryFunc::AddInt16 => "+",
            BinaryFunc::AddInt32 => "+",
            BinaryFunc::AddInt64 => "+",
            BinaryFunc::AddFloat32 => "+",
            BinaryFunc::AddFloat64 => "+",
            BinaryFunc::AddNumeric => "+",
            BinaryFunc::AddInterval => "+",
            BinaryFunc::AddTimestampInterval => "+",
            BinaryFunc::AddTimestampTzInterval => "+",
            BinaryFunc::AddDateTime => "+",
            BinaryFunc::AddDateInterval => "+",
            BinaryFunc::AddTimeInterval => "+",
            BinaryFunc::BitAndInt16 => "&",
            BinaryFunc::BitAndInt32 => "&",
            BinaryFunc::BitAndInt64 => "&",
            BinaryFunc::BitOrInt16 => "|",
            BinaryFunc::BitOrInt32 => "|",
            BinaryFunc::BitOrInt64 => "|",
            BinaryFunc::BitXorInt16 => "#",
            BinaryFunc::BitXorInt32 => "#",
            BinaryFunc::BitXorInt64 => "#",
            BinaryFunc::BitShiftLeftInt16 => "<<",
            BinaryFunc::BitShiftLeftInt32 => "<<",
            BinaryFunc::BitShiftLeftInt64 => "<<",
            BinaryFunc::BitShiftRightInt16 => ">>",
            BinaryFunc::BitShiftRightInt32 => ">>",
            BinaryFunc::BitShiftRightInt64 => ">>",
            BinaryFunc::SubInt16 => "-",
            BinaryFunc::SubInt32 => "-",
            BinaryFunc::SubInt64 => "-",
            BinaryFunc::SubFloat32 => "-",
            BinaryFunc::SubFloat64 => "-",
            BinaryFunc::SubNumeric => "-",
            BinaryFunc::SubInterval => "-",
            BinaryFunc::SubTimestamp => "-",
            BinaryFunc::SubTimestampTz => "-",
            BinaryFunc::SubTimestampInterval => "-",
            BinaryFunc::SubTimestampTzInterval => "-",
            BinaryFunc::SubDate => "-",
            BinaryFunc::SubDateInterval => "-",
            BinaryFunc::SubTime => "-",
            BinaryFunc::SubTimeInterval => "-",
            BinaryFunc::MulInt16 => "*",
            BinaryFunc::MulInt32 => "*",
            BinaryFunc::MulInt64 => "*",
            BinaryFunc::MulFloat32 => "*",
            BinaryFunc::MulFloat64 => "*",
            BinaryFunc::MulNumeric => "*",
            BinaryFunc::MulInterval => "*",
            BinaryFunc::DivInt16 => "/",
            BinaryFunc::DivInt32 => "/",
            BinaryFunc::DivInt64 => "/",
            BinaryFunc::DivFloat32 => "/",
            BinaryFunc::DivFloat64 => "/",
            BinaryFunc::DivNumeric => "/",
            BinaryFunc::DivInterval => "/",
            BinaryFunc::ModInt16 => "%",
            BinaryFunc::ModInt32 => "%",
            BinaryFunc::ModInt64 => "%",
            BinaryFunc::ModFloat32 => "%",
            BinaryFunc::ModFloat64 => "%",
            BinaryFunc::ModNumeric => "%",
            BinaryFunc::Eq => "=",
            BinaryFunc::NotEq => "!=",
            BinaryFunc::Lt => "<",
            BinaryFunc::Lte => "<=",
            BinaryFunc::Gt => ">",
            BinaryFunc::Gte => ">=",
            BinaryFunc::IsLikePatternMatch { case_insensitive: false } => "like",
            BinaryFunc::IsLikePatternMatch { case_insensitive: true } => "ilike",
            BinaryFunc::IsRegexpMatch { case_insensitive: false } => "~",
            BinaryFunc::IsRegexpMatch { case_insensitive: true } => "~*",
            BinaryFunc::ToCharTimestamp => "tocharts",
            BinaryFunc::ToCharTimestampTz => "tochartstz",
            BinaryFunc::DatePartInterval => "date_partiv",
            BinaryFunc::DatePartTimestamp => "date_partts",
            BinaryFunc::DatePartTimestampTz => "date_parttstz",
            BinaryFunc::DateTruncTimestamp => "date_truncts",
            BinaryFunc::DateTruncTimestampTz => "date_trunctstz",
            BinaryFunc::TimezoneTimestamp => "timezonets",
            BinaryFunc::TimezoneTimestampTz => "timezonetstz",
            BinaryFunc::TimezoneTime { .. } => "timezonet",
            BinaryFunc::TimezoneIntervalTimestamp => "timezoneits",
            BinaryFunc::TimezoneIntervalTimestampTz => "timezoneitstz",
            BinaryFunc::TimezoneIntervalTime => "timezoneit",
            BinaryFunc::TextConcat => "||",
            BinaryFunc::JsonbGetInt64 { stringify: false } => "->",
            BinaryFunc::JsonbGetInt64 { stringify: true } => "->>",
            BinaryFunc::JsonbGetString { stringify: false } => "->",
            BinaryFunc::JsonbGetString { stringify: true } => "->>",
            BinaryFunc::JsonbGetPath { stringify: false } => "#>",
            BinaryFunc::JsonbGetPath { stringify: true } => "#>>",
            BinaryFunc::JsonbContainsString
            | BinaryFunc::MapContainsKey => "?",
            BinaryFunc::JsonbConcat => "||",
            BinaryFunc::JsonbContainsJsonb
            | BinaryFunc::MapContainsMap => "@>",
            BinaryFunc::JsonbDeleteInt64 => "-",
            BinaryFunc::JsonbDeleteString => "-",
            BinaryFunc::MapGetValue
            | BinaryFunc::MapGetValues => "->",
            BinaryFunc::MapContainsAllKeys => "?&",
            BinaryFunc::MapContainsAnyKeys => "?|",
            BinaryFunc::RoundNumeric => "round",
            BinaryFunc::ConvertFrom => "convert_from",
            BinaryFunc::Left => "left",
            BinaryFunc::Position => "position",
            BinaryFunc::Right => "right",
            BinaryFunc::Trim => "btrim",
            BinaryFunc::TrimLeading => "ltrim",
            BinaryFunc::TrimTrailing => "rtrim",
            BinaryFunc::EncodedBytesCharLength => "length",
            BinaryFunc::ListIndex => "list_index",
            BinaryFunc::ListLengthMax { .. } => "list_length_max",
            BinaryFunc::ArrayContains => "array_contains",
            BinaryFunc::ArrayIndex => "array_index",
            BinaryFunc::ArrayLength => "array_length",
            BinaryFunc::ArrayLower => "array_lower",
            BinaryFunc::ArrayUpper => "array_upper",
            BinaryFunc::ListListConcat => "||",
            BinaryFunc::ListElementConcat => "||",
            BinaryFunc::ElementListConcat => "||",
            BinaryFunc::DigestString
            | BinaryFunc::DigestBytes => "digest",
            BinaryFunc::MzRenderTypemod => "mz_render_typemod",
            BinaryFunc::Encode => "encode",
            BinaryFunc::Decode => "decode",
            BinaryFunc::LogNumeric => "log",
            BinaryFunc::Power => "power",
            BinaryFunc::PowerNumeric => "power_numeric",
            BinaryFunc::RepeatString => "repeat",
        }
    }

    /// The name or sign under which the function is shown.
    pub open spec fn name_spec(self) -> Seq<char> {
        match self {
            BinaryFunc::And => "&&"@,
            BinaryFunc::Or => "||"@,
            BinaryFunc::AddInt16 => "+"@,
            BinaryFunc::AddInt32 => "+"@,
            BinaryFunc::AddInt64 => "+"@,
            BinaryFunc::AddFloat32 => "+"@,
            BinaryFunc::AddFloat64 => "+"@,
            BinaryFunc::AddNumeric => "+"@,
            BinaryFunc::AddInterval => "+"@,
            BinaryFunc::AddTimestampInterval => "+"@,
            BinaryFunc::AddTimestampTzInterval => "+"@,
            BinaryFunc::AddDateTime => "+"@,
            BinaryFunc::AddDateInterval => "+"@,
            BinaryFunc::AddTimeInterval => "+"@,
            BinaryFunc::BitAndInt16 => "&"@,
            BinaryFunc::BitAndInt32 => "&"@,
            BinaryFunc::BitAndInt64 => "&"@,
            BinaryFunc::BitOrInt16 => "|"@,
            BinaryFunc::BitOrInt32 => "|"@,
            BinaryFunc::BitOrInt64 => "|"@,
            BinaryFunc::BitXorInt16 => "#"@,
            BinaryFunc::BitXorInt32 => "#"@,
            BinaryFunc::BitXorInt64 => "#"@,
            BinaryFunc::BitShiftLeftInt16 => "<<"@,
            BinaryFunc::BitShiftLeftInt32 => "<<"@,
            BinaryFunc::BitShiftLeftInt64 => "<<"@,
            BinaryFunc::BitShiftRightInt16 => ">>"@,
            BinaryFunc::BitShiftRightInt32 => ">>"@,
            BinaryFunc::BitShiftRightInt64 => ">>"@,
            BinaryFunc::SubInt16 => "-"@,
            BinaryFunc::SubInt32 => "-"@,
            BinaryFunc::SubInt64 => "-"@,
            BinaryFunc::SubFloat32 => "-"@,
            BinaryFunc::SubFloat64 => "-"@,
            BinaryFunc::SubNumeric => "-"@,
            BinaryFunc::SubInterval => "-"@,
            BinaryFunc::SubTimestamp => "-"@,
            BinaryFunc::SubTimestampTz => "-"@,
            BinaryFunc::SubTimestampInterval => "-"@,
            BinaryFunc::SubTimestampTzInterval => "-"@,
            BinaryFunc::SubDate => "-"@,
            BinaryFunc::SubDateInterval => "-"@,
            BinaryFunc::SubTime => "-"@,
            BinaryFunc::SubTimeInterval => "-"@,
            BinaryFunc::MulInt16 => "*"@,
            BinaryFunc::MulInt32 => "*"@,
            BinaryFunc::MulInt64 => "*"@,
            BinaryFunc::MulFloat32 => "*"@,
            BinaryFunc::MulFloat64 => "*"@,
            BinaryFunc::MulNumeric => "*"@,
            BinaryFunc::MulInterval => "*"@,
            BinaryFunc::DivInt16 => "/"@,
            BinaryFunc::DivInt32 => "/"@,
            BinaryFunc::DivInt64 => "/"@,
            BinaryFunc::DivFloat32 => "/"@,
            BinaryFunc::DivFloat64 => "/"@,
            BinaryFunc::DivNumeric => "/"@,
            BinaryFunc::DivInterval => "/"@,
            BinaryFunc::ModInt16 => "%"@,
            BinaryFunc::ModInt32 => "%"@,
            BinaryFunc::ModInt64 => "%"@,
            BinaryFunc::ModFloat32 => "%"@,
            BinaryFunc::ModFloat64 => "%"@,
            BinaryFunc::ModNumeric => "%"@,
            BinaryFunc::Eq => "="@,
            BinaryFunc::NotEq => "!="@,
            BinaryFunc::Lt => "<"@,
            BinaryFunc::Lte => "<="@,
            BinaryFunc::Gt => ">"@,
            BinaryFunc::Gte => ">="@,
            BinaryFunc::IsLikePatternMatch { case_insensitive: false } => "like"@,
            BinaryFunc::IsLikePatternMatch { case_insensitive: true } => "ilike"@,
            BinaryFunc::IsRegexpMatch { case_insensitive: false } => "~"@,
            BinaryFunc::IsRegexpMatch { case_insensitive: true } => "~*"@,
            BinaryFunc::ToCharTimestamp => "tocharts"@,
            BinaryFunc::ToCharTimestampTz => "tochartstz"@,
            BinaryFunc::DatePartInterval => "date_partiv"@,
            BinaryFunc::DatePartTimestamp => "date_partts"@,
            BinaryFunc::DatePartTimestampTz => "date_parttstz"@,
            BinaryFunc::DateTruncTimestamp => "date_truncts"@,
            BinaryFunc::DateTruncTimestampTz => "date_trunctstz"@,
            BinaryFunc::TimezoneTimestamp => "timezonets"@,
            BinaryFunc::TimezoneTimestampTz => "timezonetstz"@,
            BinaryFunc::TimezoneTime { .. } => "timezonet"@,
            BinaryFunc::TimezoneIntervalTimestamp => "timezoneits"@,
            BinaryFunc::TimezoneIntervalTimestampTz => "timezoneitstz"@,
            BinaryFunc::TimezoneIntervalTime => "timezoneit"@,
            BinaryFunc::TextConcat => "||"@,
            BinaryFunc::JsonbGetInt64 { stringify: false } => "->"@,
            BinaryFunc::JsonbGetInt64 { stringify: true } => "->>"@,
            BinaryFunc::JsonbGetString { stringify: false } => "->"@,
            BinaryFunc::JsonbGetString { stringify: true } => "->>"@,
            BinaryFunc::JsonbGetPath { stringify: false } => "#>"@,
            BinaryFunc::JsonbGetPath { stringify: true } => "#>>"@,
            BinaryFunc::JsonbContainsString
            | BinaryFunc::MapContainsKey => "?"@,
            BinaryFunc::JsonbConcat => "||"@,
            BinaryFunc::JsonbContainsJsonb
            | BinaryFunc::MapContainsMap => "@>"@,
            BinaryFunc::JsonbDeleteInt64 => "-"@,
            BinaryFunc::JsonbDeleteString => "-"@,
            BinaryFunc::MapGetValue
            | BinaryFunc::MapGetValues => "->"@,
            BinaryFunc::MapContainsAllKeys => "?&"@,
            BinaryFunc::MapContainsAnyKeys => "?|"@,
            BinaryFunc::RoundNumeric => "round"@,
            BinaryFunc::ConvertFrom => "convert_from"@,
            BinaryFunc::Left => "left"@,
            BinaryFunc::Position => "position"@,
            BinaryFunc::Right => "right"@,
            BinaryFunc::Trim => "btrim"@,
            BinaryFunc::TrimLeading => "ltrim"@,
            BinaryFunc::TrimTrailing => "rtrim"@,
            BinaryFunc::EncodedBytesCharLength => "length"@,
            BinaryFunc::ListIndex => "list_index"@,
            BinaryFunc::ListLengthMax { .. } => "list_length_max"@,
            BinaryFunc::ArrayContains => "array_contains"@,
            BinaryFunc::ArrayIndex => "array_index"@,
            BinaryFunc::ArrayLength => "array_length"@,
            BinaryFunc::ArrayLower => "array_lower"@,
            BinaryFunc::ArrayUpper => "array_upper"@,
            BinaryFunc::ListListConcat => "||"@,
            BinaryFunc::ListElementConcat => "||"@,
            BinaryFunc::ElementListConcat => "||"@,
            BinaryFunc::DigestString
            | BinaryFunc::DigestBytes => "digest"@,
            BinaryFunc::MzRenderTypemod => "mz_render_typemod"@,
            BinaryFunc::Encode => "encode"@,
            BinaryFunc::Decode => "decode"@,
            BinaryFunc::LogNumeric => "log"@,
            BinaryFunc::Power => "power"@,
            BinaryFunc::PowerNumeric => "power_numeric"@,
            BinaryFunc::RepeatString => "repeat"@,
        }
    }
}

/// The nullability of the result of a function of two arguments is what
/// its two properties say: it is nullable exactly where the function
/// introduces nulls, or propagates them and an argument is nullable.
pub proof fn lemma_binary_nullability(f: BinaryFunc, nullable1: bool, nullable2: bool)
    ensures
        f.output_nullable(nullable1, nullable2) == (f.introduces_nulls_spec() || (f.propagates_nulls_spec() && (
            nullable1 || nullable2))),
        f.output_nullable(true, true) == (f.introduces_nulls_spec() || f.propagates_nulls_spec()),
        f.output_nullable(false, false) == f.introduces_nulls_spec(),
{
}

} // verus!
