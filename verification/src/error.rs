//! The closed set of failures that evaluation can report.

use vstd::prelude::*;
use crate::units::DateTimeUnits;

verus! {

/// A failure of evaluation. Every data-dependent failure is one of these
/// variants; none is raised as a panic.
#[derive(Debug, PartialEq, Eq, Hash)]
pub enum EvalError {
    DivisionByZero,
    FloatOverflow,
    FloatUnderflow,
    NumericFieldOverflow,
    Float32OutOfRange,
    Float64OutOfRange,
    Int16OutOfRange,
    Int32OutOfRange,
    Int64OutOfRange,
    IntervalOutOfRange,
    TimestampOutOfRange,
    InvalidDimension { max_dim: usize, val: i64 },
    InvalidHashAlgorithm(String),
    InvalidByteSequence { byte_sequence: String, encoding_name: String },
    InvalidJsonbCast { from: String, to: String },
    InvalidRegex(String),
    InvalidRegexFlag(char),
    UnterminatedLikeEscapeSequence,
    InvalidParameterValue(String),
    NegSqrt,
    UnknownUnits(String),
    UnsupportedDateTimeUnits(DateTimeUnits),
    InvalidEncodingName(String),
    InvalidInputSyntax { target: String, input: String },
    ValueOutOfRange { target: String, input: String },
    InfinityOutOfDomain(String),
    NegativeOutOfDomain(String),
    ZeroOutOfDomain(String),
    ComplexOutOfRange(String),
    Undefined(String),
    StringValueTooLong { target_type: String, length: usize },
    InvalidTimezone(String),
    InvalidTimezoneInterval,
    InvalidTimezoneConversion,
    TooManyArrayDimensions(usize),
    WrongArrayCardinality { actual: usize, expected: usize },
    Internal(String),
}

/// The mathematical value of an [`EvalError`]: the same variants, with text
/// as sequences of characters.
pub enum EvalErrorV {
    DivisionByZero,
    FloatOverflow,
    FloatUnderflow,
    NumericFieldOverflow,
    Float32OutOfRange,
    Float64OutOfRange,
    Int16OutOfRange,
    Int32OutOfRange,
    Int64OutOfRange,
    IntervalOutOfRange,
    TimestampOutOfRange,
    InvalidDimension { max_dim: usize, val: i64 },
    InvalidHashAlgorithm(Seq<char>),
    InvalidByteSequence { byte_sequence: Seq<char>, encoding_name: Seq<char> },
    InvalidJsonbCast { from: Seq<char>, to: Seq<char> },
    InvalidRegex(Seq<char>),
    InvalidRegexFlag(char),
    UnterminatedLikeEscapeSequence,
    InvalidParameterValue(Seq<char>),
    NegSqrt,
    UnknownUnits(Seq<char>),
    UnsupportedDateTimeUnits(DateTimeUnits),
    InvalidEncodingName(Seq<char>),
    InvalidInputSyntax { target: Seq<char>, input: Seq<char> },
    ValueOutOfRange { target: Seq<char>, input: Seq<char> },
    InfinityOutOfDomain(Seq<char>),
    NegativeOutOfDomain(Seq<char>),
    ZeroOutOfDomain(Seq<char>),
    ComplexOutOfRange(Seq<char>),
    Undefined(Seq<char>),
    StringValueTooLong { target_type: Seq<char>, length: usize },
    InvalidTimezone(Seq<char>),
    InvalidTimezoneInterval,
    InvalidTimezoneConversion,
    TooManyArrayDimensions(usize),
    WrongArrayCardinality { actual: usize, expected: usize },
    Internal(Seq<char>),
}

impl View for EvalError {
    type V = EvalErrorV;

    open spec fn view(&self) -> EvalErrorV {
        match self {
            EvalError::DivisionByZero => EvalErrorV::DivisionByZero,
            EvalError::FloatOverflow => EvalErrorV::FloatOverflow,
            EvalError::FloatUnderflow => EvalErrorV::FloatUnderflow,
            EvalError::NumericFieldOverflow => EvalErrorV::NumericFieldOverflow,
            EvalError::Float32OutOfRange => EvalErrorV::Float32OutOfRange,
            EvalError::Float64OutOfRange => EvalErrorV::Float64OutOfRange,
            EvalError::Int16OutOfRange => EvalErrorV::Int16OutOfRange,
            EvalError::Int32OutOfRange => EvalErrorV::Int32OutOfRange,
            EvalError::Int64OutOfRange => EvalErrorV::Int64OutOfRange,
            EvalError::IntervalOutOfRange => EvalErrorV::IntervalOutOfRange,
            EvalError::TimestampOutOfRange => EvalErrorV::TimestampOutOfRange,
            EvalError::InvalidDimension { max_dim, val } => EvalErrorV::InvalidDimension {
                max_dim: *max_dim,
                val: *val,
            },
            EvalError::InvalidHashAlgorithm(s) => EvalErrorV::InvalidHashAlgorithm(s@),
            EvalError::InvalidByteSequence { byte_sequence, encoding_name } => {
                EvalErrorV::InvalidByteSequence {
                    byte_sequence: byte_sequence@,
                    encoding_name: encoding_name@,
                }
            },
            EvalError::InvalidJsonbCast { from, to } => EvalErrorV::InvalidJsonbCast {
                from: from@,
                to: to@,
            },
            EvalError::InvalidRegex(s) => EvalErrorV::InvalidRegex(s@),
            EvalError::InvalidRegexFlag(c) => EvalErrorV::InvalidRegexFlag(*c),
            EvalError::UnterminatedLikeEscapeSequence => EvalErrorV::UnterminatedLikeEscapeSequence,
            EvalError::InvalidParameterValue(s) => EvalErrorV::InvalidParameterValue(s@),
            EvalError::NegSqrt => EvalErrorV::NegSqrt,
            EvalError::UnknownUnits(s) => EvalErrorV::UnknownUnits(s@),
            EvalError::UnsupportedDateTimeUnits(u) => EvalErrorV::UnsupportedDateTimeUnits(*u),
            EvalError::InvalidEncodingName(s) => EvalErrorV::InvalidEncodingName(s@),
            EvalError::InvalidInputSyntax { target, input } => EvalErrorV::InvalidInputSyntax {
                target: target@,
                input: input@,
            },
            EvalError::ValueOutOfRange { target, input } => EvalErrorV::ValueOutOfRange {
                target: target@,
                input: input@,
            },
            EvalError::InfinityOutOfDomain(s) => EvalErrorV::InfinityOutOfDomain(s@),
            EvalError::NegativeOutOfDomain(s) => EvalErrorV::NegativeOutOfDomain(s@),
            EvalError::ZeroOutOfDomain(s) => EvalErrorV::ZeroOutOfDomain(s@),
            EvalError::ComplexOutOfRange(s) => EvalErrorV::ComplexOutOfRange(s@),
            EvalError::Undefined(s) => EvalErrorV::Undefined(s@),
            EvalError::StringValueTooLong { target_type, length } => {
                EvalErrorV::StringValueTooLong { target_type: target_type@, length: *length }
            },
            EvalError::InvalidTimezone(s) => EvalErrorV::InvalidTimezone(s@),
            EvalError::InvalidTimezoneInterval => EvalErrorV::InvalidTimezoneInterval,
            EvalError::InvalidTimezoneConversion => EvalErrorV::InvalidTimezoneConversion,
            EvalError::TooManyArrayDimensions(n) => EvalErrorV::TooManyArrayDimensions(*n),
            EvalError::WrongArrayCardinality { actual, expected } => EvalErrorV::WrongArrayCardinality {
                actual: *actual,
                expected: *expected,
            },
            EvalError::Internal(s) => EvalErrorV::Internal(s@),
        }
    }
}

impl Clone for EvalError {
    fn clone(&self) -> (r: Self)
        ensures
            r@ == self@,
    {
        match self {
            EvalError::DivisionByZero => EvalError::DivisionByZero,
            EvalError::FloatOverflow => EvalError::FloatOverflow,
            EvalError::FloatUnderflow => EvalError::FloatUnderflow,
            EvalError::NumericFieldOverflow => EvalError::NumericFieldOverflow,
            EvalError::Float32OutOfRange => EvalError::Float32OutOfRange,
            EvalError::Float64OutOfRange => EvalError::Float64OutOfRange,
            EvalError::Int16OutOfRange => EvalError::Int16OutOfRange,
            EvalError::Int32OutOfRange => EvalError::Int32OutOfRange,
            EvalError::Int64OutOfRange => EvalError::Int64OutOfRange,
            EvalError::IntervalOutOfRange => EvalError::IntervalOutOfRange,
            EvalError::TimestampOutOfRange => EvalError::TimestampOutOfRange,
            EvalError::InvalidDimension { max_dim, val } => EvalError::InvalidDimension {
                max_dim: *max_dim,
                val: *val,
            },
            EvalError::InvalidHashAlgorithm(s) => EvalError::InvalidHashAlgorithm(s.clone()),
            EvalError::InvalidByteSequence { byte_sequence, encoding_name } => {
                EvalError::InvalidByteSequence {
                    byte_sequence: byte_sequence.clone(),
                    encoding_name: encoding_name.clone(),
                }
            },
            EvalError::InvalidJsonbCast { from, to } => EvalError::InvalidJsonbCast {
                from: from.clone(),
                to: to.clone(),
            },
            EvalError::InvalidRegex(s) => EvalError::InvalidRegex(s.clone()),
            EvalError::InvalidRegexFlag(c) => EvalError::InvalidRegexFlag(*c),
            EvalError::UnterminatedLikeEscapeSequence => EvalError::UnterminatedLikeEscapeSequence,
            EvalError::InvalidParameterValue(s) => EvalError::InvalidParameterValue(s.clone()),
            EvalError::NegSqrt => EvalError::NegSqrt,
            EvalError::UnknownUnits(s) => EvalError::UnknownUnits(s.clone()),
            EvalError::UnsupportedDateTimeUnits(u) => EvalError::UnsupportedDateTimeUnits(*u),
            EvalError::InvalidEncodingName(s) => EvalError::InvalidEncodingName(s.clone()),
            EvalError::InvalidInputSyntax { target, input } => EvalError::InvalidInputSyntax {
                target: target.clone(),
                input: input.clone(),
            },
            EvalError::ValueOutOfRange { target, input } => EvalError::ValueOutOfRange {
                target: target.clone(),
                input: input.clone(),
            },
            EvalError::InfinityOutOfDomain(s) => EvalError::InfinityOutOfDomain(s.clone()),
            EvalError::NegativeOutOfDomain(s) => EvalError::NegativeOutOfDomain(s.clone()),
            EvalError::ZeroOutOfDomain(s) => EvalError::ZeroOutOfDomain(s.clone()),
            EvalError::ComplexOutOfRange(s) => EvalError::ComplexOutOfRange(s.clone()),
            EvalError::Undefined(s) => EvalError::Undefined(s.clone()),
            EvalError::StringValueTooLong { target_type, length } => {
                EvalError::StringValueTooLong { target_type: target_type.clone(), length: *length }
            },
            EvalError::InvalidTimezone(s) => EvalError::InvalidTimezone(s.clone()),
            EvalError::InvalidTimezoneInterval => EvalError::InvalidTimezoneInterval,
            EvalError::InvalidTimezoneConversion => EvalError::InvalidTimezoneConversion,
            EvalError::TooManyArrayDimensions(n) => EvalError::TooManyArrayDimensions(*n),
            EvalError::WrongArrayCardinality { actual, expected } => EvalError::WrongArrayCardinality {
                actual: *actual,
                expected: *expected,
            },
            EvalError::Internal(s) => EvalError::Internal(s.clone()),
        }
    }
}

impl EvalErrorV {
    /// True for the failures that report a value outside the range of its
    /// type: integer, float, decimal, interval or timestamp.
    pub open spec fn is_numeric_range(self) -> bool {
        match self {
            EvalErrorV::FloatOverflow
            | EvalErrorV::FloatUnderflow
            | EvalErrorV::NumericFieldOverflow
            | EvalErrorV::Float32OutOfRange
            | EvalErrorV::Float64OutOfRange
            | EvalErrorV::Int16OutOfRange
            | EvalErrorV::Int32OutOfRange
            | EvalErrorV::Int64OutOfRange
            | EvalErrorV::IntervalOutOfRange
            | EvalErrorV::TimestampOutOfRange => true,
            _ => false,
        }
    }
}

impl EvalError {
    /// The internal error with the given message.
    pub fn internal(msg: &str) -> (r: EvalError)
        ensures
            r@ == EvalErrorV::Internal(msg@),
    {
        EvalError::Internal(msg.to_owned())
    }
}

} // verus!
