//! Floating-point arithmetic, which the library leaves to its host.
//!
//! A float datum holds the bits of its value. The library decides whether
//! an operation is made and on which operands, and tests what it can test
//! on the bits (a zero, a NaN, a sign); the arithmetic itself is done by
//! the host behind [`FloatUnit`]. Nothing is promised of what the host
//! returns, and what the library proves holds whatever it returns.

use vstd::prelude::*;
use crate::datum::{Interval, Numeric};

verus! {

/// An operation on two floats.
#[derive(Clone, Copy, Debug, PartialEq, Eq, Structural)]
pub enum FloatOp {
    Add,
    Sub,
    Mul,
    Div,
    Rem,
    Pow,
}

/// A function of one float.
#[derive(Clone, Copy, Debug, PartialEq, Eq, Structural)]
pub enum FloatFn {
    Sqrt,
    Cbrt,
    Ceil,
    Floor,
    Round,
    Cos,
    Cosh,
    Sin,
    Sinh,
    Tan,
    Tanh,
    Cot,
    Log10,
    Ln,
    Exp,
}

/// The floating-point unit of the host. Singles and doubles are given and
/// taken as their bits.
pub trait FloatUnit {
    /// `a op b` on singles.
    fn binary32(&self, op: FloatOp, a: u32, b: u32) -> u32;

    /// `a op b` on doubles.
    fn binary64(&self, op: FloatOp, a: u64, b: u64) -> u64;

    /// A function of a single.
    fn unary32(&self, f: FloatFn, a: u32) -> u32;

    /// A function of a double.
    fn unary64(&self, f: FloatFn, a: u64) -> u64;

    /// The double of a single.
    fn widen(&self, a: u32) -> u64;

    /// The whole seconds of a double, toward zero, and the nanoseconds
    /// beyond them, if the seconds fit 64 bits.
    fn split_seconds(&self, a: u64) -> Option<(i64, i64)>;

    /// The single nearest to an integer.
    fn single_of_int(&self, i: i64) -> u32;

    /// The double nearest to an integer.
    fn double_of_int(&self, i: i64) -> u64;

    /// The single nearest to a double.
    fn narrow(&self, a: u64) -> u32;

    /// Whether a double has a fractional part.
    fn has_fraction(&self, a: u64) -> bool;

    /// The single that a text denotes.
    fn parse32(&self, s: &str) -> Option<u32>;

    /// The double that a text denotes.
    fn parse64(&self, s: &str) -> Option<u64>;

    /// The text of a single.
    fn format32(&self, a: u32) -> String;

    /// The text of a double.
    fn format64(&self, a: u64) -> String;

    /// The decimal of a finite or NaN single.
    fn numeric_of_single(&self, a: u32) -> Numeric;

    /// The decimal of a finite or NaN double.
    fn numeric_of_double(&self, a: u64) -> Numeric;

    /// The whole seconds of a double and the microseconds beyond them.
    fn whole_and_micros(&self, a: u64) -> (u32, u32);

    /// An interval times a double, if the product is in range.
    fn interval_mul(&self, i: Interval, f: u64) -> Option<Interval>;

    /// An interval divided by a double that is not zero, if the quotient is
    /// in range.
    fn interval_div(&self, i: Interval, f: u64) -> Option<Interval>;
}

} // verus!
