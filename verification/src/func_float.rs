//! Functions on floats. The library tests what can be read off the bits
//! of a float: whether it is zero, a NaN, an infinity, or negative, and
//! which integer is nearest to it. The arithmetic is the host's; where a
//! function asks the host, a function beside it takes what the host gave
//! and says what becomes of it.

use vstd::prelude::*;
use crate::datetime::EPOCH_DAYS;
use crate::datum::{res_view, Datum, DatumV, Timestamp};
use crate::error::{EvalError, EvalErrorV};
use crate::float::{FloatFn, FloatOp, FloatUnit};
use crate::float_round::{round_double, round_single, rounded_double, rounded_single};
use crate::func_int::{int16_or, int32_or, int64_or};
use crate::func_string::syntax_error;
use crate::order::{float32_key, float32_place, float64_key, float64_place};

verus! {

/// The place of the positive infinity among the doubles.
pub const INFINITY64: i64 = 0x7ff0_0000_0000_0000i64;

/// The place of the positive infinity among the singles.
pub const INFINITY32: i64 = 0x7f80_0000i64;

/// Whether the sign of a double is set.
pub open spec fn sign64(bits: u64) -> bool {
    bits >= 0x8000_0000_0000_0000u64
}

/// Whether the sign of a single is set.
pub open spec fn sign32(bits: u32) -> bool {
    bits >= 0x8000_0000u32
}

/// Whether a double is an infinity.
pub open spec fn is_infinite64(bits: u64) -> bool {
    float64_key(bits) == INFINITY64 || float64_key(bits) == -INFINITY64
}

/// Whether a single is an infinity.
pub open spec fn is_infinite32(bits: u32) -> bool {
    float32_key(bits) == INFINITY32 || float32_key(bits) == -INFINITY32
}

fn check_infinite64(bits: u64) -> (r: bool)
    ensures
        r == is_infinite64(bits),
{
    let k = float64_place(bits);
    k == INFINITY64 || k == -INFINITY64
}

fn check_infinite32(bits: u32) -> (r: bool)
    ensures
        r == is_infinite32(bits),
{
    let k = float32_place(bits);
    k == INFINITY32 || k == -INFINITY32
}

/// The sum of two floats of 32 bits, which the host computes.
pub fn add_float32<F: FloatUnit>(a: &Datum, b: &Datum, fu: &F) -> (r: Datum)
    requires
        a@ is Float32,
        b@ is Float32,
    ensures
        r@ is Float32,
{
    Datum::Float32(fu.binary32(FloatOp::Add, a.unwrap_float32(), b.unwrap_float32()))
}

/// The difference of two floats of 32 bits, which the host computes.
pub fn sub_float32<F: FloatUnit>(a: &Datum, b: &Datum, fu: &F) -> (r: Datum)
    requires
        a@ is Float32,
        b@ is Float32,
    ensures
        r@ is Float32,
{
    Datum::Float32(fu.binary32(FloatOp::Sub, a.unwrap_float32(), b.unwrap_float32()))
}

/// The product of two floats of 32 bits, which the host computes.
pub fn mul_float32<F: FloatUnit>(a: &Datum, b: &Datum, fu: &F) -> (r: Datum)
    requires
        a@ is Float32,
        b@ is Float32,
    ensures
        r@ is Float32,
{
    Datum::Float32(fu.binary32(FloatOp::Mul, a.unwrap_float32(), b.unwrap_float32()))
}

/// The quotient of two floats of 32 bits. A divisor of zero is an error,
/// unless the dividend is a NaN.
pub fn div_float32<F: FloatUnit>(a: &Datum, b: &Datum, fu: &F) -> (r: Result<Datum, EvalError>)
    requires
        a@ is Float32,
        b@ is Float32,
    ensures
        float32_key(b@->Float32_0) == 0 && !crate::order::float32_is_nan(a@->Float32_0) ==> res_view(r) == Err::<
            DatumV,
            EvalErrorV,
        >(EvalErrorV::DivisionByZero),
        !(float32_key(b@->Float32_0) == 0 && !crate::order::float32_is_nan(a@->Float32_0)) ==> r is Ok && r->Ok_0@ is Float32,
{
    let x = a.unwrap_float32();
    let y = b.unwrap_float32();
    if float32_place(y) == 0 && float32_place(x) != 0x7f80_0001 {
        Err(EvalError::DivisionByZero)
    } else {
        Ok(Datum::Float32(fu.binary32(FloatOp::Div, x, y)))
    }
}

/// The remainder of the division of two floats of 32 bits. A divisor of
/// zero is an error, unless the dividend is a NaN.
pub fn mod_float32<F: FloatUnit>(a: &Datum, b: &Datum, fu: &F) -> (r: Result<Datum, EvalError>)
    requires
        a@ is Float32,
        b@ is Float32,
    ensures
        float32_key(b@->Float32_0) == 0 && !crate::order::float32_is_nan(a@->Float32_0) ==> res_view(r) == Err::<
            DatumV,
            EvalErrorV,
        >(EvalErrorV::DivisionByZero),
        !(float32_key(b@->Float32_0) == 0 && !crate::order::float32_is_nan(a@->Float32_0)) ==> r is Ok && r->Ok_0@ is Float32,
{
    let x = a.unwrap_float32();
    let y = b.unwrap_float32();
    if float32_place(y) == 0 && float32_place(x) != 0x7f80_0001 {
        Err(EvalError::DivisionByZero)
    } else {
        Ok(Datum::Float32(fu.binary32(FloatOp::Rem, x, y)))
    }
}

/// A float of 32 bits with its sign changed.
pub fn neg_float32(a: &Datum) -> (r: Datum)
    requires
        a@ is Float32,
    ensures
        r@ == DatumV::Float32(
            if sign32(a@->Float32_0) {
                (a@->Float32_0 - 0x8000_0000) as u32
            } else {
                (a@->Float32_0 + 0x8000_0000) as u32
            },
        ),
{
    let x = a.unwrap_float32();
    if x >= 0x8000_0000u32 {
        Datum::Float32(x - 0x8000_0000u32)
    } else {
        Datum::Float32(x + 0x8000_0000u32)
    }
}

/// A float of 32 bits without its sign.
pub fn abs_float32(a: &Datum) -> (r: Datum)
    requires
        a@ is Float32,
    ensures
        r@ == DatumV::Float32(
            if sign32(a@->Float32_0) {
                (a@->Float32_0 - 0x8000_0000) as u32
            } else {
                a@->Float32_0
            },
        ),
{
    let x = a.unwrap_float32();
    if x >= 0x8000_0000u32 {
        Datum::Float32(x - 0x8000_0000u32)
    } else {
        Datum::Float32(x)
    }
}

/// A float of 32 bits rounded by the host: up, down or to the nearest
/// integer.
pub fn round_float32<F: FloatUnit>(a: &Datum, how: FloatFn, fu: &F) -> (r: Datum)
    requires
        a@ is Float32,
    ensures
        r@ is Float32,
{
    Datum::Float32(fu.unary32(how, a.unwrap_float32()))
}

/// The text of a float of 32 bits, which the host writes.
pub fn cast_float32_to_string<F: FloatUnit>(a: &Datum, fu: &F) -> (r: Datum)
    requires
        a@ is Float32,
    ensures
        r@ is String,
{
    Datum::String(fu.format32(a.unwrap_float32()))
}

/// The float of 32 bits that a text denotes, which the host reads. A
/// text of which the host makes nothing is a syntax error.
pub fn cast_string_to_float32<F: FloatUnit>(a: &Datum, fu: &F) -> (r: Result<Datum, EvalError>)
    requires
        a@ is String,
    ensures
        match r {
            Ok(d) => d@ is Float32,
            Err(e) => e@ == syntax_error("real"@, a@->String_0),
        },
{
    let s = a.unwrap_str();
    match fu.parse32(s) {
        Some(bits) => Ok(Datum::Float32(bits)),
        None => Err(crate::func_string::invalid_input("real", s)),
    }
}

/// The float of 32 bits nearest to an integer of 16 bits, which the host
/// makes.
pub fn cast_int16_to_float32<F: FloatUnit>(a: &Datum, fu: &F) -> (r: Datum)
    requires
        a@ is Int16,
    ensures
        r@ is Float32,
{
    Datum::Float32(fu.single_of_int(a.unwrap_int16() as i64))
}

/// The integer of 16 bits nearest to a float of 32 bits, a half rounded
/// away from zero. A float that is no number, or whose nearest integer
/// does not fit, is out of range.
pub fn cast_float32_to_int16(a: &Datum) -> (r: Result<Datum, EvalError>)
    requires
        a@ is Float32,
    ensures
        res_view(r) == match rounded_single(a@->Float32_0) {
            Some(n) => int16_or(n, EvalErrorV::Int16OutOfRange),
            None => Err(EvalErrorV::Int16OutOfRange),
        },
{
    match round_single(a.unwrap_float32()) {
        Some(v) => if i16::MIN as i64 <= v && v <= i16::MAX as i64 {
            Ok(Datum::Int16(v as i16))
        } else {
            Err(EvalError::Int16OutOfRange)
        },
        None => Err(EvalError::Int16OutOfRange),
    }
}

/// The float of 32 bits nearest to an integer of 32 bits, which the host
/// makes.
pub fn cast_int32_to_float32<F: FloatUnit>(a: &Datum, fu: &F) -> (r: Datum)
    requires
        a@ is Int32,
    ensures
        r@ is Float32,
{
    Datum::Float32(fu.single_of_int(a.unwrap_int32() as i64))
}

/// The integer of 32 bits nearest to a float of 32 bits, a half rounded
/// away from zero. A float that is no number, or whose nearest integer
/// does not fit, is out of range.
pub fn cast_float32_to_int32(a: &Datum) -> (r: Result<Datum, EvalError>)
    requires
        a@ is Float32,
    ensures
        res_view(r) == match rounded_single(a@->Float32_0) {
            Some(n) => int32_or(n, EvalErrorV::Int32OutOfRange),
            None => Err(EvalErrorV::Int32OutOfRange),
        },
{
    match round_single(a.unwrap_float32()) {
        Some(v) => if i32::MIN as i64 <= v && v <= i32::MAX as i64 {
            Ok(Datum::Int32(v as i32))
        } else {
            Err(EvalError::Int32OutOfRange)
        },
        None => Err(EvalError::Int32OutOfRange),
    }
}

/// The float of 32 bits nearest to an integer of 64 bits, which the host
/// makes.
pub fn cast_int64_to_float32<F: FloatUnit>(a: &Datum, fu: &F) -> (r: Datum)
    requires
        a@ is Int64,
    ensures
        r@ is Float32,
{
    Datum::Float32(fu.single_of_int(a.unwrap_int64() as i64))
}

/// The integer of 64 bits nearest to a float of 32 bits, a half rounded
/// away from zero. A float that is no number, or whose nearest integer
/// does not fit, is out of range.
pub fn cast_float32_to_int64(a: &Datum) -> (r: Result<Datum, EvalError>)
    requires
        a@ is Float32,
    ensures
        res_view(r) == match rounded_single(a@->Float32_0) {
            Some(n) => int64_or(n, EvalErrorV::Int64OutOfRange),
            None => Err(EvalErrorV::Int64OutOfRange),
        },
{
    match round_single(a.unwrap_float32()) {
        Some(v) => Ok(Datum::Int64(v)),
        None => Err(EvalError::Int64OutOfRange),
    }
}

/// The sum of two floats of 64 bits, which the host computes.
pub fn add_float64<F: FloatUnit>(a: &Datum, b: &Datum, fu: &F) -> (r: Datum)
    requires
        a@ is Float64,
        b@ is Float64,
    ensures
        r@ is Float64,
{
    Datum::Float64(fu.binary64(FloatOp::Add, a.unwrap_float64(), b.unwrap_float64()))
}

/// The difference of two floats of 64 bits, which the host computes.
pub fn sub_float64<F: FloatUnit>(a: &Datum, b: &Datum, fu: &F) -> (r: Datum)
    requires
        a@ is Float64,
        b@ is Float64,
    ensures
        r@ is Float64,
{
    Datum::Float64(fu.binary64(FloatOp::Sub, a.unwrap_float64(), b.unwrap_float64()))
}

/// The product of two floats of 64 bits, which the host computes.
pub fn mul_float64<F: FloatUnit>(a: &Datum, b: &Datum, fu: &F) -> (r: Datum)
    requires
        a@ is Float64,
        b@ is Float64,
    ensures
        r@ is Float64,
{
    Datum::Float64(fu.binary64(FloatOp::Mul, a.unwrap_float64(), b.unwrap_float64()))
}

/// The quotient of two floats of 64 bits. A divisor of zero is an error,
/// unless the dividend is a NaN.
pub fn div_float64<F: FloatUnit>(a: &Datum, b: &Datum, fu: &F) -> (r: Result<Datum, EvalError>)
    requires
        a@ is Float64,
        b@ is Float64,
    ensures
        float64_key(b@->Float64_0) == 0 && !crate::order::float64_is_nan(a@->Float64_0) ==> res_view(r) == Err::<
            DatumV,
            EvalErrorV,
        >(EvalErrorV::DivisionByZero),
        !(float64_key(b@->Float64_0) == 0 && !crate::order::float64_is_nan(a@->Float64_0)) ==> r is Ok && r->Ok_0@ is Float64,
{
    let x = a.unwrap_float64();
    let y = b.unwrap_float64();
    if float64_place(y) == 0 && float64_place(x) != 0x7ff0_0000_0000_0001 {
        Err(EvalError::DivisionByZero)
    } else {
        Ok(Datum::Float64(fu.binary64(FloatOp::Div, x, y)))
    }
}

/// The remainder of the division of two floats of 64 bits. A divisor of
/// zero is an error, unless the dividend is a NaN.
pub fn mod_float64<F: FloatUnit>(a: &Datum, b: &Datum, fu: &F) -> (r: Result<Datum, EvalError>)
    requires
        a@ is Float64,
        b@ is Float64,
    ensures
        float64_key(b@->Float64_0) == 0 && !crate::order::float64_is_nan(a@->Float64_0) ==> res_view(r) == Err::<
            DatumV,
            EvalErrorV,
        >(EvalErrorV::DivisionByZero),
        !(float64_key(b@->Float64_0) == 0 && !crate::order::float64_is_nan(a@->Float64_0)) ==> r is Ok && r->Ok_0@ is Float64,
{
    let x = a.unwrap_float64();
    let y = b.unwrap_float64();
    if float64_place(y) == 0 && float64_place(x) != 0x7ff0_0000_0000_0001 {
        Err(EvalError::DivisionByZero)
    } else {
        Ok(Datum::Float64(fu.binary64(FloatOp::Rem, x, y)))
    }
}

/// A float of 64 bits with its sign changed.
pub fn neg_float64(a: &Datum) -> (r: Datum)
    requires
        a@ is Float64,
    ensures
        r@ == DatumV::Float64(
            if sign64(a@->Float64_0) {
                (a@->Float64_0 - 0x8000_0000_0000_0000) as u64
            } else {
                (a@->Float64_0 + 0x8000_0000_0000_0000) as u64
            },
        ),
{
    let x = a.unwrap_float64();
    if x >= 0x8000_0000_0000_0000u64 {
        Datum::Float64(x - 0x8000_0000_0000_0000u64)
    } else {
        Datum::Float64(x + 0x8000_0000_0000_0000u64)
    }
}

/// A float of 64 bits without its sign.
pub fn abs_float64(a: &Datum) -> (r: Datum)
    requires
        a@ is Float64,
    ensures
        r@ == DatumV::Float64(
            if sign64(a@->Float64_0) {
                (a@->Float64_0 - 0x8000_0000_0000_0000) as u64
            } else {
                a@->Float64_0
            },
        ),
{
    let x = a.unwrap_float64();
    if x >= 0x8000_0000_0000_0000u64 {
        Datum::Float64(x - 0x8000_0000_0000_0000u64)
    } else {
        Datum::Float64(x)
    }
}

/// A float of 64 bits rounded by the host: up, down or to the nearest
/// integer.
pub fn round_float64<F: FloatUnit>(a: &Datum, how: FloatFn, fu: &F) -> (r: Datum)
    requires
        a@ is Float64,
    ensures
        r@ is Float64,
{
    Datum::Float64(fu.unary64(how, a.unwrap_float64()))
}

/// The text of a float of 64 bits, which the host writes.
pub fn cast_float64_to_string<F: FloatUnit>(a: &Datum, fu: &F) -> (r: Datum)
    requires
        a@ is Float64,
    ensures
        r@ is String,
{
    Datum::String(fu.format64(a.unwrap_float64()))
}

/// The float of 64 bits that a text denotes, which the host reads. A
/// text of which the host makes nothing is a syntax error.
pub fn cast_string_to_float64<F: FloatUnit>(a: &Datum, fu: &F) -> (r: Result<Datum, EvalError>)
    requires
        a@ is String,
    ensures
        match r {
            Ok(d) => d@ is Float64,
            Err(e) => e@ == syntax_error("double precision"@, a@->String_0),
        },
{
    let s = a.unwrap_str();
    match fu.parse64(s) {
        Some(bits) => Ok(Datum::Float64(bits)),
        None => Err(crate::func_string::invalid_input("double precision", s)),
    }
}

/// The float of 64 bits nearest to an integer of 16 bits, which the host
/// makes.
pub fn cast_int16_to_float64<F: FloatUnit>(a: &Datum, fu: &F) -> (r: Datum)
    requires
        a@ is Int16,
    ensures
        r@ is Float64,
{
    Datum::Float64(fu.double_of_int(a.unwrap_int16() as i64))
}

/// The integer of 16 bits nearest to a float of 64 bits, a half rounded
/// away from zero. A float that is no number, or whose nearest integer
/// does not fit, is out of range.
pub fn cast_float64_to_int16(a: &Datum) -> (r: Result<Datum, EvalError>)
    requires
        a@ is Float64,
    ensures
        res_view(r) == match rounded_double(a@->Float64_0) {
            Some(n) => int16_or(n, EvalErrorV::Int16OutOfRange),
            None => Err(EvalErrorV::Int16OutOfRange),
        },
{
    match round_double(a.unwrap_float64()) {
        Some(v) => if i16::MIN as i64 <= v && v <= i16::MAX as i64 {
            Ok(Datum::Int16(v as i16))
        } else {
            Err(EvalError::Int16OutOfRange)
        },
        None => Err(EvalError::Int16OutOfRange),
    }
}

/// The float of 64 bits nearest to an integer of 32 bits, which the host
/// makes.
pub fn cast_int32_to_float64<F: FloatUnit>(a: &Datum, fu: &F) -> (r: Datum)
    requires
        a@ is Int32,
    ensures
        r@ is Float64,
{
    Datum::Float64(fu.double_of_int(a.unwrap_int32() as i64))
}

/// The integer of 32 bits nearest to a float of 64 bits, a half rounded
/// away from zero. A float that is no number, or whose nearest integer
/// does not fit, is out of range.
pub fn cast_float64_to_int32(a: &Datum) -> (r: Result<Datum, EvalError>)
    requires
        a@ is Float64,
    ensures
        res_view(r) == match rounded_double(a@->Float64_0) {
            Some(n) => int32_or(n, EvalErrorV::Int32OutOfRange),
            None => Err(EvalErrorV::Int32OutOfRange),
        },
{
    match round_double(a.unwrap_float64()) {
        Some(v) => if i32::MIN as i64 <= v && v <= i32::MAX as i64 {
            Ok(Datum::Int32(v as i32))
        } else {
            Err(EvalError::Int32OutOfRange)
        },
        None => Err(EvalError::Int32OutOfRange),
    }
}

/// The float of 64 bits nearest to an integer of 64 bits, which the host
/// makes.
pub fn cast_int64_to_float64<F: FloatUnit>(a: &Datum, fu: &F) -> (r: Datum)
    requires
        a@ is Int64,
    ensures
        r@ is Float64,
{
    Datum::Float64(fu.double_of_int(a.unwrap_int64() as i64))
}

/// The integer of 64 bits nearest to a float of 64 bits, a half rounded
/// away from zero. A float that is no number, or whose nearest integer
/// does not fit, is out of range.
pub fn cast_float64_to_int64(a: &Datum) -> (r: Result<Datum, EvalError>)
    requires
        a@ is Float64,
    ensures
        res_view(r) == match rounded_double(a@->Float64_0) {
            Some(n) => int64_or(n, EvalErrorV::Int64OutOfRange),
            None => Err(EvalErrorV::Int64OutOfRange),
        },
{
    match round_double(a.unwrap_float64()) {
        Some(v) => Ok(Datum::Int64(v)),
        None => Err(EvalError::Int64OutOfRange),
    }
}

/// The double of a single, which the host makes.
pub fn cast_float32_to_float64<F: FloatUnit>(a: &Datum, fu: &F) -> (r: Datum)
    requires
        a@ is Float32,
    ensures
        r@ is Float64,
{
    Datum::Float64(fu.widen(a.unwrap_float32()))
}

/// What becomes of the single that the host made of a double: an
/// infinity made of a finite double overflows; a zero made of a double
/// that is not zero underflows; any other single is the result.
pub open spec fn narrowed(x: u64, y: u32) -> Result<DatumV, EvalErrorV> {
    if is_infinite32(y) && !is_infinite64(x) {
        Err(EvalErrorV::FloatOverflow)
    } else if float64_key(x) != 0 && float32_key(y) == 0 {
        Err(EvalErrorV::FloatUnderflow)
    } else {
        Ok(DatumV::Float32(y))
    }
}

/// The datum of the single that the host made of a double.
pub fn single_of_double(x: u64, y: u32) -> (r: Result<Datum, EvalError>)
    ensures
        res_view(r) == narrowed(x, y),
{
    if check_infinite32(y) && !check_infinite64(x) {
        Err(EvalError::FloatOverflow)
    } else if float64_place(x) != 0 && float32_place(y) == 0 {
        Err(EvalError::FloatUnderflow)
    } else {
        Ok(Datum::Float32(y))
    }
}

/// The single nearest to a double, which the host makes. A finite double
/// whose single is an infinity overflows; a double that is not zero whose
/// single is zero underflows. The host is given the double, and whatever
/// it makes, the result is what `narrowed` makes of it.
pub fn cast_float64_to_float32<F: FloatUnit>(a: &Datum, fu: &F) -> (r: Result<Datum, EvalError>)
    requires
        a@ is Float64,
    ensures
        exists|y: u32| res_view(r) == #[trigger] narrowed(a@->Float64_0, y),
        match r {
            Ok(d) => d@ is Float32 && (is_infinite32(d@->Float32_0) ==> is_infinite64(a@->Float64_0)) && (float32_key(
                d@->Float32_0,
            ) == 0 ==> float64_key(a@->Float64_0) == 0),
            Err(e) => e@ == EvalErrorV::FloatOverflow || e@ == EvalErrorV::FloatUnderflow,
        },
{
    let x = a.unwrap_float64();
    let y = fu.narrow(x);
    let r = single_of_double(x, y);
    assert(res_view(r) == narrowed(a@->Float64_0, y));
    r
}

/// The error of a function of one double on an argument that it has no
/// value for, if it has none: the square root of a negative number, the
/// logarithm of a negative number or of zero, a trigonometric function of
/// an infinity.
pub open spec fn domain_error(f: FloatFn, bits: u64) -> Option<EvalErrorV> {
    let key = float64_key(bits);
    match f {
        FloatFn::Sqrt => if key < 0 {
            Some(EvalErrorV::NegSqrt)
        } else {
            None
        },
        FloatFn::Log10 => if sign64(bits) {
            Some(EvalErrorV::NegativeOutOfDomain("log10"@))
        } else if key == 0 {
            Some(EvalErrorV::ZeroOutOfDomain("log10"@))
        } else {
            None
        },
        FloatFn::Ln => if sign64(bits) {
            Some(EvalErrorV::NegativeOutOfDomain("ln"@))
        } else if key == 0 {
            Some(EvalErrorV::ZeroOutOfDomain("ln"@))
        } else {
            None
        },
        FloatFn::Cos => if is_infinite64(bits) {
            Some(EvalErrorV::InfinityOutOfDomain("cos"@))
        } else {
            None
        },
        FloatFn::Sin => if is_infinite64(bits) {
            Some(EvalErrorV::InfinityOutOfDomain("sin"@))
        } else {
            None
        },
        FloatFn::Tan => if is_infinite64(bits) {
            Some(EvalErrorV::InfinityOutOfDomain("tan"@))
        } else {
            None
        },
        FloatFn::Cot => if is_infinite64(bits) {
            Some(EvalErrorV::InfinityOutOfDomain("cot"@))
        } else {
            None
        },
        _ => None,
    }
}

fn check_domain(f: FloatFn, bits: u64) -> (r: Option<EvalError>)
    ensures
        match r {
            Some(e) => domain_error(f, bits) == Some(e@),
            None => domain_error(f, bits) is None,
        },
{
    let key = float64_place(bits);
    let negative = bits >= 0x8000_0000_0000_0000u64;
    let infinite = key == INFINITY64 || key == -INFINITY64;
    match f {
        FloatFn::Sqrt => if key < 0 {
            Some(EvalError::NegSqrt)
        } else {
            None
        },
        FloatFn::Log10 => if negative {
            Some(EvalError::NegativeOutOfDomain("log10".to_owned()))
        } else if key == 0 {
            Some(EvalError::ZeroOutOfDomain("log10".to_owned()))
        } else {
            None
        },
        FloatFn::Ln => if negative {
            Some(EvalError::NegativeOutOfDomain("ln".to_owned()))
        } else if key == 0 {
            Some(EvalError::ZeroOutOfDomain("ln".to_owned()))
        } else {
            None
        },
        FloatFn::Cos => if infinite {
            Some(EvalError::InfinityOutOfDomain("cos".to_owned()))
        } else {
            None
        },
        FloatFn::Sin => if infinite {
            Some(EvalError::InfinityOutOfDomain("sin".to_owned()))
        } else {
            None
        },
        FloatFn::Tan => if infinite {
            Some(EvalError::InfinityOutOfDomain("tan".to_owned()))
        } else {
            None
        },
        FloatFn::Cot => if infinite {
            Some(EvalError::InfinityOutOfDomain("cot".to_owned()))
        } else {
            None
        },
        _ => None,
    }
}

/// A function of one double, which the host computes where the argument
/// is one that the function has a value for. The exponential function
/// overflows where its value is an infinity and underflows where it is
/// zero.
pub fn float64_function<F: FloatUnit>(a: &Datum, f: FloatFn, fu: &F) -> (r: Result<Datum, EvalError>)
    requires
        a@ is Float64,
    ensures
        match domain_error(f, a@->Float64_0) {
            Some(e) => res_view(r) == Err::<DatumV, EvalErrorV>(e),
            None => match r {
                Ok(d) => d@ is Float64 && (f is Exp ==> !is_infinite64(d@->Float64_0) && float64_key(d@->Float64_0)
                    != 0),
                Err(e) => f is Exp && (e@ == EvalErrorV::FloatOverflow || e@ == EvalErrorV::FloatUnderflow),
            },
        },
{
    let x = a.unwrap_float64();
    match check_domain(f, x) {
        Some(e) => Err(e),
        None => {
            let y = fu.unary64(f, x);
            match f {
                FloatFn::Exp => if check_infinite64(y) {
                    Err(EvalError::FloatOverflow)
                } else if float64_place(y) == 0 {
                    Err(EvalError::FloatUnderflow)
                } else {
                    Ok(Datum::Float64(y))
                },
                _ => Ok(Datum::Float64(y)),
            }
        },
    }
}

/// The first double to the power of the second, which the host computes.
/// Zero to a negative power is undefined; a negative number to a power
/// that is no integer is out of range.
pub fn power<F: FloatUnit>(a: &Datum, b: &Datum, fu: &F) -> (r: Result<Datum, EvalError>)
    requires
        a@ is Float64,
        b@ is Float64,
    ensures
        float64_key(a@->Float64_0) == 0 && sign64(b@->Float64_0) ==> res_view(r) == Err::<DatumV, EvalErrorV>(
            EvalErrorV::Undefined("zero raised to a negative power"@),
        ),
        match r {
            Ok(d) => d@ is Float64,
            Err(e) => e@ == EvalErrorV::Undefined("zero raised to a negative power"@) || (e@
                == EvalErrorV::ComplexOutOfRange("pow"@) && sign64(a@->Float64_0)),
        },
{
    let x = a.unwrap_float64();
    let y = b.unwrap_float64();
    if float64_place(x) == 0 && y >= 0x8000_0000_0000_0000u64 {
        return Err(EvalError::Undefined("zero raised to a negative power".to_owned()));
    }
    if x >= 0x8000_0000_0000_0000u64 && fu.has_fraction(y) {
        return Err(EvalError::ComplexOutOfRange("pow".to_owned()));
    }
    Ok(Datum::Float64(fu.binary64(FloatOp::Pow, x, y)))
}

/// The moment that lies whole seconds and nanoseconds behind the start of
/// 1970: null where there are no seconds, where the nanoseconds make a
/// second or more, or where the calendar has no such moment.
pub open spec fn moment_of(h: Option<(i64, i64)>) -> DatumV {
    match h {
        None => DatumV::Null,
        Some((secs, nanos)) => if nanos <= -1_000_000_000 || nanos >= 1_000_000_000 {
            DatumV::Null
        } else {
            match Timestamp::of_nanos((EPOCH_DAYS * 86_400 + secs) * 1_000_000_000 + nanos) {
                Some(t) => DatumV::TimestampTz(t),
                None => DatumV::Null,
            }
        },
    }
}

/// The moment that lies whole seconds and nanoseconds behind the start of
/// 1970.
pub fn moment_of_seconds(h: Option<(i64, i64)>) -> (r: Datum)
    ensures
        r@ == moment_of(h),
        r@ is Null || crate::func_datetime::is_timestamptz(r@),
{
    match h {
        None => Datum::Null,
        Some((secs, nanos)) => {
            if nanos <= -1_000_000_000 || nanos >= 1_000_000_000 {
                return Datum::Null;
            }
            let total = (EPOCH_DAYS as i128 * 86_400 + secs as i128) * 1_000_000_000 + nanos as i128;
            match Timestamp::from_nanos(total) {
                Some(t) => Datum::TimestampTz(t),
                None => Datum::Null,
            }
        },
    }
}

/// The moment that lies a number of seconds behind the start of 1970, the
/// seconds given as a double that the host splits. Null where there is no
/// such moment. The host is given the double, and whatever it gives, the
/// result is what `moment_of` makes of it.
pub fn to_timestamp<F: FloatUnit>(a: &Datum, fu: &F) -> (r: Datum)
    requires
        a@ is Float64,
    ensures
        exists|h: Option<(i64, i64)>| r@ == #[trigger] moment_of(h),
        r@ is Null || crate::func_datetime::is_timestamptz(r@),
{
    let h = fu.split_seconds(a.unwrap_float64());
    let r = moment_of_seconds(h);
    assert(r@ == moment_of(h));
    r
}

} // verus!
