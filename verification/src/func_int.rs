//! Integer functions: arithmetic that reports overflow, bitwise
//! operators, and casts among the integers and the truth values.

use vstd::prelude::*;
use crate::datum::{Datum, DatumV};
use crate::error::{EvalError, EvalErrorV};

verus! {

/// The quotient of two integers, rounded toward zero.
pub open spec fn trunc_div(a: int, b: int) -> int {
    if b == 0 {
        0
    } else if a >= 0 && b > 0 {
        a / b
    } else if a < 0 && b < 0 {
        (-a) / (-b)
    } else if a < 0 {
        -((-a) / b)
    } else {
        -(a / (-b))
    }
}

/// The remainder of a division that rounds toward zero: it has the sign of
/// the dividend.
pub open spec fn trunc_rem(a: int, b: int) -> int {
    if b == 0 {
        0
    } else if a >= 0 && b > 0 {
        a % b
    } else if a < 0 && b < 0 {
        -((-a) % (-b))
    } else if a < 0 {
        -((-a) % b)
    } else {
        a % (-b)
    }
}

/// The remainder lies between zero and the dividend, and is what the
/// machine computes.
pub proof fn lemma_trunc_rem_bound(a: int, b: int)
    requires
        b != 0,
    ensures
        a >= 0 ==> 0 <= trunc_rem(a, b) <= a,
        a < 0 ==> a <= trunc_rem(a, b) <= 0,
        a > 0 && b > 0 ==> trunc_rem(a, b) == a % b,
        a < 0 && b < 0 ==> trunc_rem(a, b) == ((a * -1) % (b * -1)) * -1,
        a < 0 && b > 0 ==> trunc_rem(a, b) == ((a * -1) % b) * -1,
        a > 0 && b < 0 ==> trunc_rem(a, b) == a % (b * -1),
        a == 0 ==> trunc_rem(a, b) == 0,
{
    if a >= 0 && b > 0 {
        vstd::arithmetic::div_mod::lemma_mod_decreases(a as nat, b as nat);
        vstd::arithmetic::div_mod::lemma_mod_pos_bound(a, b);
        if a == 0 {
            vstd::arithmetic::div_mod::lemma_small_mod(0, b as nat);
        }
    } else if a < 0 && b < 0 {
        vstd::arithmetic::div_mod::lemma_mod_decreases((-a) as nat, (-b) as nat);
        vstd::arithmetic::div_mod::lemma_mod_pos_bound(-a, -b);
    } else if a < 0 {
        vstd::arithmetic::div_mod::lemma_mod_decreases((-a) as nat, b as nat);
        vstd::arithmetic::div_mod::lemma_mod_pos_bound(-a, b);
    } else {
        vstd::arithmetic::div_mod::lemma_mod_decreases(a as nat, (-b) as nat);
        vstd::arithmetic::div_mod::lemma_mod_pos_bound(a, -b);
        if a == 0 {
            vstd::arithmetic::div_mod::lemma_small_mod(0, (-b) as nat);
        }
    }
}

/// Whether an integer fits 16 bits.
pub open spec fn fits_int16(x: int) -> bool {
    i16::MIN <= x <= i16::MAX
}

/// The 16-bit datum of an integer, or the given error where it does not
/// fit.
pub open spec fn int16_or(x: int, e: EvalErrorV) -> Result<DatumV, EvalErrorV> {
    if fits_int16(x) {
        Ok(DatumV::Int16(x as i16))
    } else {
        Err(e)
    }
}

pub open spec fn add_int16_spec(a: DatumV, b: DatumV) -> Result<DatumV, EvalErrorV> {
    int16_or(a->Int16_0 + b->Int16_0, EvalErrorV::NumericFieldOverflow)
}

/// The sum of two 16-bit integers; an overflow is an error.
pub fn add_int16(a: &Datum, b: &Datum) -> (r: Result<Datum, EvalError>)
    requires
        a@ is Int16,
        b@ is Int16,
    ensures
        crate::datum::res_view(r) == add_int16_spec(a@, b@),
{
    match a.unwrap_int16().checked_add(b.unwrap_int16()) {
        Some(v) => Ok(Datum::Int16(v)),
        None => Err(EvalError::NumericFieldOverflow),
    }
}

pub open spec fn sub_int16_spec(a: DatumV, b: DatumV) -> Result<DatumV, EvalErrorV> {
    int16_or(a->Int16_0 - b->Int16_0, EvalErrorV::NumericFieldOverflow)
}

/// The difference of two 16-bit integers; an overflow is an error.
pub fn sub_int16(a: &Datum, b: &Datum) -> (r: Result<Datum, EvalError>)
    requires
        a@ is Int16,
        b@ is Int16,
    ensures
        crate::datum::res_view(r) == sub_int16_spec(a@, b@),
{
    match a.unwrap_int16().checked_sub(b.unwrap_int16()) {
        Some(v) => Ok(Datum::Int16(v)),
        None => Err(EvalError::NumericFieldOverflow),
    }
}

pub open spec fn mul_int16_spec(a: DatumV, b: DatumV) -> Result<DatumV, EvalErrorV> {
    int16_or(a->Int16_0 * b->Int16_0, EvalErrorV::NumericFieldOverflow)
}

/// The product of two 16-bit integers; an overflow is an error.
pub fn mul_int16(a: &Datum, b: &Datum) -> (r: Result<Datum, EvalError>)
    requires
        a@ is Int16,
        b@ is Int16,
    ensures
        crate::datum::res_view(r) == mul_int16_spec(a@, b@),
{
    match a.unwrap_int16().checked_mul(b.unwrap_int16()) {
        Some(v) => Ok(Datum::Int16(v)),
        None => Err(EvalError::NumericFieldOverflow),
    }
}

pub open spec fn div_int16_spec(a: DatumV, b: DatumV) -> Result<DatumV, EvalErrorV> {
    if b->Int16_0 == 0 {
        Err(EvalErrorV::DivisionByZero)
    } else {
        int16_or(trunc_div(a->Int16_0 as int, b->Int16_0 as int), EvalErrorV::Int16OutOfRange)
    }
}

/// The quotient of two 16-bit integers, rounded toward zero. A divisor
/// of zero is an error, and so is the one quotient that does not fit.
pub fn div_int16(a: &Datum, b: &Datum) -> (r: Result<Datum, EvalError>)
    requires
        a@ is Int16,
        b@ is Int16,
    ensures
        crate::datum::res_view(r) == div_int16_spec(a@, b@),
{
    let y = b.unwrap_int16();
    if y == 0 {
        Err(EvalError::DivisionByZero)
    } else {
        match a.unwrap_int16().checked_div(y) {
            Some(v) => Ok(Datum::Int16(v)),
            None => Err(EvalError::Int16OutOfRange),
        }
    }
}

pub open spec fn mod_int16_spec(a: DatumV, b: DatumV) -> Result<DatumV, EvalErrorV> {
    if b->Int16_0 == 0 {
        Err(EvalErrorV::DivisionByZero)
    } else if b->Int16_0 == -1 {
        Ok(DatumV::Int16(0))
    } else {
        Ok(DatumV::Int16(trunc_rem(a->Int16_0 as int, b->Int16_0 as int) as i16))
    }
}

/// The remainder of the division of two 16-bit integers. A divisor of
/// zero is an error.
pub fn mod_int16(a: &Datum, b: &Datum) -> (r: Result<Datum, EvalError>)
    requires
        a@ is Int16,
        b@ is Int16,
    ensures
        crate::datum::res_view(r) == mod_int16_spec(a@, b@),
{
    let x = a.unwrap_int16();
    let y = b.unwrap_int16();
    if y == 0 {
        Err(EvalError::DivisionByZero)
    } else if y == -1 {
        Ok(Datum::Int16(0))
    } else {
        proof {
            lemma_trunc_rem_bound(x as int, y as int);
        }
        match x.checked_rem(y) {
            Some(v) => Ok(Datum::Int16(v)),
            None => Ok(Datum::Int16(0)),
        }
    }
}

pub open spec fn neg_int16_spec(a: DatumV) -> Result<DatumV, EvalErrorV> {
    int16_or(-(a->Int16_0 as int), EvalErrorV::Int16OutOfRange)
}

/// The negation of a 16-bit integer; an overflow is an error.
pub fn neg_int16(a: &Datum) -> (r: Result<Datum, EvalError>)
    requires
        a@ is Int16,
    ensures
        crate::datum::res_view(r) == neg_int16_spec(a@),
{
    let x = a.unwrap_int16();
    if x == i16::MIN {
        Err(EvalError::Int16OutOfRange)
    } else {
        Ok(Datum::Int16(-x))
    }
}

pub open spec fn abs_int16_spec(a: DatumV) -> Result<DatumV, EvalErrorV> {
    int16_or(
        if a->Int16_0 < 0 {
            -(a->Int16_0 as int)
        } else {
            a->Int16_0 as int
        },
        EvalErrorV::Int16OutOfRange,
    )
}

/// The absolute value of a 16-bit integer; an overflow is an error.
pub fn abs_int16(a: &Datum) -> (r: Result<Datum, EvalError>)
    requires
        a@ is Int16,
    ensures
        crate::datum::res_view(r) == abs_int16_spec(a@),
{
    let x = a.unwrap_int16();
    if x == i16::MIN {
        Err(EvalError::Int16OutOfRange)
    } else if x < 0 {
        Ok(Datum::Int16(-x))
    } else {
        Ok(Datum::Int16(x))
    }
}

/// The bitwise complement of a 16-bit integer, which is the integer that
/// makes -1 with it.
pub fn bit_not_int16(a: &Datum) -> (r: Datum)
    requires
        a@ is Int16,
    ensures
        r@ == DatumV::Int16((-1 - a@->Int16_0) as i16),
{
    Datum::Int16(-1 - a.unwrap_int16())
}

pub fn bit_and_int16(a: &Datum, b: &Datum) -> (r: Datum)
    requires
        a@ is Int16,
        b@ is Int16,
    ensures
        r@ == DatumV::Int16(a@->Int16_0 & b@->Int16_0),
{
    Datum::Int16(a.unwrap_int16() & b.unwrap_int16())
}

pub fn bit_or_int16(a: &Datum, b: &Datum) -> (r: Datum)
    requires
        a@ is Int16,
        b@ is Int16,
    ensures
        r@ == DatumV::Int16(a@->Int16_0 | b@->Int16_0),
{
    Datum::Int16(a.unwrap_int16() | b.unwrap_int16())
}

pub fn bit_xor_int16(a: &Datum, b: &Datum) -> (r: Datum)
    requires
        a@ is Int16,
        b@ is Int16,
    ensures
        r@ == DatumV::Int16(a@->Int16_0 ^ b@->Int16_0),
{
    Datum::Int16(a.unwrap_int16() ^ b.unwrap_int16())
}

/// Whether an integer fits 32 bits.
pub open spec fn fits_int32(x: int) -> bool {
    i32::MIN <= x <= i32::MAX
}

/// The 32-bit datum of an integer, or the given error where it does not
/// fit.
pub open spec fn int32_or(x: int, e: EvalErrorV) -> Result<DatumV, EvalErrorV> {
    if fits_int32(x) {
        Ok(DatumV::Int32(x as i32))
    } else {
        Err(e)
    }
}

pub open spec fn add_int32_spec(a: DatumV, b: DatumV) -> Result<DatumV, EvalErrorV> {
    int32_or(a->Int32_0 + b->Int32_0, EvalErrorV::NumericFieldOverflow)
}

/// The sum of two 32-bit integers; an overflow is an error.
pub fn add_int32(a: &Datum, b: &Datum) -> (r: Result<Datum, EvalError>)
    requires
        a@ is Int32,
        b@ is Int32,
    ensures
        crate::datum::res_view(r) == add_int32_spec(a@, b@),
{
    match a.unwrap_int32().checked_add(b.unwrap_int32()) {
        Some(v) => Ok(Datum::Int32(v)),
        None => Err(EvalError::NumericFieldOverflow),
    }
}

pub open spec fn sub_int32_spec(a: DatumV, b: DatumV) -> Result<DatumV, EvalErrorV> {
    int32_or(a->Int32_0 - b->Int32_0, EvalErrorV::NumericFieldOverflow)
}

/// The difference of two 32-bit integers; an overflow is an error.
pub fn sub_int32(a: &Datum, b: &Datum) -> (r: Result<Datum, EvalError>)
    requires
        a@ is Int32,
        b@ is Int32,
    ensures
        crate::datum::res_view(r) == sub_int32_spec(a@, b@),
{
    match a.unwrap_int32().checked_sub(b.unwrap_int32()) {
        Some(v) => Ok(Datum::Int32(v)),
        None => Err(EvalError::NumericFieldOverflow),
    }
}

pub open spec fn mul_int32_spec(a: DatumV, b: DatumV) -> Result<DatumV, EvalErrorV> {
    int32_or(a->Int32_0 * b->Int32_0, EvalErrorV::NumericFieldOverflow)
}

/// The product of two 32-bit integers; an overflow is an error.
pub fn mul_int32(a: &Datum, b: &Datum) -> (r: Result<Datum, EvalError>)
    requires
        a@ is Int32,
        b@ is Int32,
    ensures
        crate::datum::res_view(r) == mul_int32_spec(a@, b@),
{
    match a.unwrap_int32().checked_mul(b.unwrap_int32()) {
        Some(v) => Ok(Datum::Int32(v)),
        None => Err(EvalError::NumericFieldOverflow),
    }
}

pub open spec fn div_int32_spec(a: DatumV, b: DatumV) -> Result<DatumV, EvalErrorV> {
    if b->Int32_0 == 0 {
        Err(EvalErrorV::DivisionByZero)
    } else {
        int32_or(trunc_div(a->Int32_0 as int, b->Int32_0 as int), EvalErrorV::Int32OutOfRange)
    }
}

/// The quotient of two 32-bit integers, rounded toward zero. A divisor
/// of zero is an error, and so is the one quotient that does not fit.
pub fn div_int32(a: &Datum, b: &Datum) -> (r: Result<Datum, EvalError>)
    requires
        a@ is Int32,
        b@ is Int32,
    ensures
        crate::datum::res_view(r) == div_int32_spec(a@, b@),
{
    let y = b.unwrap_int32();
    if y == 0 {
        Err(EvalError::DivisionByZero)
    } else {
        match a.unwrap_int32().checked_div(y) {
            Some(v) => Ok(Datum::Int32(v)),
            None => Err(EvalError::Int32OutOfRange),
        }
    }
}

pub open spec fn mod_int32_spec(a: DatumV, b: DatumV) -> Result<DatumV, EvalErrorV> {
    if b->Int32_0 == 0 {
        Err(EvalErrorV::DivisionByZero)
    } else if b->Int32_0 == -1 {
        Ok(DatumV::Int32(0))
    } else {
        Ok(DatumV::Int32(trunc_rem(a->Int32_0 as int, b->Int32_0 as int) as i32))
    }
}

/// The remainder of the division of two 32-bit integers. A divisor of
/// zero is an error.
pub fn mod_int32(a: &Datum, b: &Datum) -> (r: Result<Datum, EvalError>)
    requires
        a@ is Int32,
        b@ is Int32,
    ensures
        crate::datum::res_view(r) == mod_int32_spec(a@, b@),
{
    let x = a.unwrap_int32();
    let y = b.unwrap_int32();
    if y == 0 {
        Err(EvalError::DivisionByZero)
    } else if y == -1 {
        Ok(Datum::Int32(0))
    } else {
        proof {
            lemma_trunc_rem_bound(x as int, y as int);
        }
        match x.checked_rem(y) {
            Some(v) => Ok(Datum::Int32(v)),
            None => Ok(Datum::Int32(0)),
        }
    }
}

pub open spec fn neg_int32_spec(a: DatumV) -> Result<DatumV, EvalErrorV> {
    int32_or(-(a->Int32_0 as int), EvalErrorV::Int32OutOfRange)
}

/// The negation of a 32-bit integer; an overflow is an error.
pub fn neg_int32(a: &Datum) -> (r: Result<Datum, EvalError>)
    requires
        a@ is Int32,
    ensures
        crate::datum::res_view(r) == neg_int32_spec(a@),
{
    let x = a.unwrap_int32();
    if x == i32::MIN {
        Err(EvalError::Int32OutOfRange)
    } else {
        Ok(Datum::Int32(-x))
    }
}

pub open spec fn abs_int32_spec(a: DatumV) -> Result<DatumV, EvalErrorV> {
    int32_or(
        if a->Int32_0 < 0 {
            -(a->Int32_0 as int)
        } else {
            a->Int32_0 as int
        },
        EvalErrorV::Int32OutOfRange,
    )
}

/// The absolute value of a 32-bit integer; an overflow is an error.
pub fn abs_int32(a: &Datum) -> (r: Result<Datum, EvalError>)
    requires
        a@ is Int32,
    ensures
        crate::datum::res_view(r) == abs_int32_spec(a@),
{
    let x = a.unwrap_int32();
    if x == i32::MIN {
        Err(EvalError::Int32OutOfRange)
    } else if x < 0 {
        Ok(Datum::Int32(-x))
    } else {
        Ok(Datum::Int32(x))
    }
}

/// The bitwise complement of a 32-bit integer, which is the integer that
/// makes -1 with it.
pub fn bit_not_int32(a: &Datum) -> (r: Datum)
    requires
        a@ is Int32,
    ensures
        r@ == DatumV::Int32((-1 - a@->Int32_0) as i32),
{
    Datum::Int32(-1 - a.unwrap_int32())
}

pub fn bit_and_int32(a: &Datum, b: &Datum) -> (r: Datum)
    requires
        a@ is Int32,
        b@ is Int32,
    ensures
        r@ == DatumV::Int32(a@->Int32_0 & b@->Int32_0),
{
    Datum::Int32(a.unwrap_int32() & b.unwrap_int32())
}

pub fn bit_or_int32(a: &Datum, b: &Datum) -> (r: Datum)
    requires
        a@ is Int32,
        b@ is Int32,
    ensures
        r@ == DatumV::Int32(a@->Int32_0 | b@->Int32_0),
{
    Datum::Int32(a.unwrap_int32() | b.unwrap_int32())
}

pub fn bit_xor_int32(a: &Datum, b: &Datum) -> (r: Datum)
    requires
        a@ is Int32,
        b@ is Int32,
    ensures
        r@ == DatumV::Int32(a@->Int32_0 ^ b@->Int32_0),
{
    Datum::Int32(a.unwrap_int32() ^ b.unwrap_int32())
}

/// Whether an integer fits 64 bits.
pub open spec fn fits_int64(x: int) -> bool {
    i64::MIN <= x <= i64::MAX
}

/// The 64-bit datum of an integer, or the given error where it does not
/// fit.
pub open spec fn int64_or(x: int, e: EvalErrorV) -> Result<DatumV, EvalErrorV> {
    if fits_int64(x) {
        Ok(DatumV::Int64(x as i64))
    } else {
        Err(e)
    }
}

pub open spec fn add_int64_spec(a: DatumV, b: DatumV) -> Result<DatumV, EvalErrorV> {
    int64_or(a->Int64_0 + b->Int64_0, EvalErrorV::NumericFieldOverflow)
}

/// The sum of two 64-bit integers; an overflow is an error.
pub fn add_int64(a: &Datum, b: &Datum) -> (r: Result<Datum, EvalError>)
    requires
        a@ is Int64,
        b@ is Int64,
    ensures
        crate::datum::res_view(r) == add_int64_spec(a@, b@),
{
    match a.unwrap_int64().checked_add(b.unwrap_int64()) {
        Some(v) => Ok(Datum::Int64(v)),
        None => Err(EvalError::NumericFieldOverflow),
    }
}

pub open spec fn sub_int64_spec(a: DatumV, b: DatumV) -> Result<DatumV, EvalErrorV> {
    int64_or(a->Int64_0 - b->Int64_0, EvalErrorV::NumericFieldOverflow)
}

/// The difference of two 64-bit integers; an overflow is an error.
pub fn sub_int64(a: &Datum, b: &Datum) -> (r: Result<Datum, EvalError>)
    requires
        a@ is Int64,
        b@ is Int64,
    ensures
        crate::datum::res_view(r) == sub_int64_spec(a@, b@),
{
    match a.unwrap_int64().checked_sub(b.unwrap_int64()) {
        Some(v) => Ok(Datum::Int64(v)),
        None => Err(EvalError::NumericFieldOverflow),
    }
}

pub open spec fn mul_int64_spec(a: DatumV, b: DatumV) -> Result<DatumV, EvalErrorV> {
    int64_or(a->Int64_0 * b->Int64_0, EvalErrorV::NumericFieldOverflow)
}

/// The product of two 64-bit integers; an overflow is an error.
pub fn mul_int64(a: &Datum, b: &Datum) -> (r: Result<Datum, EvalError>)
    requires
        a@ is Int64,
        b@ is Int64,
    ensures
        crate::datum::res_view(r) == mul_int64_spec(a@, b@),
{
    match a.unwrap_int64().checked_mul(b.unwrap_int64()) {
        Some(v) => Ok(Datum::Int64(v)),
        None => Err(EvalError::NumericFieldOverflow),
    }
}

pub open spec fn div_int64_spec(a: DatumV, b: DatumV) -> Result<DatumV, EvalErrorV> {
    if b->Int64_0 == 0 {
        Err(EvalErrorV::DivisionByZero)
    } else {
        int64_or(trunc_div(a->Int64_0 as int, b->Int64_0 as int), EvalErrorV::Int64OutOfRange)
    }
}

/// The quotient of two 64-bit integers, rounded toward zero. A divisor
/// of zero is an error, and so is the one quotient that does not fit.
pub fn div_int64(a: &Datum, b: &Datum) -> (r: Result<Datum, EvalError>)
    requires
        a@ is Int64,
        b@ is Int64,
    ensures
        crate::datum::res_view(r) == div_int64_spec(a@, b@),
{
    let y = b.unwrap_int64();
    if y == 0 {
        Err(EvalError::DivisionByZero)
    } else {
        match a.unwrap_int64().checked_div(y) {
            Some(v) => Ok(Datum::Int64(v)),
            None => Err(EvalError::Int64OutOfRange),
        }
    }
}

pub open spec fn mod_int64_spec(a: DatumV, b: DatumV) -> Result<DatumV, EvalErrorV> {
    if b->Int64_0 == 0 {
        Err(EvalErrorV::DivisionByZero)
    } else if b->Int64_0 == -1 {
        Ok(DatumV::Int64(0))
    } else {
        Ok(DatumV::Int64(trunc_rem(a->Int64_0 as int, b->Int64_0 as int) as i64))
    }
}

/// The remainder of the division of two 64-bit integers. A divisor of
/// zero is an error.
pub fn mod_int64(a: &Datum, b: &Datum) -> (r: Result<Datum, EvalError>)
    requires
        a@ is Int64,
        b@ is Int64,
    ensures
        crate::datum::res_view(r) == mod_int64_spec(a@, b@),
{
    let x = a.unwrap_int64();
    let y = b.unwrap_int64();
    if y == 0 {
        Err(EvalError::DivisionByZero)
    } else if y == -1 {
        Ok(Datum::Int64(0))
    } else {
        proof {
            lemma_trunc_rem_bound(x as int, y as int);
        }
        match x.checked_rem(y) {
            Some(v) => Ok(Datum::Int64(v)),
            None => Ok(Datum::Int64(0)),
        }
    }
}

pub open spec fn neg_int64_spec(a: DatumV) -> Result<DatumV, EvalErrorV> {
    int64_or(-(a->Int64_0 as int), EvalErrorV::Int64OutOfRange)
}

/// The negation of a 64-bit integer; an overflow is an error.
pub fn neg_int64(a: &Datum) -> (r: Result<Datum, EvalError>)
    requires
        a@ is Int64,
    ensures
        crate::datum::res_view(r) == neg_int64_spec(a@),
{
    let x = a.unwrap_int64();
    if x == i64::MIN {
        Err(EvalError::Int64OutOfRange)
    } else {
        Ok(Datum::Int64(-x))
    }
}

pub open spec fn abs_int64_spec(a: DatumV) -> Result<DatumV, EvalErrorV> {
    int64_or(
        if a->Int64_0 < 0 {
            -(a->Int64_0 as int)
        } else {
            a->Int64_0 as int
        },
        EvalErrorV::Int64OutOfRange,
    )
}

/// The absolute value of a 64-bit integer; an overflow is an error.
pub fn abs_int64(a: &Datum) -> (r: Result<Datum, EvalError>)
    requires
        a@ is Int64,
    ensures
        crate::datum::res_view(r) == abs_int64_spec(a@),
{
    let x = a.unwrap_int64();
    if x == i64::MIN {
        Err(EvalError::Int64OutOfRange)
    } else if x < 0 {
        Ok(Datum::Int64(-x))
    } else {
        Ok(Datum::Int64(x))
    }
}

/// The bitwise complement of a 64-bit integer, which is the integer that
/// makes -1 with it.
pub fn bit_not_int64(a: &Datum) -> (r: Datum)
    requires
        a@ is Int64,
    ensures
        r@ == DatumV::Int64((-1 - a@->Int64_0) as i64),
{
    Datum::Int64(-1 - a.unwrap_int64())
}

pub fn bit_and_int64(a: &Datum, b: &Datum) -> (r: Datum)
    requires
        a@ is Int64,
        b@ is Int64,
    ensures
        r@ == DatumV::Int64(a@->Int64_0 & b@->Int64_0),
{
    Datum::Int64(a.unwrap_int64() & b.unwrap_int64())
}

pub fn bit_or_int64(a: &Datum, b: &Datum) -> (r: Datum)
    requires
        a@ is Int64,
        b@ is Int64,
    ensures
        r@ == DatumV::Int64(a@->Int64_0 | b@->Int64_0),
{
    Datum::Int64(a.unwrap_int64() | b.unwrap_int64())
}

pub fn bit_xor_int64(a: &Datum, b: &Datum) -> (r: Datum)
    requires
        a@ is Int64,
        b@ is Int64,
    ensures
        r@ == DatumV::Int64(a@->Int64_0 ^ b@->Int64_0),
{
    Datum::Int64(a.unwrap_int64() ^ b.unwrap_int64())
}

/// A 16-bit integer shifted left, as C does it: widened to 32 bits,
/// shifted by the count modulo 32, and cut back to 16 bits. The result
/// wraps; no overflow is reported.
pub fn bit_shift_left_int16(a: &Datum, b: &Datum) -> (r: Datum)
    requires
        a@ is Int16,
        b@ is Int32,
    ensures
        r@ == DatumV::Int16((a@->Int16_0 as i32).wrapping_shl(b@->Int32_0 as u32) as i16),
{
    let lhs: i32 = a.unwrap_int16() as i32;
    let rhs: u32 = #[verifier::truncate]
    (b.unwrap_int32() as u32);
    Datum::Int16(#[verifier::truncate]
    (lhs.wrapping_shl(rhs) as i16))
}

/// A 32-bit integer shifted left by the count modulo 32. The result
/// wraps.
pub fn bit_shift_left_int32(a: &Datum, b: &Datum) -> (r: Datum)
    requires
        a@ is Int32,
        b@ is Int32,
    ensures
        r@ == DatumV::Int32(a@->Int32_0.wrapping_shl(b@->Int32_0 as u32)),
{
    let rhs: u32 = #[verifier::truncate]
    (b.unwrap_int32() as u32);
    Datum::Int32(a.unwrap_int32().wrapping_shl(rhs))
}

/// A 64-bit integer shifted left by the count modulo 64. The result
/// wraps.
pub fn bit_shift_left_int64(a: &Datum, b: &Datum) -> (r: Datum)
    requires
        a@ is Int64,
        b@ is Int32,
    ensures
        r@ == DatumV::Int64(a@->Int64_0.wrapping_shl(b@->Int32_0 as u32)),
{
    let rhs: u32 = #[verifier::truncate]
    (b.unwrap_int32() as u32);
    Datum::Int64(a.unwrap_int64().wrapping_shl(rhs))
}

/// A 16-bit integer shifted right, as C does it: widened to 32 bits,
/// shifted by the count modulo 32 with the sign kept, and cut back to 16
/// bits.
pub fn bit_shift_right_int16(a: &Datum, b: &Datum) -> (r: Datum)
    requires
        a@ is Int16,
        b@ is Int32,
    ensures
        r@ == DatumV::Int16((a@->Int16_0 as i32).wrapping_shr(b@->Int32_0 as u32) as i16),
{
    let lhs: i32 = a.unwrap_int16() as i32;
    let rhs: u32 = #[verifier::truncate]
    (b.unwrap_int32() as u32);
    Datum::Int16(#[verifier::truncate]
    (lhs.wrapping_shr(rhs) as i16))
}

/// A 32-bit integer shifted right by the count modulo 32, the sign kept.
pub fn bit_shift_right_int32(a: &Datum, b: &Datum) -> (r: Datum)
    requires
        a@ is Int32,
        b@ is Int32,
    ensures
        r@ == DatumV::Int32(a@->Int32_0.wrapping_shr(b@->Int32_0 as u32)),
{
    let rhs: u32 = #[verifier::truncate]
    (b.unwrap_int32() as u32);
    Datum::Int32(a.unwrap_int32().wrapping_shr(rhs))
}

/// A 64-bit integer shifted right by the count modulo 64, the sign kept.
pub fn bit_shift_right_int64(a: &Datum, b: &Datum) -> (r: Datum)
    requires
        a@ is Int64,
        b@ is Int32,
    ensures
        r@ == DatumV::Int64(a@->Int64_0.wrapping_shr(b@->Int32_0 as u32)),
{
    let rhs: u32 = #[verifier::truncate]
    (b.unwrap_int32() as u32);
    Datum::Int64(a.unwrap_int64().wrapping_shr(rhs))
}

pub fn cast_bool_to_int32(a: &Datum) -> (r: Datum)
    requires
        a@.is_bool(),
    ensures
        r@ == DatumV::Int32(
            if a@ is True {
                1i32
            } else {
                0i32
            },
        ),
{
    match a.unwrap_bool() {
        true => Datum::Int32(1),
        false => Datum::Int32(0),
    }
}

pub fn cast_int16_to_int32(a: &Datum) -> (r: Datum)
    requires
        a@ is Int16,
    ensures
        r@ == DatumV::Int32(a@->Int16_0 as i32),
{
    Datum::Int32(a.unwrap_int16() as i32)
}

pub fn cast_int16_to_int64(a: &Datum) -> (r: Datum)
    requires
        a@ is Int16,
    ensures
        r@ == DatumV::Int64(a@->Int16_0 as i64),
{
    Datum::Int64(a.unwrap_int16() as i64)
}

pub fn cast_int32_to_bool(a: &Datum) -> (r: Datum)
    requires
        a@ is Int32,
    ensures
        r@ == DatumV::from_bool(a@->Int32_0 != 0),
{
    Datum::from_bool(a.unwrap_int32() != 0)
}

pub fn cast_int32_to_int16(a: &Datum) -> (r: Result<Datum, EvalError>)
    requires
        a@ is Int32,
    ensures
        crate::datum::res_view(r) == int16_or(a@->Int32_0 as int, EvalErrorV::Int16OutOfRange),
{
    let x = a.unwrap_int32();
    if i16::MIN as i32 <= x && x <= i16::MAX as i32 {
        Ok(Datum::Int16(x as i16))
    } else {
        Err(EvalError::Int16OutOfRange)
    }
}

pub fn cast_int32_to_int64(a: &Datum) -> (r: Datum)
    requires
        a@ is Int32,
    ensures
        r@ == DatumV::Int64(a@->Int32_0 as i64),
{
    Datum::Int64(a.unwrap_int32() as i64)
}

pub fn cast_int64_to_bool(a: &Datum) -> (r: Datum)
    requires
        a@ is Int64,
    ensures
        r@ == DatumV::from_bool(a@->Int64_0 != 0),
{
    Datum::from_bool(a.unwrap_int64() != 0)
}

pub fn cast_int64_to_int16(a: &Datum) -> (r: Result<Datum, EvalError>)
    requires
        a@ is Int64,
    ensures
        crate::datum::res_view(r) == int16_or(a@->Int64_0 as int, EvalErrorV::Int16OutOfRange),
{
    let x = a.unwrap_int64();
    if i16::MIN as i64 <= x && x <= i16::MAX as i64 {
        Ok(Datum::Int16(x as i16))
    } else {
        Err(EvalError::Int16OutOfRange)
    }
}

pub fn cast_int64_to_int32(a: &Datum) -> (r: Result<Datum, EvalError>)
    requires
        a@ is Int64,
    ensures
        crate::datum::res_view(r) == int32_or(a@->Int64_0 as int, EvalErrorV::Int32OutOfRange),
{
    let x = a.unwrap_int64();
    if i32::MIN as i64 <= x && x <= i32::MAX as i64 {
        Ok(Datum::Int32(x as i32))
    } else {
        Err(EvalError::Int32OutOfRange)
    }
}

/// The negation of a truth value.
pub fn not(a: &Datum) -> (r: Datum)
    requires
        a@.is_bool(),
    ensures
        r@ == DatumV::from_bool(a@ is False),
{
    Datum::from_bool(!a.unwrap_bool())
}

/// Whether a datum is SQL null.
pub fn is_null(a: &Datum) -> (r: Datum)
    ensures
        r@ == DatumV::from_bool(a@ is Null),
{
    Datum::from_bool(a.is_null())
}

/// Whether a datum is true.
pub fn is_true(a: &Datum) -> (r: Datum)
    ensures
        r@ == DatumV::from_bool(a@ is True),
{
    match a {
        Datum::True => Datum::True,
        _ => Datum::False,
    }
}

/// Whether a datum is false.
pub fn is_false(a: &Datum) -> (r: Datum)
    ensures
        r@ == DatumV::from_bool(a@ is False),
{
    match a {
        Datum::False => Datum::True,
        _ => Datum::False,
    }
}

pub fn eq(a: &Datum, b: &Datum) -> (r: Datum)
    ensures
        r@ == DatumV::from_bool(crate::order::datum_order(a@, b@) == crate::order::Order::Equal),
{
    Datum::from_bool(a.compare(b) == crate::order::Order::Equal)
}

pub fn not_eq(a: &Datum, b: &Datum) -> (r: Datum)
    ensures
        r@ == DatumV::from_bool(crate::order::datum_order(a@, b@) != crate::order::Order::Equal),
{
    Datum::from_bool(a.compare(b) != crate::order::Order::Equal)
}

pub fn lt(a: &Datum, b: &Datum) -> (r: Datum)
    ensures
        r@ == DatumV::from_bool(crate::order::datum_order(a@, b@) == crate::order::Order::Less),
{
    Datum::from_bool(a.compare(b) == crate::order::Order::Less)
}

pub fn lte(a: &Datum, b: &Datum) -> (r: Datum)
    ensures
        r@ == DatumV::from_bool(crate::order::datum_order(a@, b@) != crate::order::Order::Greater),
{
    Datum::from_bool(a.compare(b) != crate::order::Order::Greater)
}

pub fn gt(a: &Datum, b: &Datum) -> (r: Datum)
    ensures
        r@ == DatumV::from_bool(crate::order::datum_order(a@, b@) == crate::order::Order::Greater),
{
    Datum::from_bool(a.compare(b) == crate::order::Order::Greater)
}

pub fn gte(a: &Datum, b: &Datum) -> (r: Datum)
    ensures
        r@ == DatumV::from_bool(crate::order::datum_order(a@, b@) != crate::order::Order::Less),
{
    Datum::from_bool(a.compare(b) != crate::order::Order::Less)
}

/// Integer arithmetic never wraps: where the sum, the difference, the
/// product or the quotient of two integers does not fit their type, the
/// operation fails with a numeric-range error; and where it fits, the
/// operation gives it.
pub proof fn lemma_checked_arithmetic(a: DatumV, b: DatumV)
    ensures
        a is Int16 && b is Int16 ==> {
            &&& add_int16_spec(a, b) == int16_or(a->Int16_0 + b->Int16_0, EvalErrorV::NumericFieldOverflow)
            &&& !fits_int16(a->Int16_0 + b->Int16_0) ==> add_int16_spec(a, b) is Err && add_int16_spec(
                a,
                b,
            )->Err_0.is_numeric_range()
            &&& !fits_int16(a->Int16_0 - b->Int16_0) ==> sub_int16_spec(a, b) is Err && sub_int16_spec(
                a,
                b,
            )->Err_0.is_numeric_range()
            &&& !fits_int16(a->Int16_0 * b->Int16_0) ==> mul_int16_spec(a, b) is Err && mul_int16_spec(
                a,
                b,
            )->Err_0.is_numeric_range()
            &&& b->Int16_0 != 0 && !fits_int16(trunc_div(a->Int16_0 as int, b->Int16_0 as int)) ==> div_int16_spec(
                a,
                b,
            ) is Err && div_int16_spec(a, b)->Err_0.is_numeric_range()
        },
        a is Int32 && b is Int32 ==> {
            &&& !fits_int32(a->Int32_0 + b->Int32_0) ==> add_int32_spec(a, b) is Err && add_int32_spec(
                a,
                b,
            )->Err_0.is_numeric_range()
            &&& !fits_int32(a->Int32_0 - b->Int32_0) ==> sub_int32_spec(a, b) is Err && sub_int32_spec(
                a,
                b,
            )->Err_0.is_numeric_range()
            &&& !fits_int32(a->Int32_0 * b->Int32_0) ==> mul_int32_spec(a, b) is Err && mul_int32_spec(
                a,
                b,
            )->Err_0.is_numeric_range()
            &&& b->Int32_0 != 0 && !fits_int32(trunc_div(a->Int32_0 as int, b->Int32_0 as int)) ==> div_int32_spec(
                a,
                b,
            ) is Err && div_int32_spec(a, b)->Err_0.is_numeric_range()
        },
        a is Int64 && b is Int64 ==> {
            &&& !fits_int64(a->Int64_0 + b->Int64_0) ==> add_int64_spec(a, b) is Err && add_int64_spec(
                a,
                b,
            )->Err_0.is_numeric_range()
            &&& !fits_int64(a->Int64_0 - b->Int64_0) ==> sub_int64_spec(a, b) is Err && sub_int64_spec(
                a,
                b,
            )->Err_0.is_numeric_range()
            &&& !fits_int64(a->Int64_0 * b->Int64_0) ==> mul_int64_spec(a, b) is Err && mul_int64_spec(
                a,
                b,
            )->Err_0.is_numeric_range()
            &&& b->Int64_0 != 0 && !fits_int64(trunc_div(a->Int64_0 as int, b->Int64_0 as int)) ==> div_int64_spec(
                a,
                b,
            ) is Err && div_int64_spec(a, b)->Err_0.is_numeric_range()
        },
        a is Int16 ==> (!fits_int16(-(a->Int16_0 as int)) ==> neg_int16_spec(a) is Err && neg_int16_spec(
            a,
        )->Err_0.is_numeric_range()),
        a is Int32 ==> (!fits_int32(-(a->Int32_0 as int)) ==> neg_int32_spec(a) is Err && neg_int32_spec(
            a,
        )->Err_0.is_numeric_range()),
        a is Int64 ==> (!fits_int64(-(a->Int64_0 as int)) ==> neg_int64_spec(a) is Err && neg_int64_spec(
            a,
        )->Err_0.is_numeric_range()),
{
}

} // verus!
