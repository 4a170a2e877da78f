//! Functions on decimals. Each operation runs in a context of its own,
//! reads the flags that it leaves there, and brings its result into the
//! canonical form of decimal datums; what cannot be kept within their
//! precision is an error.

use vstd::prelude::*;
use crate::datum::{res_view, Datum, DatumV, Numeric};
use crate::error::{EvalError, EvalErrorV};
use crate::float::FloatUnit;
use crate::func_string::syntax_error;
use crate::numeric::{dec_abs, dec_div, dec_exp, dec_from_i128, dec_ln, dec_log10, dec_mul, dec_neg, dec_parse, dec_pow};
use crate::numeric::{dec_add, dec_reduce, dec_rem, dec_rescale, dec_round, dec_scaleb, dec_sqrt, dec_sub, dec_to_i64};
use crate::numeric::{dec_abs_result, dec_add_result, dec_div_result, dec_exp_result, dec_from_i128_result};
use crate::numeric::{dec_ln_result, dec_log10_result, dec_mul_result, dec_neg_result, dec_parse_result};
use crate::numeric::{dec_pow_result, dec_reduce_result, dec_rem_result, dec_rescale_result, dec_round_result};
use crate::numeric::{dec_scaleb_result, dec_sqrt_result, dec_sub_result, dec_text, dec_to_i64_result, dec_to_string};
use crate::numeric::{DecStatus, RoundMode, NUMERIC_DATUM_MAX_PRECISION, NUMERIC_MAX_EXPONENT, NUMERIC_MIN_EXPONENT};
use crate::order::{float32_key, float32_place, float64_key, float64_place};

verus! {

/// Whether a datum is a well-formed decimal.
pub open spec fn is_numeric(d: DatumV) -> bool {
    d is Numeric && d->Numeric_0.wf()
}

/// Whether a datum is a well-formed decimal.
pub fn check_numeric(d: &Datum) -> (r: bool)
    ensures
        r == is_numeric(d@),
{
    match d {
        Datum::Numeric(n) => n.is_wf(),
        _ => false,
    }
}

/// A zero or a NaN without its sign; any other decimal as it is.
pub open spec fn unsigned_zero(n: Numeric) -> Numeric {
    if (n.is_zero_spec() || n.is_nan_spec()) && n.is_negative_spec() {
        dec_neg_result(n, NUMERIC_MAX_EXPONENT, NUMERIC_MIN_EXPONENT).0
    } else {
        n
    }
}

fn drop_zero_sign(n: Numeric) -> (r: Numeric)
    requires
        n.wf(),
    ensures
        r == unsigned_zero(n),
        r.wf(),
{
    if (n.is_zero() || n.is_nan()) && n.is_negative() {
        dec_neg(&n, NUMERIC_MAX_EXPONENT, NUMERIC_MIN_EXPONENT).0
    } else {
        n
    }
}

/// A decimal in the form of decimal datums: of at most 39 digits, digits
/// behind the point given up where there are more, and a zero without
/// sign. There is none where digits before the point would be lost.
pub open spec fn munged(n: Numeric) -> Option<Numeric> {
    if n.precision() > NUMERIC_DATUM_MAX_PRECISION {
        if n.exponent < 0 && n.scale() <= 255 {
            let target = n.scale() - (n.precision() - NUMERIC_DATUM_MAX_PRECISION);
            match rescaled(n, target as int) {
                Some(m) => Some(unsigned_zero(m)),
                None => None,
            }
        } else {
            None
        }
    } else {
        Some(unsigned_zero(n))
    }
}

/// A decimal brought to a number of digits behind the point, if it then
/// has at most 39 digits.
pub open spec fn rescaled(n: Numeric, scale: int) -> Option<Numeric> {
    let (r, status) = dec_rescale_result(n, (-scale) as i32, NUMERIC_MAX_EXPONENT, NUMERIC_MIN_EXPONENT);
    if status.invalid || r.precision() > NUMERIC_DATUM_MAX_PRECISION {
        None
    } else {
        Some(unsigned_zero(r))
    }
}

/// Brings a decimal to a number of digits behind the point.
pub fn rescale(n: &Numeric, scale: u8) -> (r: Option<Numeric>)
    requires
        n.wf(),
    ensures
        r == rescaled(*n, scale as int),
        r is Some ==> r->0.wf(),
{
    let (m, status) = dec_rescale(n, -(scale as i32), NUMERIC_MAX_EXPONENT, NUMERIC_MIN_EXPONENT);
    if status.invalid || m.get_precision() > NUMERIC_DATUM_MAX_PRECISION as i64 {
        None
    } else {
        Some(drop_zero_sign(m))
    }
}

/// Brings a decimal into the form of decimal datums.
pub fn munge_numeric(n: &Numeric) -> (r: Option<Numeric>)
    requires
        n.wf(),
    ensures
        r == munged(*n),
        r is Some ==> r->0.wf(),
{
    let precision = n.get_precision();
    if precision > NUMERIC_DATUM_MAX_PRECISION as i64 {
        let scale = n.get_scale();
        if n.exponent < 0 && scale <= 255 {
            let target = (scale - (precision - NUMERIC_DATUM_MAX_PRECISION as i64)) as u8;
            match rescale(n, target) {
                Some(m) => Some(drop_zero_sign(m)),
                None => None,
            }
        } else {
            None
        }
    } else {
        Some(drop_zero_sign(*n))
    }
}

/// The decimal datum of a decimal in its canonical form.
pub open spec fn numeric_datum(n: Numeric) -> DatumV {
    DatumV::Numeric(n.canon())
}

fn to_datum(n: Numeric) -> (r: Datum)
    requires
        n.wf(),
    ensures
        r@ == numeric_datum(n),
        is_numeric(r@),
{
    proof {
        n.lemma_canon();
    }
    Datum::Numeric(n.to_canon())
}

/// The decimal datum of a decimal brought into the form of decimal datums,
/// or the error that it has no such form.
pub open spec fn munged_datum(n: Numeric) -> Result<DatumV, EvalErrorV> {
    match munged(n) {
        Some(m) => Ok(numeric_datum(m)),
        None => Err(EvalErrorV::NumericFieldOverflow),
    }
}

fn munge_to_datum(n: &Numeric) -> (r: Result<Datum, EvalError>)
    requires
        n.wf(),
    ensures
        res_view(r) == munged_datum(*n),
        r is Ok ==> is_numeric(r->Ok_0@),
{
    match munge_numeric(n) {
        Some(m) => Ok(to_datum(m)),
        None => Err(EvalError::NumericFieldOverflow),
    }
}

pub fn abs_numeric(a: &Datum) -> (r: Datum)
    requires
        is_numeric(a@),
    ensures
        r@ == numeric_datum(dec_abs_result(a@->Numeric_0, NUMERIC_MAX_EXPONENT, NUMERIC_MIN_EXPONENT).0),
{
    to_datum(dec_abs(&a.unwrap_numeric(), NUMERIC_MAX_EXPONENT, NUMERIC_MIN_EXPONENT).0)
}

pub fn neg_numeric(a: &Datum) -> (r: Result<Datum, EvalError>)
    requires
        is_numeric(a@),
    ensures
        res_view(r) == munged_datum(dec_neg_result(a@->Numeric_0, NUMERIC_MAX_EXPONENT, NUMERIC_MIN_EXPONENT).0),
{
    munge_to_datum(&dec_neg(&a.unwrap_numeric(), NUMERIC_MAX_EXPONENT, NUMERIC_MIN_EXPONENT).0)
}

/// A decimal rounded to an integer under a mode; a decimal without digits
/// behind the point is left as it is.
pub open spec fn round_to_integer_spec(a: DatumV, mode: RoundMode) -> Result<DatumV, EvalErrorV> {
    if a->Numeric_0.exponent >= 0 {
        Ok(a)
    } else {
        munged_datum(dec_round_result(a->Numeric_0, mode, NUMERIC_MAX_EXPONENT, NUMERIC_MIN_EXPONENT).0)
    }
}

fn round_to_integer(a: &Datum, mode: RoundMode) -> (r: Result<Datum, EvalError>)
    requires
        is_numeric(a@),
    ensures
        res_view(r) == round_to_integer_spec(a@, mode),
{
    let d = a.unwrap_numeric();
    if d.exponent() >= 0 {
        return Ok(a.clone());
    }
    munge_to_datum(&dec_round(&d, mode, NUMERIC_MAX_EXPONENT, NUMERIC_MIN_EXPONENT).0)
}

/// The least integer that is not below the decimal.
pub fn ceil_numeric(a: &Datum) -> (r: Result<Datum, EvalError>)
    requires
        is_numeric(a@),
    ensures
        res_view(r) == round_to_integer_spec(a@, RoundMode::Ceiling),
{
    round_to_integer(a, RoundMode::Ceiling)
}

/// The greatest integer that is not above the decimal.
pub fn floor_numeric(a: &Datum) -> (r: Result<Datum, EvalError>)
    requires
        is_numeric(a@),
    ensures
        res_view(r) == round_to_integer_spec(a@, RoundMode::Floor),
{
    round_to_integer(a, RoundMode::Floor)
}

/// The integer nearest to the decimal, a half rounded away from zero.
pub fn round_numeric_unary(a: &Datum) -> (r: Datum)
    requires
        is_numeric(a@),
    ensures
        r@ == if a@->Numeric_0.exponent >= 0 {
            a@
        } else {
            numeric_datum(
                dec_round_result(a@->Numeric_0, RoundMode::HalfUp, NUMERIC_MAX_EXPONENT, NUMERIC_MIN_EXPONENT).0,
            )
        },
{
    let d = a.unwrap_numeric();
    if d.exponent() >= 0 {
        return a.clone();
    }
    to_datum(dec_round(&d, RoundMode::HalfUp, NUMERIC_MAX_EXPONENT, NUMERIC_MIN_EXPONENT).0)
}

/// The power of ten to which a decimal is rounded, limited so that the
/// decimal keeps within 39 digits.
pub open spec fn padded_places(a: Numeric, b: int) -> int {
    let limit = NUMERIC_DATUM_MAX_PRECISION - (a.precision() - a.scale());
    if b <= limit {
        b
    } else {
        limit
    }
}

/// An integer kept within the 32-bit integers.
pub open spec fn clamp_i32(x: int) -> i32 {
    if x > i32::MAX {
        i32::MAX
    } else if x < i32::MIN {
        i32::MIN
    } else {
        x as i32
    }
}

/// A number of places kept within one more than the precision, either
/// way.
pub open spec fn clamp_places(b: int) -> i32 {
    if b > 40 {
        40i32
    } else if b < -40 {
        -40i32
    } else {
        b as i32
    }
}

pub open spec fn round_numeric_binary_spec(a: Numeric, b: i32) -> Result<DatumV, EvalErrorV> {
    let pads = (a.exponent > 0 && b > 0) || (a.exponent < 0 && -a.exponent < b);
    let (r, overflow) = if pads {
        let out = dec_rescale_result(
            a,
            clamp_i32(-padded_places(a, b as int)),
            NUMERIC_MAX_EXPONENT,
            NUMERIC_MIN_EXPONENT,
        );
        (out.0, out.1.overflow)
    } else {
        let places = clamp_places(b as int);
        let shifted = dec_scaleb_result(a, places, NUMERIC_MAX_EXPONENT, NUMERIC_MIN_EXPONENT);
        let rounded = dec_round_result(shifted.0, RoundMode::HalfUp, NUMERIC_MAX_EXPONENT, NUMERIC_MIN_EXPONENT);
        let back = dec_scaleb_result(rounded.0, (-places) as i32, NUMERIC_MAX_EXPONENT, NUMERIC_MIN_EXPONENT);
        (back.0, shifted.1.overflow || rounded.1.overflow || back.1.overflow)
    };
    if overflow {
        Err(EvalErrorV::FloatOverflow)
    } else if r.is_zero_spec() {
        Ok(numeric_datum(Numeric::zero_spec()))
    } else {
        munged_datum(r)
    }
}

/// A decimal rounded at a number of places behind the point, or before
/// it for a negative number. A decimal with fewer places is padded with
/// zeros as far as its precision allows.
pub fn round_numeric_binary(a: &Datum, b: &Datum) -> (r: Result<Datum, EvalError>)
    requires
        is_numeric(a@),
        b@ is Int32,
    ensures
        res_view(r) == round_numeric_binary_spec(a@->Numeric_0, b@->Int32_0),
{
    let a = a.unwrap_numeric();
    let b = b.unwrap_int32() as i64;
    let a_exp = a.exponent() as i64;
    let (r, overflow) = if (a_exp > 0 && b > 0) || (a_exp < 0 && -a_exp < b) {
        let limit = NUMERIC_DATUM_MAX_PRECISION as i64 - (a.get_precision() - a.get_scale());
        let places = if b <= limit {
            b
        } else {
            limit
        };
        let target: i32 = if -places > i32::MAX as i64 {
            i32::MAX
        } else if -places < i32::MIN as i64 {
            i32::MIN
        } else {
            (-places) as i32
        };
        let out = dec_rescale(&a, target, NUMERIC_MAX_EXPONENT, NUMERIC_MIN_EXPONENT);
        (out.0, out.1.overflow)
    } else {
        let places: i32 = if b > 40 {
            40
        } else if b < -40 {
            -40
        } else {
            b as i32
        };
        let shifted = dec_scaleb(&a, places, NUMERIC_MAX_EXPONENT, NUMERIC_MIN_EXPONENT);
        let rounded = dec_round(&shifted.0, RoundMode::HalfUp, NUMERIC_MAX_EXPONENT, NUMERIC_MIN_EXPONENT);
        let back = dec_scaleb(&rounded.0, -places, NUMERIC_MAX_EXPONENT, NUMERIC_MIN_EXPONENT);
        (back.0, shifted.1.overflow || rounded.1.overflow || back.1.overflow)
    };
    if overflow {
        Err(EvalError::FloatOverflow)
    } else if r.is_zero() {
        Ok(to_datum(Numeric::zero()))
    } else {
        munge_to_datum(&r)
    }
}

pub open spec fn add_numeric_spec(a: Numeric, b: Numeric) -> Result<DatumV, EvalErrorV> {
    let out = dec_add_result(a, b, NUMERIC_MAX_EXPONENT, NUMERIC_MIN_EXPONENT);
    if out.1.overflow {
        Err(EvalErrorV::FloatOverflow)
    } else {
        Ok(numeric_datum(out.0))
    }
}

/// The sum of two decimals; an overflow of the context is an error.
pub fn add_numeric(a: &Datum, b: &Datum) -> (r: Result<Datum, EvalError>)
    requires
        is_numeric(a@),
        is_numeric(b@),
    ensures
        res_view(r) == add_numeric_spec(a@->Numeric_0, b@->Numeric_0),
{
    let out = dec_add(&a.unwrap_numeric(), &b.unwrap_numeric(), NUMERIC_MAX_EXPONENT, NUMERIC_MIN_EXPONENT);
    if out.1.overflow {
        Err(EvalError::FloatOverflow)
    } else {
        Ok(to_datum(out.0))
    }
}

pub open spec fn sub_numeric_spec(a: Numeric, b: Numeric) -> Result<DatumV, EvalErrorV> {
    let out = dec_sub_result(a, b, NUMERIC_MAX_EXPONENT, NUMERIC_MIN_EXPONENT);
    if out.1.overflow {
        Err(EvalErrorV::FloatOverflow)
    } else {
        Ok(numeric_datum(out.0))
    }
}

/// The difference of two decimals; an overflow of the context is an
/// error.
pub fn sub_numeric(a: &Datum, b: &Datum) -> (r: Result<Datum, EvalError>)
    requires
        is_numeric(a@),
        is_numeric(b@),
    ensures
        res_view(r) == sub_numeric_spec(a@->Numeric_0, b@->Numeric_0),
{
    let out = dec_sub(&a.unwrap_numeric(), &b.unwrap_numeric(), NUMERIC_MAX_EXPONENT, NUMERIC_MIN_EXPONENT);
    if out.1.overflow {
        Err(EvalError::FloatOverflow)
    } else {
        Ok(to_datum(out.0))
    }
}

/// The outcome of an operation that can overflow and underflow: an error
/// for either flag, else the decimal datum of the result.
pub open spec fn checked_outcome(out: (Numeric, DecStatus)) -> Result<DatumV, EvalErrorV> {
    if out.1.overflow {
        Err(EvalErrorV::FloatOverflow)
    } else if out.1.subnormal {
        Err(EvalErrorV::FloatUnderflow)
    } else {
        munged_datum(out.0)
    }
}

fn check_outcome(out: (Numeric, DecStatus)) -> (r: Result<Datum, EvalError>)
    requires
        out.0.wf(),
    ensures
        res_view(r) == checked_outcome(out),
{
    if out.1.overflow {
        Err(EvalError::FloatOverflow)
    } else if out.1.subnormal {
        Err(EvalError::FloatUnderflow)
    } else {
        munge_to_datum(&out.0)
    }
}

/// The product of two decimals; an overflow or an underflow of the
/// context is an error.
pub fn mul_numeric(a: &Datum, b: &Datum) -> (r: Result<Datum, EvalError>)
    requires
        is_numeric(a@),
        is_numeric(b@),
    ensures
        res_view(r) == checked_outcome(
            dec_mul_result(a@->Numeric_0, b@->Numeric_0, NUMERIC_MAX_EXPONENT, NUMERIC_MIN_EXPONENT),
        ),
{
    check_outcome(dec_mul(&a.unwrap_numeric(), &b.unwrap_numeric(), NUMERIC_MAX_EXPONENT, NUMERIC_MIN_EXPONENT))
}

pub open spec fn div_numeric_spec(a: Numeric, b: Numeric) -> Result<DatumV, EvalErrorV> {
    if b.is_zero_spec() {
        Err(EvalErrorV::DivisionByZero)
    } else {
        checked_outcome(dec_div_result(a, b, NUMERIC_MAX_EXPONENT, NUMERIC_MIN_EXPONENT))
    }
}

/// The quotient of two decimals. A divisor of zero is an error, whatever
/// the dividend; so is an overflow or an underflow of the context.
pub fn div_numeric(a: &Datum, b: &Datum) -> (r: Result<Datum, EvalError>)
    requires
        is_numeric(a@),
        is_numeric(b@),
    ensures
        res_view(r) == div_numeric_spec(a@->Numeric_0, b@->Numeric_0),
{
    let y = b.unwrap_numeric();
    if y.is_zero() {
        Err(EvalError::DivisionByZero)
    } else {
        check_outcome(dec_div(&a.unwrap_numeric(), &y, NUMERIC_MAX_EXPONENT, NUMERIC_MIN_EXPONENT))
    }
}

pub open spec fn mod_numeric_spec(a: Numeric, b: Numeric) -> Result<DatumV, EvalErrorV> {
    if b.is_zero_spec() {
        Err(EvalErrorV::DivisionByZero)
    } else {
        munged_datum(dec_rem_result(a, b, NUMERIC_MAX_EXPONENT, NUMERIC_MIN_EXPONENT).0)
    }
}

/// The remainder of the division of two decimals, with the sign of the
/// dividend. A divisor of zero is an error.
pub fn mod_numeric(a: &Datum, b: &Datum) -> (r: Result<Datum, EvalError>)
    requires
        is_numeric(a@),
        is_numeric(b@),
    ensures
        res_view(r) == mod_numeric_spec(a@->Numeric_0, b@->Numeric_0),
{
    let y = b.unwrap_numeric();
    if y.is_zero() {
        return Err(EvalError::DivisionByZero);
    }
    munge_to_datum(&dec_rem(&a.unwrap_numeric(), &y, NUMERIC_MAX_EXPONENT, NUMERIC_MIN_EXPONENT).0)
}

pub open spec fn sqrt_numeric_spec(a: Numeric) -> Result<DatumV, EvalErrorV> {
    if a.is_negative_spec() {
        Err(EvalErrorV::NegSqrt)
    } else {
        munged_datum(dec_sqrt_result(a, NUMERIC_MAX_EXPONENT, NUMERIC_MIN_EXPONENT).0)
    }
}

/// The square root of a decimal; that of a negative decimal is an error.
pub fn sqrt_numeric(a: &Datum) -> (r: Result<Datum, EvalError>)
    requires
        is_numeric(a@),
    ensures
        res_view(r) == sqrt_numeric_spec(a@->Numeric_0),
{
    let x = a.unwrap_numeric();
    if x.is_negative() {
        return Err(EvalError::NegSqrt);
    }
    munge_to_datum(&dec_sqrt(&x, NUMERIC_MAX_EXPONENT, NUMERIC_MIN_EXPONENT).0)
}

/// The error of a logarithm of a decimal that has none, if it has none:
/// a negative decimal or a zero.
pub open spec fn log_guard_spec(val: Numeric, function_name: Seq<char>) -> Option<EvalErrorV> {
    if val.is_negative_spec() {
        Some(EvalErrorV::NegativeOutOfDomain(function_name))
    } else if val.is_zero_spec() {
        Some(EvalErrorV::ZeroOutOfDomain(function_name))
    } else {
        None
    }
}

pub fn log_guard_numeric(val: &Numeric, function_name: &str) -> (r: Result<(), EvalError>)
    ensures
        match r {
            Ok(_) => log_guard_spec(*val, function_name@) is None,
            Err(e) => log_guard_spec(*val, function_name@) == Some(e@),
        },
{
    if val.is_negative() {
        return Err(EvalError::NegativeOutOfDomain(function_name.to_owned()));
    }
    if val.is_zero() {
        return Err(EvalError::ZeroOutOfDomain(function_name.to_owned()));
    }
    Ok(())
}

pub open spec fn ln_numeric_spec(a: Numeric) -> Result<DatumV, EvalErrorV> {
    match log_guard_spec(a, "ln"@) {
        Some(e) => Err(e),
        None => munged_datum(dec_ln_result(a, NUMERIC_MAX_EXPONENT, NUMERIC_MIN_EXPONENT).0),
    }
}

/// The natural logarithm of a decimal above zero.
pub fn ln_numeric(a: &Datum) -> (r: Result<Datum, EvalError>)
    requires
        is_numeric(a@),
    ensures
        res_view(r) == ln_numeric_spec(a@->Numeric_0),
{
    let x = a.unwrap_numeric();
    match log_guard_numeric(&x, "ln") {
        Err(e) => Err(e),
        Ok(_) => munge_to_datum(&dec_ln(&x, NUMERIC_MAX_EXPONENT, NUMERIC_MIN_EXPONENT).0),
    }
}

pub open spec fn log10_numeric_spec(a: Numeric) -> Result<DatumV, EvalErrorV> {
    match log_guard_spec(a, "log10"@) {
        Some(e) => Err(e),
        None => munged_datum(dec_log10_result(a, NUMERIC_MAX_EXPONENT, NUMERIC_MIN_EXPONENT).0),
    }
}

/// The logarithm to the base 10 of a decimal above zero.
pub fn log10_numeric(a: &Datum) -> (r: Result<Datum, EvalError>)
    requires
        is_numeric(a@),
    ensures
        res_view(r) == log10_numeric_spec(a@->Numeric_0),
{
    let x = a.unwrap_numeric();
    match log_guard_numeric(&x, "log10") {
        Err(e) => Err(e),
        Ok(_) => munge_to_datum(&dec_log10(&x, NUMERIC_MAX_EXPONENT, NUMERIC_MIN_EXPONENT).0),
    }
}

pub open spec fn log_base_numeric_spec(a: Numeric, b: Numeric) -> Result<DatumV, EvalErrorV> {
    match log_guard_spec(a, "log"@) {
        Some(e) => Err(e),
        None => match log_guard_spec(b, "log"@) {
            Some(e) => Err(e),
            None => {
                let la = dec_ln_result(a, NUMERIC_MAX_EXPONENT, NUMERIC_MIN_EXPONENT).0;
                let lb = dec_ln_result(b, NUMERIC_MAX_EXPONENT, NUMERIC_MIN_EXPONENT).0;
                let q = dec_div_result(lb, la, NUMERIC_MAX_EXPONENT, NUMERIC_MIN_EXPONENT).0;
                if la.is_zero_spec() {
                    Err(EvalErrorV::DivisionByZero)
                } else {
                    let check = dec_reduce_result(q, 38, NUMERIC_MAX_EXPONENT, NUMERIC_MIN_EXPONENT);
                    munged_datum(
                        if check.exponent >= 0 {
                            check
                        } else {
                            q
                        },
                    )
                }
            },
        },
    }
}

/// The logarithm of the second decimal to the base of the first, as the
/// quotient of their natural logarithms. A quotient that is an integer
/// once its last digit is rounded away is taken to be that integer.
pub fn log_base_numeric(a: &Datum, b: &Datum) -> (r: Result<Datum, EvalError>)
    requires
        is_numeric(a@),
        is_numeric(b@),
    ensures
        res_view(r) == log_base_numeric_spec(a@->Numeric_0, b@->Numeric_0),
{
    let a = a.unwrap_numeric();
    match log_guard_numeric(&a, "log") {
        Err(e) => {
            return Err(e);
        },
        Ok(_) => {},
    }
    let b = b.unwrap_numeric();
    match log_guard_numeric(&b, "log") {
        Err(e) => {
            return Err(e);
        },
        Ok(_) => {},
    }
    let la = dec_ln(&a, NUMERIC_MAX_EXPONENT, NUMERIC_MIN_EXPONENT).0;
    let lb = dec_ln(&b, NUMERIC_MAX_EXPONENT, NUMERIC_MIN_EXPONENT).0;
    let q = dec_div(&lb, &la, NUMERIC_MAX_EXPONENT, NUMERIC_MIN_EXPONENT).0;
    if la.is_zero() {
        Err(EvalError::DivisionByZero)
    } else {
        let check = dec_reduce(&q, 38, NUMERIC_MAX_EXPONENT, NUMERIC_MIN_EXPONENT);
        let result = if check.exponent() >= 0 {
            check
        } else {
            q
        };
        munge_to_datum(&result)
    }
}

/// e to the power of a decimal; an overflow or an underflow of the context
/// is an error.
pub fn exp_numeric(a: &Datum) -> (r: Result<Datum, EvalError>)
    requires
        is_numeric(a@),
    ensures
        res_view(r) == checked_outcome(dec_exp_result(a@->Numeric_0, NUMERIC_MAX_EXPONENT, NUMERIC_MIN_EXPONENT)),
{
    check_outcome(dec_exp(&a.unwrap_numeric(), NUMERIC_MAX_EXPONENT, NUMERIC_MIN_EXPONENT))
}

pub open spec fn power_numeric_spec(a: Numeric, b: Numeric) -> Result<DatumV, EvalErrorV> {
    if a.is_zero_spec() && b.is_zero_spec() {
        Ok(numeric_datum(dec_from_i128_result(1)))
    } else if a.is_zero_spec() && b.is_negative_spec() {
        Err(EvalErrorV::Undefined("zero raised to a negative power"@))
    } else if a.is_negative_spec() && b.exponent < 0 {
        Err(EvalErrorV::ComplexOutOfRange("pow"@))
    } else {
        let out = dec_pow_result(a, b, NUMERIC_MAX_EXPONENT, NUMERIC_MIN_EXPONENT);
        if out.1.overflow || (out.1.invalid && !b.is_negative_spec()) {
            Err(EvalErrorV::FloatOverflow)
        } else if out.1.subnormal || out.1.invalid {
            Err(EvalErrorV::FloatUnderflow)
        } else {
            munged_datum(out.0)
        }
    }
}

/// The first decimal to the power of the second. Zero to the power of
/// zero is one; zero to a negative power is undefined; a negative decimal
/// to a power that is no integer is out of range.
pub fn power_numeric(a: &Datum, b: &Datum) -> (r: Result<Datum, EvalError>)
    requires
        is_numeric(a@),
        is_numeric(b@),
    ensures
        res_view(r) == power_numeric_spec(a@->Numeric_0, b@->Numeric_0),
{
    let a = a.unwrap_numeric();
    let b = b.unwrap_numeric();
    if a.is_zero() {
        if b.is_zero() {
            return Ok(to_datum(dec_from_i128(1)));
        }
        if b.is_negative() {
            return Err(EvalError::Undefined("zero raised to a negative power".to_owned()));
        }
    }
    if a.is_negative() && b.exponent() < 0 {
        return Err(EvalError::ComplexOutOfRange("pow".to_owned()));
    }
    let out = dec_pow(&a, &b, NUMERIC_MAX_EXPONENT, NUMERIC_MIN_EXPONENT);
    if out.1.overflow || (out.1.invalid && !b.is_negative()) {
        Err(EvalError::FloatOverflow)
    } else if out.1.subnormal || out.1.invalid {
        Err(EvalError::FloatUnderflow)
    } else {
        munge_to_datum(&out.0)
    }
}

/// The decimal datum of a decimal brought to a scale, or the error that
/// it does not fit.
pub open spec fn rescaled_datum(n: Numeric, scale: Option<u8>) -> Result<DatumV, EvalErrorV> {
    match scale {
        None => Ok(numeric_datum(n)),
        Some(s) => match rescaled(n, s as int) {
            Some(m) => Ok(numeric_datum(m)),
            None => Err(EvalErrorV::NumericFieldOverflow),
        },
    }
}

fn rescale_to_datum(n: Numeric, scale: Option<u8>) -> (r: Result<Datum, EvalError>)
    requires
        n.wf(),
    ensures
        res_view(r) == rescaled_datum(n, scale),
{
    match scale {
        None => Ok(to_datum(n)),
        Some(s) => match rescale(&n, s) {
            Some(m) => Ok(to_datum(m)),
            None => Err(EvalError::NumericFieldOverflow),
        },
    }
}

pub fn rescale_numeric(a: &Datum, scale: u8) -> (r: Result<Datum, EvalError>)
    requires
        is_numeric(a@),
    ensures
        res_view(r) == rescaled_datum(a@->Numeric_0, Some(scale)),
{
    rescale_to_datum(a.unwrap_numeric(), Some(scale))
}

pub fn cast_int16_to_numeric(a: &Datum, scale: Option<u8>) -> (r: Result<Datum, EvalError>)
    requires
        a@ is Int16,
    ensures
        res_view(r) == rescaled_datum(dec_from_i128_result(a@->Int16_0 as i128), scale),
{
    rescale_to_datum(dec_from_i128(a.unwrap_int16() as i128), scale)
}

pub fn cast_int32_to_numeric(a: &Datum, scale: Option<u8>) -> (r: Result<Datum, EvalError>)
    requires
        a@ is Int32,
    ensures
        res_view(r) == rescaled_datum(dec_from_i128_result(a@->Int32_0 as i128), scale),
{
    rescale_to_datum(dec_from_i128(a.unwrap_int32() as i128), scale)
}

pub fn cast_int64_to_numeric(a: &Datum, scale: Option<u8>) -> (r: Result<Datum, EvalError>)
    requires
        a@ is Int64,
    ensures
        res_view(r) == rescaled_datum(dec_from_i128_result(a@->Int64_0 as i128), scale),
{
    rescale_to_datum(dec_from_i128(a.unwrap_int64() as i128), scale)
}

/// The integer nearest to a decimal, if it is a 64-bit integer.
pub open spec fn numeric_to_int(a: Numeric) -> Option<i64> {
    dec_to_i64_result(dec_round_result(a, RoundMode::HalfUp, NUMERIC_MAX_EXPONENT, NUMERIC_MIN_EXPONENT).0)
}

fn round_to_i64(a: &Numeric) -> (r: Option<i64>)
    requires
        a.wf(),
    ensures
        r == numeric_to_int(*a),
{
    dec_to_i64(&dec_round(a, RoundMode::HalfUp, NUMERIC_MAX_EXPONENT, NUMERIC_MIN_EXPONENT).0)
}

pub fn cast_numeric_to_int16(a: &Datum) -> (r: Result<Datum, EvalError>)
    requires
        is_numeric(a@),
    ensures
        res_view(r) == match numeric_to_int(a@->Numeric_0) {
            Some(n) => crate::func_int::int16_or(n as int, EvalErrorV::Int16OutOfRange),
            None => Err(EvalErrorV::Int16OutOfRange),
        },
{
    match round_to_i64(&a.unwrap_numeric()) {
        Some(n) => if i16::MIN as i64 <= n && n <= i16::MAX as i64 {
            Ok(Datum::Int16(n as i16))
        } else {
            Err(EvalError::Int16OutOfRange)
        },
        None => Err(EvalError::Int16OutOfRange),
    }
}

pub fn cast_numeric_to_int32(a: &Datum) -> (r: Result<Datum, EvalError>)
    requires
        is_numeric(a@),
    ensures
        res_view(r) == match numeric_to_int(a@->Numeric_0) {
            Some(n) => crate::func_int::int32_or(n as int, EvalErrorV::Int32OutOfRange),
            None => Err(EvalErrorV::Int32OutOfRange),
        },
{
    match round_to_i64(&a.unwrap_numeric()) {
        Some(n) => if i32::MIN as i64 <= n && n <= i32::MAX as i64 {
            Ok(Datum::Int32(n as i32))
        } else {
            Err(EvalError::Int32OutOfRange)
        },
        None => Err(EvalError::Int32OutOfRange),
    }
}

pub fn cast_numeric_to_int64(a: &Datum) -> (r: Result<Datum, EvalError>)
    requires
        is_numeric(a@),
    ensures
        res_view(r) == match numeric_to_int(a@->Numeric_0) {
            Some(n) => Ok::<DatumV, EvalErrorV>(DatumV::Int64(n)),
            None => Err(EvalErrorV::Int64OutOfRange),
        },
{
    match round_to_i64(&a.unwrap_numeric()) {
        Some(n) => Ok(Datum::Int64(n)),
        None => Err(EvalError::Int64OutOfRange),
    }
}

/// The text of a decimal, never in scientific notation.
pub fn cast_numeric_to_string(a: &Datum) -> (r: Datum)
    requires
        is_numeric(a@),
    ensures
        r@ == DatumV::String(dec_text(a@->Numeric_0)),
{
    Datum::String(dec_to_string(&a.unwrap_numeric()))
}

/// The error for a text that denotes a value that its type cannot hold.
pub open spec fn out_of_range(target: Seq<char>, input: Seq<char>) -> EvalErrorV {
    EvalErrorV::ValueOutOfRange { target, input }
}

/// The decimal that a text denotes: what the decimal library reads from
/// the text without the white space around it, in the form of decimal
/// datums. An infinity that does not come of an overflow, or a NaN that
/// signals, is no decimal; a decimal that overflows or underflows the
/// context or has no such form is out of range.
pub open spec fn parse_numeric_spec(s: Seq<char>) -> Result<Numeric, EvalErrorV> {
    match dec_parse_result(crate::strings::trimmed(s), NUMERIC_MAX_EXPONENT, NUMERIC_MIN_EXPONENT) {
        None => Err(syntax_error("numeric"@, s)),
        Some((n, status)) => if (n.is_infinite_spec() && !status.overflow) || (n.bits & 0x10u8 != 0) {
            Err(syntax_error("numeric"@, s))
        } else if status.overflow || status.subnormal || munged(n) is None {
            Err(out_of_range("numeric"@, s))
        } else {
            Ok(munged(n)->0)
        },
    }
}

fn parse_numeric(s: &str) -> (r: Result<Numeric, EvalError>)
    ensures
        match r {
            Ok(n) => parse_numeric_spec(s@) == Ok::<Numeric, EvalErrorV>(n) && n.wf(),
            Err(e) => parse_numeric_spec(s@) == Err::<Numeric, EvalErrorV>(e@),
        },
{
    let v = crate::strings::to_chars(s);
    let (x, y) = crate::strings::trim_bounds(&v);
    let t = crate::strings::from_chars_range(&v, x, y);
    match dec_parse(t.as_str(), NUMERIC_MAX_EXPONENT, NUMERIC_MIN_EXPONENT) {
        None => Err(crate::func_string::invalid_input("numeric", s)),
        Some((n, status)) => {
            if (n.is_infinite() && !status.overflow) || (n.bits & 0x10u8 != 0) {
                return Err(crate::func_string::invalid_input("numeric", s));
            }
            let m = munge_numeric(&n);
            if status.overflow || status.subnormal || m.is_none() {
                Err(EvalError::ValueOutOfRange { target: "numeric".to_owned(), input: s.to_owned() })
            } else {
                Ok(m.unwrap())
            }
        },
    }
}

pub open spec fn cast_string_to_numeric_spec(s: Seq<char>, scale: Option<u8>) -> Result<DatumV, EvalErrorV> {
    match parse_numeric_spec(s) {
        Err(e) => Err(e),
        Ok(n) => rescaled_datum(n, scale),
    }
}

pub fn cast_string_to_numeric(a: &Datum, scale: Option<u8>) -> (r: Result<Datum, EvalError>)
    requires
        a@ is String,
    ensures
        res_view(r) == cast_string_to_numeric_spec(a@->String_0, scale),
{
    match parse_numeric(a.unwrap_str()) {
        Err(e) => Err(e),
        Ok(n) => rescale_to_datum(n, scale),
    }
}

/// The error for a float that the host gives no decimal for.
pub open spec fn host_error() -> EvalErrorV {
    EvalErrorV::Internal("the host gave no value"@)
}

/// A single as a decimal, which the host makes. An infinity has none.
pub fn cast_float32_to_numeric<F: FloatUnit>(a: &Datum, scale: Option<u8>, fu: &F) -> (r: Result<Datum, EvalError>)
    requires
        a@ is Float32,
    ensures
        float32_key(a@->Float32_0) == 0x7f80_0000 || float32_key(a@->Float32_0) == -0x7f80_0000 ==> res_view(r)
            == Err::<DatumV, EvalErrorV>(EvalErrorV::InfinityOutOfDomain("casting real to numeric"@)),
        !(float32_key(a@->Float32_0) == 0x7f80_0000 || float32_key(a@->Float32_0) == -0x7f80_0000) ==> exists|
            n: Numeric,
        | res_view(r) == #[trigger] float_cast_result(n, scale),
        r is Ok ==> is_numeric(r->Ok_0@),
{
    let bits = a.unwrap_float32();
    let key = float32_place(bits);
    if key == 0x7f80_0000 || key == -0x7f80_0000 {
        return Err(EvalError::InfinityOutOfDomain("casting real to numeric".to_owned()));
    }
    let n = fu.numeric_of_single(bits);
    let r = finish_float_cast(n, scale);
    assert(res_view(r) == float_cast_result(n, scale));
    r
}

/// A double as a decimal, which the host makes. An infinity has none.
pub fn cast_float64_to_numeric<F: FloatUnit>(a: &Datum, scale: Option<u8>, fu: &F) -> (r: Result<Datum, EvalError>)
    requires
        a@ is Float64,
    ensures
        float64_key(a@->Float64_0) == 0x7ff0_0000_0000_0000 || float64_key(a@->Float64_0)
            == -0x7ff0_0000_0000_0000 ==> res_view(r) == Err::<DatumV, EvalErrorV>(
            EvalErrorV::InfinityOutOfDomain("casting double precision to numeric"@),
        ),
        !(float64_key(a@->Float64_0) == 0x7ff0_0000_0000_0000 || float64_key(a@->Float64_0)
            == -0x7ff0_0000_0000_0000) ==> exists|n: Numeric| res_view(r) == #[trigger] float_cast_result(n, scale),
        r is Ok ==> is_numeric(r->Ok_0@),
{
    let bits = a.unwrap_float64();
    let key = float64_place(bits);
    if key == 0x7ff0_0000_0000_0000 || key == -0x7ff0_0000_0000_0000 {
        return Err(EvalError::InfinityOutOfDomain("casting double precision to numeric".to_owned()));
    }
    let n = fu.numeric_of_double(bits);
    let r = finish_float_cast(n, scale);
    assert(res_view(r) == float_cast_result(n, scale));
    r
}

/// What becomes of the decimal that the host made of a float: a decimal
/// that is not well formed is the error of a host that gave no value;
/// else the decimal is brought to the scale, where one is given, and into
/// the form of decimal datums, and where it does not fit either, that is a
/// numeric field overflow.
pub open spec fn float_cast_result(n: Numeric, scale: Option<u8>) -> Result<DatumV, EvalErrorV> {
    if !n.wf() {
        Err(host_error())
    } else {
        match scale {
            None => munged_datum(n),
            Some(s) => match rescaled(n, s as int) {
                Some(m) => munged_datum(m),
                None => Err(EvalErrorV::NumericFieldOverflow),
            },
        }
    }
}

/// Brings the decimal that the host made of a float to a scale and into
/// the form of decimal datums.
pub fn finish_float_cast(n: Numeric, scale: Option<u8>) -> (r: Result<Datum, EvalError>)
    ensures
        res_view(r) == float_cast_result(n, scale),
        r is Ok ==> is_numeric(r->Ok_0@),
{
    if !n.is_wf() {
        return Err(EvalError::internal("the host gave no value"));
    }
    let scaled = match scale {
        None => n,
        Some(s) => match rescale(&n, s) {
            Some(m) => m,
            None => {
                return Err(EvalError::NumericFieldOverflow);
            },
        },
    };
    munge_to_datum(&scaled)
}

/// What becomes of the single that the host read from the text of a
/// decimal: an infinity is out of range, and no single at all is the error
/// of a host that gave no value.
pub open spec fn finite_single(h: Option<u32>) -> Result<DatumV, EvalErrorV> {
    match h {
        None => Err(host_error()),
        Some(bits) => if float32_key(bits) == 0x7f80_0000 || float32_key(bits) == -0x7f80_0000 {
            Err(EvalErrorV::Float32OutOfRange)
        } else {
            Ok(DatumV::Float32(bits))
        },
    }
}

/// The datum of the single that the host read from the text of a decimal.
pub fn single_in_range(h: Option<u32>) -> (r: Result<Datum, EvalError>)
    ensures
        res_view(r) == finite_single(h),
{
    match h {
        None => Err(EvalError::internal("the host gave no value")),
        Some(bits) => {
            let key = float32_place(bits);
            if key == 0x7f80_0000 || key == -0x7f80_0000 {
                Err(EvalError::Float32OutOfRange)
            } else {
                Ok(Datum::Float32(bits))
            }
        },
    }
}

/// What becomes of the double that the host read from the text of a
/// decimal: an infinity is out of range, and no double at all is the error
/// of a host that gave no value.
pub open spec fn finite_double(h: Option<u64>) -> Result<DatumV, EvalErrorV> {
    match h {
        None => Err(host_error()),
        Some(bits) => if float64_key(bits) == 0x7ff0_0000_0000_0000 || float64_key(bits)
            == -0x7ff0_0000_0000_0000 {
            Err(EvalErrorV::Float64OutOfRange)
        } else {
            Ok(DatumV::Float64(bits))
        },
    }
}

/// The datum of the double that the host read from the text of a decimal.
pub fn double_in_range(h: Option<u64>) -> (r: Result<Datum, EvalError>)
    ensures
        res_view(r) == finite_double(h),
{
    match h {
        None => Err(EvalError::internal("the host gave no value")),
        Some(bits) => {
            let key = float64_place(bits);
            if key == 0x7ff0_0000_0000_0000 || key == -0x7ff0_0000_0000_0000 {
                Err(EvalError::Float64OutOfRange)
            } else {
                Ok(Datum::Float64(bits))
            }
        },
    }
}

/// A decimal as a single, which the host reads from the text of the
/// decimal. A decimal that is beyond the singles is out of range. The
/// host is given the text of the decimal, and whatever it reads, the
/// result is what `finite_single` makes of it.
pub fn cast_numeric_to_float32<F: FloatUnit>(a: &Datum, fu: &F) -> (r: Result<Datum, EvalError>)
    requires
        is_numeric(a@),
    ensures
        exists|h: Option<u32>| res_view(r) == #[trigger] finite_single(h),
        r is Ok ==> r->Ok_0@ is Float32 && float32_key(r->Ok_0@->Float32_0) != 0x7f80_0000 && float32_key(
            r->Ok_0@->Float32_0,
        ) != -0x7f80_0000,
{
    let text = dec_to_string(&a.unwrap_numeric());
    let h = fu.parse32(text.as_str());
    let r = single_in_range(h);
    assert(res_view(r) == finite_single(h));
    r
}

/// A decimal as a double, which the host reads from the text of the
/// decimal. A decimal that is beyond the doubles is out of range. The
/// host is given the text of the decimal, and whatever it reads, the
/// result is what `finite_double` makes of it.
pub fn cast_numeric_to_float64<F: FloatUnit>(a: &Datum, fu: &F) -> (r: Result<Datum, EvalError>)
    requires
        is_numeric(a@),
    ensures
        exists|h: Option<u64>| res_view(r) == #[trigger] finite_double(h),
        r is Ok ==> r->Ok_0@ is Float64 && float64_key(r->Ok_0@->Float64_0) != 0x7ff0_0000_0000_0000 && float64_key(
            r->Ok_0@->Float64_0,
        ) != -0x7ff0_0000_0000_0000,
{
    let text = dec_to_string(&a.unwrap_numeric());
    let h = fu.parse64(text.as_str());
    let r = double_in_range(h);
    assert(res_view(r) == finite_double(h));
    r
}

/// A JSON number as a decimal; any other JSON value is an invalid cast.
pub fn cast_jsonb_to_numeric<F: FloatUnit>(a: &Datum, scale: Option<u8>, fu: &F) -> (r: Result<Datum, EvalError>)
    requires
        crate::func_jsonb::is_jsonb_variant(a@),
    ensures
        a@ is Int64 ==> res_view(r) == rescaled_datum(dec_from_i128_result(a@->Int64_0 as i128), scale),
        !(a@ is Int64 || a@ is Float64) ==> res_view(r) == Err::<DatumV, EvalErrorV>(
            crate::func_jsonb::invalid_jsonb_cast(a@, "numeric"@),
        ),
        r is Ok ==> is_numeric(r->Ok_0@) || a@ is Int64,
{
    match a {
        Datum::Int64(_) => cast_int64_to_numeric(a, scale),
        Datum::Float64(_) => cast_float64_to_numeric(a, scale, fu),
        _ => Err(
            EvalError::InvalidJsonbCast {
                from: crate::func_jsonb::jsonb_type(a).to_owned(),
                to: "numeric".to_owned(),
            },
        ),
    }
}

/// No decimal operation wraps: where the context reports an overflow, the
/// operation fails with a numeric-range error.
pub proof fn lemma_decimal_overflow_is_error(a: Numeric, b: Numeric)
    ensures
        dec_add_result(a, b, NUMERIC_MAX_EXPONENT, NUMERIC_MIN_EXPONENT).1.overflow ==> add_numeric_spec(a, b) is Err
            && add_numeric_spec(a, b)->Err_0.is_numeric_range(),
        dec_sub_result(a, b, NUMERIC_MAX_EXPONENT, NUMERIC_MIN_EXPONENT).1.overflow ==> sub_numeric_spec(a, b) is Err
            && sub_numeric_spec(a, b)->Err_0.is_numeric_range(),
        dec_mul_result(a, b, NUMERIC_MAX_EXPONENT, NUMERIC_MIN_EXPONENT).1.overflow ==> checked_outcome(
            dec_mul_result(a, b, NUMERIC_MAX_EXPONENT, NUMERIC_MIN_EXPONENT),
        ) is Err && checked_outcome(
            dec_mul_result(a, b, NUMERIC_MAX_EXPONENT, NUMERIC_MIN_EXPONENT),
        )->Err_0.is_numeric_range(),
        !b.is_zero_spec() && dec_div_result(a, b, NUMERIC_MAX_EXPONENT, NUMERIC_MIN_EXPONENT).1.overflow
            ==> div_numeric_spec(a, b) is Err && div_numeric_spec(a, b)->Err_0.is_numeric_range(),
        forall|n: Numeric| munged(n) is None ==> munged_datum(n) is Err && (#[trigger] munged_datum(n))->Err_0.is_numeric_range(),
{
}

} // verus!
