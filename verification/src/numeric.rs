//! Decimals: their parts, their canonical form, and arithmetic on them in a
//! context made fresh for each call.
//!
//! A decimal is handed to the decimal library only where it is well
//! formed: its parts are such as an operation of the library can have
//! given, with the digits counted as they stand in the units and without
//! a leading zero. Of each outcome of the library that is taken back it is
//! claimed that it is well formed again: in a context of 39 digits whose
//! bounds on the exponent are at most those of decimal datums, the
//! exponent of an outcome lies between 38 below the lower bound and the
//! upper bound. What the library does with parts that no operation of it
//! gives is not documented, and no such parts reach it.

use vstd::prelude::*;
use crate::datum::Numeric;

verus! {

/// The most digits that a decimal datum holds.
pub const NUMERIC_DATUM_MAX_PRECISION: u32 = 39;

/// The largest exponent of the context of decimal datums.
pub const NUMERIC_MAX_EXPONENT: isize = 38;

/// The smallest exponent of the context of decimal datums.
pub const NUMERIC_MIN_EXPONENT: isize = -39;

/// The bound on the exponent of a well-formed decimal, on either side of
/// zero. It lies far within what the decimal library takes (-1999999997
/// through 999999999), holds every exponent that a context of decimal
/// datums gives (-77 through 38) and the exponents of the decimals of
/// doubles, and keeps the plain notation of a decimal short.
pub const NUMERIC_EXPONENT_BOUND: i32 = 512;

/// The sign bit of a decimal.
pub const DEC_NEGATIVE: u8 = 0x80;

/// The bit that marks an infinity.
pub const DEC_INFINITE: u8 = 0x40;

/// The bits that mark a NaN, quiet or signalling.
pub const DEC_NAN: u8 = 0x30;

/// The bits that mark a special value: an infinity or a NaN.
pub const DEC_SPECIAL: u8 = 0x70;

impl Numeric {
    /// The number of units of three digits that hold `digits` digits.
    pub open spec fn used_units(digits: u32) -> int {
        (digits + 2) / 3
    }

    /// The number of digits that the topmost unit of `digits` digits holds:
    /// 1, 2 or 3.
    pub open spec fn top_digits(digits: u32) -> int {
        digits - 3 * (Self::used_units(digits) - 1)
    }

    /// Ten to the power of a number of digits up to 3.
    pub open spec fn power_of_ten(k: int) -> int {
        if k <= 0 {
            1
        } else if k == 1 {
            10
        } else if k == 2 {
            100
        } else {
            1000
        }
    }

    /// The topmost unit that holds digits.
    pub open spec fn top_unit(self) -> int {
        self.lsu@[Self::used_units(self.digits) - 1] as int
    }

    /// A decimal is well formed when it is one that the decimal library
    /// takes as a number, that is one that an operation of the library can
    /// have given: it has between 1 and 39 digits; each unit of its
    /// coefficient is below 1000; its topmost unit holds no more digits
    /// than are counted and, where more than one digit is counted, no
    /// leading zero; an infinity or a NaN has the exponent 0, and an
    /// infinity one digit, which is 0. Besides, its exponent lies within
    /// the bound, so that its plain notation has at most some 550
    /// characters.
    pub open spec fn wf(self) -> bool {
        &&& 1 <= self.digits <= 39
        &&& -NUMERIC_EXPONENT_BOUND <= self.exponent <= NUMERIC_EXPONENT_BOUND
        &&& forall|i: int| 0 <= i < 13 ==> self.lsu@[i] < 1000
        &&& self.top_unit() < Self::power_of_ten(Self::top_digits(self.digits))
        &&& self.digits > 1 ==> self.top_unit() >= Self::power_of_ten(Self::top_digits(self.digits) - 1)
        &&& self.bits & DEC_SPECIAL != 0 ==> self.exponent == 0
        &&& self.bits & DEC_INFINITE != 0 ==> self.digits == 1 && self.lsu@[0] == 0
    }

    /// A decimal is canonical when the units above its digits are zero.
    pub open spec fn canonical(self) -> bool {
        forall|i: int| Self::used_units(self.digits) <= i < 13 ==> self.lsu@[i] == 0
    }

    /// The same decimal with the units above its digits set to zero.
    pub open spec fn canon(self) -> Numeric {
        Numeric {
            digits: self.digits,
            exponent: self.exponent,
            bits: self.bits,
            lsu: canon_units(self.lsu, Self::used_units(self.digits), 13),
        }
    }

    pub open spec fn is_finite_spec(&self) -> bool {
        self.bits & DEC_SPECIAL == 0
    }

    pub open spec fn is_infinite_spec(&self) -> bool {
        self.bits & DEC_INFINITE != 0
    }

    pub open spec fn is_nan_spec(&self) -> bool {
        self.bits & DEC_NAN != 0
    }

    pub open spec fn is_negative_spec(&self) -> bool {
        self.bits & DEC_NEGATIVE != 0
    }

    pub open spec fn is_zero_spec(&self) -> bool {
        self.is_finite_spec() && self.lsu@[0] == 0 && self.digits == 1
    }

    /// Whether the decimal is well formed.
    pub fn is_wf(&self) -> (r: bool)
        ensures
            r == self.wf(),
    {
        if self.digits < 1 || self.digits > 39 {
            return false;
        }
        if self.exponent < -NUMERIC_EXPONENT_BOUND || self.exponent > NUMERIC_EXPONENT_BOUND {
            return false;
        }
        let mut i: usize = 0;
        while i < 13
            invariant
                i <= 13,
                forall|j: int| 0 <= j < i ==> self.lsu@[j] < 1000,
            decreases 13 - i,
        {
            if self.lsu[i] >= 1000 {
                return false;
            }
            i += 1;
        }
        let used: usize = ((self.digits + 2) / 3) as usize;
        let in_top: u32 = self.digits - 3 * (used as u32 - 1);
        let top = self.lsu[used - 1];
        let above: u16 = if in_top == 1 {
            10
        } else if in_top == 2 {
            100
        } else {
            1000
        };
        let below: u16 = if in_top == 1 {
            1
        } else if in_top == 2 {
            10
        } else {
            100
        };
        if top >= above || (self.digits > 1 && top < below) {
            return false;
        }
        if self.bits & DEC_SPECIAL != 0 && self.exponent != 0 {
            return false;
        }
        if self.bits & DEC_INFINITE != 0 && (self.digits != 1 || self.lsu[0] != 0) {
            return false;
        }
        true
    }

    /// Whether the decimal is neither an infinity nor a NaN.
    #[verifier::when_used_as_spec(is_finite_spec)]
    pub fn is_finite(&self) -> (r: bool)
        ensures
            r == self.is_finite_spec(),
    {
        self.bits & DEC_SPECIAL == 0
    }

    /// Whether the decimal is an infinity.
    #[verifier::when_used_as_spec(is_infinite_spec)]
    pub fn is_infinite(&self) -> (r: bool)
        ensures
            r == self.is_infinite_spec(),
    {
        self.bits & DEC_INFINITE != 0
    }

    /// Whether the decimal is a NaN.
    #[verifier::when_used_as_spec(is_nan_spec)]
    pub fn is_nan(&self) -> (r: bool)
        ensures
            r == self.is_nan_spec(),
    {
        self.bits & DEC_NAN != 0
    }

    /// Whether the sign of the decimal is set: it is below zero, a negative
    /// zero, or a NaN with a sign.
    #[verifier::when_used_as_spec(is_negative_spec)]
    pub fn is_negative(&self) -> (r: bool)
        ensures
            r == self.is_negative_spec(),
    {
        self.bits & DEC_NEGATIVE != 0
    }

    /// Whether the decimal is a zero, of either sign.
    #[verifier::when_used_as_spec(is_zero_spec)]
    pub fn is_zero(&self) -> (r: bool)
        ensures
            r == self.is_zero_spec(),
    {
        self.is_finite() && self.lsu[0] == 0 && self.digits == 1
    }

    /// The exponent of the decimal.
    pub fn exponent(&self) -> (r: i32)
        ensures
            r == self.exponent,
    {
        self.exponent
    }

    /// The positive zero with exponent zero.
    pub fn zero() -> (r: Numeric)
        ensures
            r == Self::zero_spec(),
            r.wf(),
            r.canonical(),
    {
        Numeric { digits: 1, exponent: 0, bits: 0, lsu: vstd::array::array_fill_for_copy_types::<u16, 13>(0u16) }
    }

    /// The positive zero with exponent zero.
    pub open spec fn zero_spec() -> Numeric {
        Numeric { digits: 1, exponent: 0, bits: 0, lsu: vstd::array::spec_array_fill_for_copy_type::<u16, 13>(0u16) }
    }

    /// The canonical form of the decimal.
    pub fn to_canon(self) -> (r: Numeric)
        ensures
            r == self.canon(),
    {
        let mut lsu = self.lsu;
        let used: usize = ((self.digits as u64 + 2) / 3) as usize;
        let mut i: usize = 0;
        while i < 13
            invariant
                i <= 13,
                used == Self::used_units(self.digits),
                lsu == canon_units(self.lsu, used as int, i as int),
            decreases 13 - i,
        {
            if i >= used {
                lsu[i] = 0;
            }
            i += 1;
        }
        Numeric { digits: self.digits, exponent: self.exponent, bits: self.bits, lsu }
    }
}

/// The units with those from `used` up to below `upto` set to zero.
pub open spec fn canon_units(lsu: [u16; 13], used: int, upto: int) -> [u16; 13]
    decreases upto,
{
    if upto <= 0 {
        lsu
    } else {
        let before = canon_units(lsu, used, upto - 1);
        if upto - 1 >= used && upto - 1 < 13 {
            vstd::array::spec_array_update(before, upto - 1, 0u16)
        } else {
            before
        }
    }
}

/// The flags that a decimal operation leaves in its context.
#[derive(Clone, Copy, Debug, PartialEq, Eq, Structural)]
pub struct DecStatus {
    pub overflow: bool,
    pub subnormal: bool,
    pub invalid: bool,
}

/// How a decimal is rounded to an integer.
#[derive(Clone, Copy, Debug, PartialEq, Eq, Structural)]
pub enum RoundMode {
    HalfUp,
    Ceiling,
    Floor,
}

/// The decimals of 39 digits of the decimal library.
pub type Dec = dec::Decimal<13>;

/// Whether the bounds are such that a decimal context takes them, and lie
/// within those of the context of decimal datums. In a context of 39
/// digits with such bounds every outcome has an exponent from 38 below
/// the smaller bound up to the greater bound, or is an infinity or a NaN,
/// whose exponent is zero.
pub open spec fn valid_exponents(emax: isize, emin: isize) -> bool {
    0 <= emax <= NUMERIC_MAX_EXPONENT && NUMERIC_MIN_EXPONENT <= emin <= 0
}

/// What `dec::Context::from_i128` returns for an integer.
pub uninterp spec fn dec_from_i128_result(n: i128) -> Numeric;

/// Calls `dec::Context::<Decimal<13>>::from_i128` in a default context. The
/// contract claims that the decimal is a function of the integer, names it,
/// and claims that it is well formed.
#[verifier::external_body]
pub(crate) fn dec_from_i128(n: i128) -> (r: Numeric)
    ensures
        r == dec_from_i128_result(n),
        r.wf(),
{
    let mut cx = dec::Context::<dec::Decimal<13>>::default();
    let (digits, exponent, bits, lsu) = cx.from_i128(n).to_raw_parts();
    Numeric { digits, exponent, bits, lsu }
}

/// What `dec::Context::sum` returns for decimals, in a context with the
/// given bounds on the exponent.
pub uninterp spec fn dec_sum_result(values: Seq<Numeric>, emax: isize, emin: isize) -> Numeric;

/// Calls `dec::Context::<Decimal<13>>::sum` on the decimals, in a fresh
/// context with the given bounds. The contract claims that the sum is a
/// function of the decimals and the bounds, names it, and claims that it is
/// well formed.
#[verifier::external_body]
pub(crate) fn dec_sum(values: &Vec<Numeric>, emax: isize, emin: isize) -> (r: Numeric)
    requires
        forall|i: int| 0 <= i < values@.len() ==> (#[trigger] values@[i]).wf(),
        valid_exponents(emax, emin),
    ensures
        r == dec_sum_result(values@, emax, emin),
        r.wf(),
{
    let mut cx = dec::Context::<dec::Decimal<13>>::default();
    cx.set_max_exponent(emax).unwrap();
    cx.set_min_exponent(emin).unwrap();
    let ds: Vec<dec::Decimal<13>> =
        values.iter().map(|a| dec::Decimal::from_raw_parts(a.digits, a.exponent, a.bits, a.lsu)).collect();
    let (digits, exponent, bits, lsu) = cx.sum(ds.iter()).to_raw_parts();
    Numeric { digits, exponent, bits, lsu }
}

/// What `dec::Context::add` gives for two decimals, with the flags that
/// it leaves, in a context with the given bounds on the exponent.
pub uninterp spec fn dec_add_result(a: Numeric, b: Numeric, emax: isize, emin: isize) -> (Numeric, DecStatus);

/// Calls `dec::Context::<Decimal<13>>::add`, which adds the second decimal to the first, in a
/// fresh context with the given bounds. The contract claims that the
/// outcome and the flags are a function of the decimals and the bounds,
/// names it, and claims that the outcome is well formed.
#[verifier::external_body]
pub(crate) fn dec_add(a: &Numeric, b: &Numeric, emax: isize, emin: isize) -> (r: (Numeric, DecStatus))
    requires
        a.wf(),
        b.wf(),
        valid_exponents(emax, emin),
    ensures
        r == dec_add_result(*a, *b, emax, emin),
        r.0.wf(),
{
    let mut cx = dec::Context::<Dec>::default();
    cx.set_max_exponent(emax).unwrap();
    cx.set_min_exponent(emin).unwrap();
    let mut x = Dec::from_raw_parts(a.digits, a.exponent, a.bits, a.lsu);
    cx.add(&mut x, &Dec::from_raw_parts(b.digits, b.exponent, b.bits, b.lsu));
    let (digits, exponent, bits, lsu) = x.to_raw_parts();
    let s = cx.status();
    let status = DecStatus { overflow: s.overflow(), subnormal: s.subnormal(), invalid: s.invalid_operation() };
    (Numeric { digits, exponent, bits, lsu }, status)
}

/// What `dec::Context::sub` gives for two decimals, with the flags that
/// it leaves, in a context with the given bounds on the exponent.
pub uninterp spec fn dec_sub_result(a: Numeric, b: Numeric, emax: isize, emin: isize) -> (Numeric, DecStatus);

/// Calls `dec::Context::<Decimal<13>>::sub`, which subtracts the second decimal from the first, in a
/// fresh context with the given bounds. The contract claims that the
/// outcome and the flags are a function of the decimals and the bounds,
/// names it, and claims that the outcome is well formed.
#[verifier::external_body]
pub(crate) fn dec_sub(a: &Numeric, b: &Numeric, emax: isize, emin: isize) -> (r: (Numeric, DecStatus))
    requires
        a.wf(),
        b.wf(),
        valid_exponents(emax, emin),
    ensures
        r == dec_sub_result(*a, *b, emax, emin),
        r.0.wf(),
{
    let mut cx = dec::Context::<Dec>::default();
    cx.set_max_exponent(emax).unwrap();
    cx.set_min_exponent(emin).unwrap();
    let mut x = Dec::from_raw_parts(a.digits, a.exponent, a.bits, a.lsu);
    cx.sub(&mut x, &Dec::from_raw_parts(b.digits, b.exponent, b.bits, b.lsu));
    let (digits, exponent, bits, lsu) = x.to_raw_parts();
    let s = cx.status();
    let status = DecStatus { overflow: s.overflow(), subnormal: s.subnormal(), invalid: s.invalid_operation() };
    (Numeric { digits, exponent, bits, lsu }, status)
}

/// What `dec::Context::mul` gives for two decimals, with the flags that
/// it leaves, in a context with the given bounds on the exponent.
pub uninterp spec fn dec_mul_result(a: Numeric, b: Numeric, emax: isize, emin: isize) -> (Numeric, DecStatus);

/// Calls `dec::Context::<Decimal<13>>::mul`, which multiplies the first decimal by the second, in a
/// fresh context with the given bounds. The contract claims that the
/// outcome and the flags are a function of the decimals and the bounds,
/// names it, and claims that the outcome is well formed.
#[verifier::external_body]
pub(crate) fn dec_mul(a: &Numeric, b: &Numeric, emax: isize, emin: isize) -> (r: (Numeric, DecStatus))
    requires
        a.wf(),
        b.wf(),
        valid_exponents(emax, emin),
    ensures
        r == dec_mul_result(*a, *b, emax, emin),
        r.0.wf(),
{
    let mut cx = dec::Context::<Dec>::default();
    cx.set_max_exponent(emax).unwrap();
    cx.set_min_exponent(emin).unwrap();
    let mut x = Dec::from_raw_parts(a.digits, a.exponent, a.bits, a.lsu);
    cx.mul(&mut x, &Dec::from_raw_parts(b.digits, b.exponent, b.bits, b.lsu));
    let (digits, exponent, bits, lsu) = x.to_raw_parts();
    let s = cx.status();
    let status = DecStatus { overflow: s.overflow(), subnormal: s.subnormal(), invalid: s.invalid_operation() };
    (Numeric { digits, exponent, bits, lsu }, status)
}

/// What `dec::Context::div` gives for two decimals, with the flags that
/// it leaves, in a context with the given bounds on the exponent.
pub uninterp spec fn dec_div_result(a: Numeric, b: Numeric, emax: isize, emin: isize) -> (Numeric, DecStatus);

/// Calls `dec::Context::<Decimal<13>>::div`, which divides the first decimal by the second, in a
/// fresh context with the given bounds. The contract claims that the
/// outcome and the flags are a function of the decimals and the bounds,
/// names it, and claims that the outcome is well formed.
#[verifier::external_body]
pub(crate) fn dec_div(a: &Numeric, b: &Numeric, emax: isize, emin: isize) -> (r: (Numeric, DecStatus))
    requires
        a.wf(),
        b.wf(),
        valid_exponents(emax, emin),
    ensures
        r == dec_div_result(*a, *b, emax, emin),
        r.0.wf(),
{
    let mut cx = dec::Context::<Dec>::default();
    cx.set_max_exponent(emax).unwrap();
    cx.set_min_exponent(emin).unwrap();
    let mut x = Dec::from_raw_parts(a.digits, a.exponent, a.bits, a.lsu);
    cx.div(&mut x, &Dec::from_raw_parts(b.digits, b.exponent, b.bits, b.lsu));
    let (digits, exponent, bits, lsu) = x.to_raw_parts();
    let s = cx.status();
    let status = DecStatus { overflow: s.overflow(), subnormal: s.subnormal(), invalid: s.invalid_operation() };
    (Numeric { digits, exponent, bits, lsu }, status)
}

/// What `dec::Context::rem` gives for two decimals, with the flags that
/// it leaves, in a context with the given bounds on the exponent.
pub uninterp spec fn dec_rem_result(a: Numeric, b: Numeric, emax: isize, emin: isize) -> (Numeric, DecStatus);

/// Calls `dec::Context::<Decimal<13>>::rem`, which takes the remainder of the first decimal by the second, in a
/// fresh context with the given bounds. The contract claims that the
/// outcome and the flags are a function of the decimals and the bounds,
/// names it, and claims that the outcome is well formed.
#[verifier::external_body]
pub(crate) fn dec_rem(a: &Numeric, b: &Numeric, emax: isize, emin: isize) -> (r: (Numeric, DecStatus))
    requires
        a.wf(),
        b.wf(),
        valid_exponents(emax, emin),
    ensures
        r == dec_rem_result(*a, *b, emax, emin),
        r.0.wf(),
{
    let mut cx = dec::Context::<Dec>::default();
    cx.set_max_exponent(emax).unwrap();
    cx.set_min_exponent(emin).unwrap();
    let mut x = Dec::from_raw_parts(a.digits, a.exponent, a.bits, a.lsu);
    cx.rem(&mut x, &Dec::from_raw_parts(b.digits, b.exponent, b.bits, b.lsu));
    let (digits, exponent, bits, lsu) = x.to_raw_parts();
    let s = cx.status();
    let status = DecStatus { overflow: s.overflow(), subnormal: s.subnormal(), invalid: s.invalid_operation() };
    (Numeric { digits, exponent, bits, lsu }, status)
}

/// What `dec::Context::pow` gives for two decimals, with the flags that
/// it leaves, in a context with the given bounds on the exponent.
pub uninterp spec fn dec_pow_result(a: Numeric, b: Numeric, emax: isize, emin: isize) -> (Numeric, DecStatus);

/// Calls `dec::Context::<Decimal<13>>::pow`, which raises the first decimal to the power of the second, in a
/// fresh context with the given bounds. The contract claims that the
/// outcome and the flags are a function of the decimals and the bounds,
/// names it, and claims that the outcome is well formed.
#[verifier::external_body]
pub(crate) fn dec_pow(a: &Numeric, b: &Numeric, emax: isize, emin: isize) -> (r: (Numeric, DecStatus))
    requires
        a.wf(),
        b.wf(),
        valid_exponents(emax, emin),
    ensures
        r == dec_pow_result(*a, *b, emax, emin),
        r.0.wf(),
{
    let mut cx = dec::Context::<Dec>::default();
    cx.set_max_exponent(emax).unwrap();
    cx.set_min_exponent(emin).unwrap();
    let mut x = Dec::from_raw_parts(a.digits, a.exponent, a.bits, a.lsu);
    cx.pow(&mut x, &Dec::from_raw_parts(b.digits, b.exponent, b.bits, b.lsu));
    let (digits, exponent, bits, lsu) = x.to_raw_parts();
    let s = cx.status();
    let status = DecStatus { overflow: s.overflow(), subnormal: s.subnormal(), invalid: s.invalid_operation() };
    (Numeric { digits, exponent, bits, lsu }, status)
}

/// What `dec::Context::neg` gives for a decimal, with the flags that it
/// leaves, in a context with the given bounds on the exponent.
pub uninterp spec fn dec_neg_result(a: Numeric, emax: isize, emin: isize) -> (Numeric, DecStatus);

/// Calls `dec::Context::<Decimal<13>>::neg`, which negates the decimal, in a
/// fresh context with the given bounds. The contract claims that the
/// outcome and the flags are a function of the decimal and the bounds,
/// names it, and claims that the outcome is well formed.
#[verifier::external_body]
pub(crate) fn dec_neg(a: &Numeric, emax: isize, emin: isize) -> (r: (Numeric, DecStatus))
    requires
        a.wf(),
        valid_exponents(emax, emin),
    ensures
        r == dec_neg_result(*a, emax, emin),
        r.0.wf(),
{
    let mut cx = dec::Context::<Dec>::default();
    cx.set_max_exponent(emax).unwrap();
    cx.set_min_exponent(emin).unwrap();
    let mut x = Dec::from_raw_parts(a.digits, a.exponent, a.bits, a.lsu);
    cx.neg(&mut x);
    let (digits, exponent, bits, lsu) = x.to_raw_parts();
    let s = cx.status();
    let status = DecStatus { overflow: s.overflow(), subnormal: s.subnormal(), invalid: s.invalid_operation() };
    (Numeric { digits, exponent, bits, lsu }, status)
}

/// What `dec::Context::abs` gives for a decimal, with the flags that it
/// leaves, in a context with the given bounds on the exponent.
pub uninterp spec fn dec_abs_result(a: Numeric, emax: isize, emin: isize) -> (Numeric, DecStatus);

/// Calls `dec::Context::<Decimal<13>>::abs`, which takes the absolute value of the decimal, in a
/// fresh context with the given bounds. The contract claims that the
/// outcome and the flags are a function of the decimal and the bounds,
/// names it, and claims that the outcome is well formed.
#[verifier::external_body]
pub(crate) fn dec_abs(a: &Numeric, emax: isize, emin: isize) -> (r: (Numeric, DecStatus))
    requires
        a.wf(),
        valid_exponents(emax, emin),
    ensures
        r == dec_abs_result(*a, emax, emin),
        r.0.wf(),
{
    let mut cx = dec::Context::<Dec>::default();
    cx.set_max_exponent(emax).unwrap();
    cx.set_min_exponent(emin).unwrap();
    let mut x = Dec::from_raw_parts(a.digits, a.exponent, a.bits, a.lsu);
    cx.abs(&mut x);
    let (digits, exponent, bits, lsu) = x.to_raw_parts();
    let s = cx.status();
    let status = DecStatus { overflow: s.overflow(), subnormal: s.subnormal(), invalid: s.invalid_operation() };
    (Numeric { digits, exponent, bits, lsu }, status)
}

/// What `dec::Context::sqrt` gives for a decimal, with the flags that it
/// leaves, in a context with the given bounds on the exponent.
pub uninterp spec fn dec_sqrt_result(a: Numeric, emax: isize, emin: isize) -> (Numeric, DecStatus);

/// Calls `dec::Context::<Decimal<13>>::sqrt`, which takes the square root of the decimal, in a
/// fresh context with the given bounds. The contract claims that the
/// outcome and the flags are a function of the decimal and the bounds,
/// names it, and claims that the outcome is well formed.
#[verifier::external_body]
pub(crate) fn dec_sqrt(a: &Numeric, emax: isize, emin: isize) -> (r: (Numeric, DecStatus))
    requires
        a.wf(),
        valid_exponents(emax, emin),
    ensures
        r == dec_sqrt_result(*a, emax, emin),
        r.0.wf(),
{
    let mut cx = dec::Context::<Dec>::default();
    cx.set_max_exponent(emax).unwrap();
    cx.set_min_exponent(emin).unwrap();
    let mut x = Dec::from_raw_parts(a.digits, a.exponent, a.bits, a.lsu);
    cx.sqrt(&mut x);
    let (digits, exponent, bits, lsu) = x.to_raw_parts();
    let s = cx.status();
    let status = DecStatus { overflow: s.overflow(), subnormal: s.subnormal(), invalid: s.invalid_operation() };
    (Numeric { digits, exponent, bits, lsu }, status)
}

/// What `dec::Context::ln` gives for a decimal, with the flags that it
/// leaves, in a context with the given bounds on the exponent.
pub uninterp spec fn dec_ln_result(a: Numeric, emax: isize, emin: isize) -> (Numeric, DecStatus);

/// Calls `dec::Context::<Decimal<13>>::ln`, which takes the natural logarithm of the decimal, in a
/// fresh context with the given bounds. The contract claims that the
/// outcome and the flags are a function of the decimal and the bounds,
/// names it, and claims that the outcome is well formed.
#[verifier::external_body]
pub(crate) fn dec_ln(a: &Numeric, emax: isize, emin: isize) -> (r: (Numeric, DecStatus))
    requires
        a.wf(),
        valid_exponents(emax, emin),
    ensures
        r == dec_ln_result(*a, emax, emin),
        r.0.wf(),
{
    let mut cx = dec::Context::<Dec>::default();
    cx.set_max_exponent(emax).unwrap();
    cx.set_min_exponent(emin).unwrap();
    let mut x = Dec::from_raw_parts(a.digits, a.exponent, a.bits, a.lsu);
    cx.ln(&mut x);
    let (digits, exponent, bits, lsu) = x.to_raw_parts();
    let s = cx.status();
    let status = DecStatus { overflow: s.overflow(), subnormal: s.subnormal(), invalid: s.invalid_operation() };
    (Numeric { digits, exponent, bits, lsu }, status)
}

/// What `dec::Context::log10` gives for a decimal, with the flags that it
/// leaves, in a context with the given bounds on the exponent.
pub uninterp spec fn dec_log10_result(a: Numeric, emax: isize, emin: isize) -> (Numeric, DecStatus);

/// Calls `dec::Context::<Decimal<13>>::log10`, which takes the logarithm of the decimal to the base 10, in a
/// fresh context with the given bounds. The contract claims that the
/// outcome and the flags are a function of the decimal and the bounds,
/// names it, and claims that the outcome is well formed.
#[verifier::external_body]
pub(crate) fn dec_log10(a: &Numeric, emax: isize, emin: isize) -> (r: (Numeric, DecStatus))
    requires
        a.wf(),
        valid_exponents(emax, emin),
    ensures
        r == dec_log10_result(*a, emax, emin),
        r.0.wf(),
{
    let mut cx = dec::Context::<Dec>::default();
    cx.set_max_exponent(emax).unwrap();
    cx.set_min_exponent(emin).unwrap();
    let mut x = Dec::from_raw_parts(a.digits, a.exponent, a.bits, a.lsu);
    cx.log10(&mut x);
    let (digits, exponent, bits, lsu) = x.to_raw_parts();
    let s = cx.status();
    let status = DecStatus { overflow: s.overflow(), subnormal: s.subnormal(), invalid: s.invalid_operation() };
    (Numeric { digits, exponent, bits, lsu }, status)
}

/// What `dec::Context::exp` gives for a decimal, with the flags that it
/// leaves, in a context with the given bounds on the exponent.
pub uninterp spec fn dec_exp_result(a: Numeric, emax: isize, emin: isize) -> (Numeric, DecStatus);

/// Calls `dec::Context::<Decimal<13>>::exp`, which raises e to the power of the decimal, in a
/// fresh context with the given bounds. The contract claims that the
/// outcome and the flags are a function of the decimal and the bounds,
/// names it, and claims that the outcome is well formed.
#[verifier::external_body]
pub(crate) fn dec_exp(a: &Numeric, emax: isize, emin: isize) -> (r: (Numeric, DecStatus))
    requires
        a.wf(),
        valid_exponents(emax, emin),
    ensures
        r == dec_exp_result(*a, emax, emin),
        r.0.wf(),
{
    let mut cx = dec::Context::<Dec>::default();
    cx.set_max_exponent(emax).unwrap();
    cx.set_min_exponent(emin).unwrap();
    let mut x = Dec::from_raw_parts(a.digits, a.exponent, a.bits, a.lsu);
    cx.exp(&mut x);
    let (digits, exponent, bits, lsu) = x.to_raw_parts();
    let s = cx.status();
    let status = DecStatus { overflow: s.overflow(), subnormal: s.subnormal(), invalid: s.invalid_operation() };
    (Numeric { digits, exponent, bits, lsu }, status)
}

/// What `dec::Context::round` gives for a decimal under a rounding mode,
/// with the flags that it leaves.
pub uninterp spec fn dec_round_result(a: Numeric, mode: RoundMode, emax: isize, emin: isize) -> (Numeric, DecStatus);

/// Calls `dec::Context::<Decimal<13>>::round`, which rounds the decimal to
/// an integer, in a fresh context with the given rounding mode and bounds.
/// The contract claims that the outcome and the flags are a function of
/// the decimal, the mode and the bounds, names it, and claims that the
/// outcome is well formed.
#[verifier::external_body]
pub(crate) fn dec_round(a: &Numeric, mode: RoundMode, emax: isize, emin: isize) -> (r: (Numeric, DecStatus))
    requires
        a.wf(),
        valid_exponents(emax, emin),
    ensures
        r == dec_round_result(*a, mode, emax, emin),
        r.0.wf(),
{
    let mut cx = dec::Context::<Dec>::default();
    cx.set_max_exponent(emax).unwrap();
    cx.set_min_exponent(emin).unwrap();
    cx.set_rounding(match mode {
        RoundMode::HalfUp => dec::Rounding::HalfUp,
        RoundMode::Ceiling => dec::Rounding::Ceiling,
        RoundMode::Floor => dec::Rounding::Floor,
    });
    let mut x = Dec::from_raw_parts(a.digits, a.exponent, a.bits, a.lsu);
    cx.round(&mut x);
    let (digits, exponent, bits, lsu) = x.to_raw_parts();
    let s = cx.status();
    let status = DecStatus { overflow: s.overflow(), subnormal: s.subnormal(), invalid: s.invalid_operation() };
    (Numeric { digits, exponent, bits, lsu }, status)
}

/// What `dec::Context::reduce` gives for a decimal in a context of the
/// given precision.
pub uninterp spec fn dec_reduce_result(a: Numeric, precision: usize, emax: isize, emin: isize) -> Numeric;

/// Calls `dec::Context::<Decimal<13>>::reduce`, which strips the trailing
/// zeros of the decimal and rounds it to the precision of the context, in
/// a fresh context with the given precision and bounds. The contract
/// claims that the outcome is a function of the decimal, the precision and
/// the bounds, names it, and claims that the outcome is well formed.
#[verifier::external_body]
pub(crate) fn dec_reduce(a: &Numeric, precision: usize, emax: isize, emin: isize) -> (r: Numeric)
    requires
        a.wf(),
        1 <= precision <= 39,
        valid_exponents(emax, emin),
    ensures
        r == dec_reduce_result(*a, precision, emax, emin),
        r.wf(),
{
    let mut cx = dec::Context::<Dec>::default();
    cx.set_max_exponent(emax).unwrap();
    cx.set_min_exponent(emin).unwrap();
    cx.set_precision(precision).unwrap();
    let mut x = Dec::from_raw_parts(a.digits, a.exponent, a.bits, a.lsu);
    cx.reduce(&mut x);
    let (digits, exponent, bits, lsu) = x.to_raw_parts();
    Numeric { digits, exponent, bits, lsu }
}

/// What `dec::Context::rescale` gives for a decimal and an exponent, with
/// the flags that it leaves.
pub uninterp spec fn dec_rescale_result(a: Numeric, exponent: i32, emax: isize, emin: isize) -> (Numeric, DecStatus);

/// Calls `dec::Context::<Decimal<13>>::rescale`, which brings the decimal
/// to the given exponent, in a fresh context with the given bounds. The
/// contract claims that the outcome and the flags are a function of the
/// decimal, the exponent and the bounds, names it, and claims that the
/// outcome is well formed.
#[verifier::external_body]
pub(crate) fn dec_rescale(a: &Numeric, exponent: i32, emax: isize, emin: isize) -> (r: (Numeric, DecStatus))
    requires
        a.wf(),
        valid_exponents(emax, emin),
    ensures
        r == dec_rescale_result(*a, exponent, emax, emin),
        r.0.wf(),
{
    let mut cx = dec::Context::<Dec>::default();
    cx.set_max_exponent(emax).unwrap();
    cx.set_min_exponent(emin).unwrap();
    let mut x = Dec::from_raw_parts(a.digits, a.exponent, a.bits, a.lsu);
    cx.rescale(&mut x, &Dec::from(exponent));
    let (digits, exponent, bits, lsu) = x.to_raw_parts();
    let s = cx.status();
    let status = DecStatus { overflow: s.overflow(), subnormal: s.subnormal(), invalid: s.invalid_operation() };
    (Numeric { digits, exponent, bits, lsu }, status)
}

/// What `dec::Context::scaleb` gives for a decimal and a power of ten,
/// with the flags that it leaves.
pub uninterp spec fn dec_scaleb_result(a: Numeric, power: i32, emax: isize, emin: isize) -> (Numeric, DecStatus);

/// Calls `dec::Context::<Decimal<13>>::scaleb`, which multiplies the
/// decimal by the given power of ten, in a fresh context with the given
/// bounds. The contract claims that the outcome and the flags are a
/// function of the decimal, the power and the bounds, names it, and claims
/// that the outcome is well formed.
#[verifier::external_body]
pub(crate) fn dec_scaleb(a: &Numeric, power: i32, emax: isize, emin: isize) -> (r: (Numeric, DecStatus))
    requires
        a.wf(),
        valid_exponents(emax, emin),
    ensures
        r == dec_scaleb_result(*a, power, emax, emin),
        r.0.wf(),
{
    let mut cx = dec::Context::<Dec>::default();
    cx.set_max_exponent(emax).unwrap();
    cx.set_min_exponent(emin).unwrap();
    let mut x = Dec::from_raw_parts(a.digits, a.exponent, a.bits, a.lsu);
    cx.scaleb(&mut x, &Dec::from(power));
    let (digits, exponent, bits, lsu) = x.to_raw_parts();
    let s = cx.status();
    let status = DecStatus { overflow: s.overflow(), subnormal: s.subnormal(), invalid: s.invalid_operation() };
    (Numeric { digits, exponent, bits, lsu }, status)
}

/// What `dec::Context::try_into_i64` gives for a decimal: the 64-bit
/// integer that it is, if it is one.
pub uninterp spec fn dec_to_i64_result(a: Numeric) -> Option<i64>;

/// Calls `dec::Context::<Decimal<13>>::try_into_i64` in a default context.
/// The contract claims that the outcome is a function of the decimal, and
/// names it.
#[verifier::external_body]
pub(crate) fn dec_to_i64(a: &Numeric) -> (r: Option<i64>)
    requires
        a.wf(),
    ensures
        r == dec_to_i64_result(*a),
{
    let mut cx = dec::Context::<Dec>::default();
    cx.try_into_i64(Dec::from_raw_parts(a.digits, a.exponent, a.bits, a.lsu)).ok()
}

/// What `dec::Decimal::to_standard_notation_string` gives for a decimal.
pub uninterp spec fn dec_text(a: Numeric) -> Seq<char>;

/// Calls `dec::Decimal::<13>::to_standard_notation_string`. The contract
/// claims that the text is a function of the decimal, and names it.
#[verifier::external_body]
pub(crate) fn dec_to_string(a: &Numeric) -> (r: String)
    requires
        a.wf(),
    ensures
        r@ == dec_text(*a),
{
    Dec::from_raw_parts(a.digits, a.exponent, a.bits, a.lsu).to_standard_notation_string()
}

/// What `dec::Context::parse` gives for a text: the decimal that it
/// denotes with the flags that reading it leaves, if it denotes one.
pub uninterp spec fn dec_parse_result(s: Seq<char>, emax: isize, emin: isize) -> Option<(Numeric, DecStatus)>;

/// Calls `dec::Context::<Decimal<13>>::parse` in a fresh context with the
/// given bounds. The contract claims that the outcome and the flags are a
/// function of the text and the bounds, names it, and claims that a decimal
/// that comes out is well formed.
#[verifier::external_body]
pub(crate) fn dec_parse(s: &str, emax: isize, emin: isize) -> (r: Option<(Numeric, DecStatus)>)
    requires
        valid_exponents(emax, emin),
    ensures
        r == dec_parse_result(s@, emax, emin),
        r is Some ==> (r->0).0.wf(),
{
    let mut cx = dec::Context::<Dec>::default();
    cx.set_max_exponent(emax).unwrap();
    cx.set_min_exponent(emin).unwrap();
    let (digits, exponent, bits, lsu) = cx.parse(s).ok()?.to_raw_parts();
    let s = cx.status();
    let status = DecStatus { overflow: s.overflow(), subnormal: s.subnormal(), invalid: s.invalid_operation() };
    Some((Numeric { digits, exponent, bits, lsu }, status))
}

impl Numeric {
    /// The canonical form of a well-formed decimal is well formed, and
    /// canonical.
    pub proof fn lemma_canon(self)
        requires
            self.wf(),
        ensures
            self.canon().wf(),
            self.canon().canonical(),
            self.canon().digits == self.digits,
            self.canon().exponent == self.exponent,
            self.canon().bits == self.bits,
            self.canon().lsu@[0] == self.lsu@[0],
    {
        lemma_canon_units(self.lsu, Self::used_units(self.digits), 13);
    }

    /// The digits that a decimal spans before and behind the point.
    pub open spec fn precision(self) -> int {
        if self.exponent >= 0 {
            self.digits + self.exponent
        } else if self.digits >= -self.exponent {
            self.digits as int
        } else {
            -self.exponent
        }
    }

    /// The digits of a decimal behind the point.
    pub open spec fn scale(self) -> int {
        if self.exponent >= 0 {
            0
        } else {
            -self.exponent
        }
    }

    /// The digits that a decimal spans before and behind the point.
    pub fn get_precision(&self) -> (r: i64)
        ensures
            r == self.precision(),
    {
        let e = self.exponent as i64;
        let d = self.digits as i64;
        if e >= 0 {
            d + e
        } else if d >= -e {
            d
        } else {
            -e
        }
    }

    /// The digits of a decimal behind the point.
    pub fn get_scale(&self) -> (r: i64)
        ensures
            r == self.scale(),
    {
        let e = self.exponent as i64;
        if e >= 0 {
            0
        } else {
            -e
        }
    }
}

/// What the units are after those from `used` up to below `upto` are set to
/// zero.
pub proof fn lemma_canon_units(lsu: [u16; 13], used: int, upto: int)
    requires
        0 <= upto <= 13,
        1 <= used,
    ensures
        forall|i: int|
            0 <= i < 13 ==> (#[trigger] canon_units(lsu, used, upto)@[i]) == if used <= i < upto {
                0u16
            } else {
                lsu@[i]
            },
    decreases upto,
{
    broadcast use vstd::array::axiom_spec_array_update;

    if upto > 0 {
        lemma_canon_units(lsu, used, upto - 1);
        let before = canon_units(lsu, used, upto - 1);
        if upto - 1 >= used {
            assert(canon_units(lsu, used, upto)@ == before@.update(upto - 1, 0u16));
        }
    }
}

} // verus!
