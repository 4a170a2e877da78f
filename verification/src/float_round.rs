//! The integer nearest to a float, read off the bits of the float.
//!
//! A float that is a number is a whole number, its mantissa, times a
//! power of two, with a sign. The integer nearest to it is found by
//! integer arithmetic on these parts; a float that lies halfway between
//! two integers is rounded away from zero.

use vstd::prelude::*;
use vstd::arithmetic::div_mod::lemma_basic_div;
use vstd::arithmetic::power2::{
    lemma2_to64, lemma2_to64_rest, lemma_pow2_pos, lemma_pow2_strictly_increases, lemma_pow2_unfold, pow2,
};

verus! {

/// The integer nearest to `mant` times two to the power of `sh`, a half
/// rounded up.
pub open spec fn scaled_round(mant: int, sh: int) -> int {
    if sh >= 0 {
        mant * pow2(sh as nat)
    } else {
        (2 * mant + pow2((-sh) as nat)) / (2 * pow2((-sh) as nat) as int)
    }
}

/// The integer nearest to the magnitude of a double, a half rounded up;
/// nothing for an infinity and for a NaN. The exponent stands in the 11
/// bits below the sign and the mantissa in the 52 bits below them; where
/// the exponent is not zero the mantissa has a leading one before it.
pub open spec fn rounded_magnitude64(bits: u64) -> Option<int> {
    let e = (bits / 0x10_0000_0000_0000) % 0x800;
    let m = bits % 0x10_0000_0000_0000;
    if e == 0x7ff {
        None
    } else if e == 0 {
        Some(scaled_round(m as int, -1074))
    } else {
        Some(scaled_round(m + 0x10_0000_0000_0000, e - 1075))
    }
}

/// The integer nearest to a double, a half rounded away from zero; nothing
/// for an infinity and for a NaN.
pub open spec fn rounded_double(bits: u64) -> Option<int> {
    match rounded_magnitude64(bits) {
        None => None,
        Some(n) => Some(
            if bits >= 0x8000_0000_0000_0000 {
                -n
            } else {
                n
            },
        ),
    }
}

/// The integer nearest to the magnitude of a single, a half rounded up;
/// nothing for an infinity and for a NaN. The exponent stands in the 8
/// bits below the sign and the mantissa in the 23 bits below them.
pub open spec fn rounded_magnitude32(bits: u32) -> Option<int> {
    let e = (bits / 0x80_0000) % 0x100;
    let m = bits % 0x80_0000;
    if e == 0xff {
        None
    } else if e == 0 {
        Some(scaled_round(m as int, -149))
    } else {
        Some(scaled_round(m + 0x80_0000, e - 150))
    }
}

/// The integer nearest to a single, a half rounded away from zero; nothing
/// for an infinity and for a NaN.
pub open spec fn rounded_single(bits: u32) -> Option<int> {
    match rounded_magnitude32(bits) {
        None => None,
        Some(n) => Some(
            if bits >= 0x8000_0000 {
                -n
            } else {
                n
            },
        ),
    }
}

/// A power of two is at most a greater one.
proof fn lemma_pow2_le(a: nat, b: nat)
    requires
        a <= b,
    ensures
        pow2(a) <= pow2(b),
{
    if a < b {
        lemma_pow2_strictly_increases(a, b);
    }
}

/// Two to the power of `k`, at most 63.
fn power_of_two(k: u32) -> (p: u128)
    requires
        k <= 63,
    ensures
        p == pow2(k as nat),
        1 <= p <= 0x8000_0000_0000_0000,
{
    proof {
        lemma2_to64();
        lemma2_to64_rest();
    }
    let mut p: u128 = 1;
    let mut j: u32 = 0;
    while j < k
        invariant
            j <= k <= 63,
            p == pow2(j as nat),
            1 <= p <= 0x8000_0000_0000_0000,
            pow2(63) == 0x8000_0000_0000_0000,
            pow2(62) == 0x4000_0000_0000_0000,
        decreases k - j,
    {
        proof {
            lemma_pow2_le(j as nat, 62);
            lemma_pow2_unfold((j + 1) as nat);
        }
        p = p * 2;
        j += 1;
    }
    p
}

/// The integer nearest to a mantissa times a power of two, if it is at
/// most two to the power of 63.
fn round_scaled(mant: u64, sh: i32) -> (r: Option<u128>)
    requires
        mant < 0x20_0000_0000_0000,
        -1200 <= sh <= 1200,
    ensures
        match r {
            Some(v) => v == scaled_round(mant as int, sh as int) && v <= 0x8000_0000_0000_0000,
            None => scaled_round(mant as int, sh as int) > 0x8000_0000_0000_0000,
        },
{
    proof {
        lemma2_to64();
        lemma2_to64_rest();
    }
    if sh >= 0 {
        if mant == 0 {
            assert(0 * pow2(sh as nat) == 0) by (nonlinear_arith);
            return Some(0);
        }
        if sh >= 64 {
            proof {
                lemma_pow2_le(64, sh as nat);
                let p = pow2(sh as nat) as int;
                assert(mant * p >= p) by (nonlinear_arith)
                    requires
                        mant >= 1,
                        p >= 0,
                ;
            }
            return None;
        }
        let p = power_of_two(sh as u32);
        assert(mant * p < 0x20_0000_0000_0000 * 0x8000_0000_0000_0001) by (nonlinear_arith)
            requires
                mant < 0x20_0000_0000_0000,
                p <= 0x8000_0000_0000_0000,
        ;
        let v: u128 = mant as u128 * p;
        if v > 0x8000_0000_0000_0000 {
            None
        } else {
            Some(v)
        }
    } else {
        let k: u32 = (-sh) as u32;
        if k >= 64 {
            proof {
                lemma_pow2_le(64, k as nat);
                let p = pow2(k as nat) as int;
                lemma_basic_div(2 * mant + p, 2 * p);
            }
            return Some(0);
        }
        let p = power_of_two(k);
        let v: u128 = (2 * mant as u128 + p) / (2 * p);
        if v > 0x8000_0000_0000_0000 {
            None
        } else {
            Some(v)
        }
    }
}

/// A magnitude with its sign as an integer of 64 bits, if it is one.
fn signed(v: Option<u128>, negative: bool) -> (r: Option<i64>)
    requires
        v is Some ==> v->0 <= 0x8000_0000_0000_0000,
    ensures
        match r {
            Some(n) => v is Some && n == (if negative {
                -(v->0 as int)
            } else {
                v->0 as int
            }),
            None => v is None || (!negative && v->0 == 0x8000_0000_0000_0000),
        },
{
    match v {
        None => None,
        Some(m) => {
            if negative {
                Some((-(m as i128)) as i64)
            } else if m == 0x8000_0000_0000_0000 {
                None
            } else {
                Some(m as i64)
            }
        },
    }
}

/// The integer nearest to a double, a half rounded away from zero, if the
/// double is a number and the integer one of 64 bits.
pub fn round_double(bits: u64) -> (r: Option<i64>)
    ensures
        match r {
            Some(n) => rounded_double(bits) == Some(n as int),
            None => rounded_double(bits) is None || rounded_double(bits)->0 < i64::MIN || rounded_double(bits)->0
                > i64::MAX,
        },
{
    let e: u64 = (bits / 0x10_0000_0000_0000) % 0x800;
    let m: u64 = bits % 0x10_0000_0000_0000;
    if e == 0x7ff {
        return None;
    }
    let negative = bits >= 0x8000_0000_0000_0000;
    let magnitude = if e == 0 {
        round_scaled(m, -1074)
    } else {
        round_scaled(m + 0x10_0000_0000_0000, e as i32 - 1075)
    };
    signed(magnitude, negative)
}

/// The integer nearest to a single, a half rounded away from zero, if the
/// single is a number and the integer one of 64 bits.
pub fn round_single(bits: u32) -> (r: Option<i64>)
    ensures
        match r {
            Some(n) => rounded_single(bits) == Some(n as int),
            None => rounded_single(bits) is None || rounded_single(bits)->0 < i64::MIN || rounded_single(bits)->0
                > i64::MAX,
        },
{
    let e: u32 = (bits / 0x80_0000) % 0x100;
    let m: u32 = bits % 0x80_0000;
    if e == 0xff {
        return None;
    }
    let negative = bits >= 0x8000_0000;
    let magnitude = if e == 0 {
        round_scaled(m as u64, -149)
    } else {
        round_scaled((m + 0x80_0000) as u64, e as i32 - 150)
    };
    signed(magnitude, negative)
}

} // verus!
