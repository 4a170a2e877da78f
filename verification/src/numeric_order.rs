//! The order of decimals.

use vstd::prelude::*;
use crate::datum::Numeric;
use crate::order::Order;

verus! {

/// How the decimal library orders two decimals given by their parts: by
/// value, whatever their exponents, every NaN at one place above all other
/// values.
pub uninterp spec fn dec_order(a: Numeric, b: Numeric) -> Order;

/// The order of two decimals: that of the decimal library where both are
/// well formed, else that of their parts.
pub open spec fn numeric_order_spec(a: Numeric, b: Numeric) -> Order {
    if a.wf() && b.wf() {
        dec_order(a, b)
    } else {
        parts_order(a, b)
    }
}

/// The order of the raw parts of two decimals, for decimals that the
/// decimal library cannot be asked about.
pub open spec fn parts_order(a: Numeric, b: Numeric) -> Order {
    if a.digits != b.digits {
        crate::order::int_order(a.digits as int, b.digits as int)
    } else if a.exponent != b.exponent {
        crate::order::int_order(a.exponent as int, b.exponent as int)
    } else if a.bits != b.bits {
        crate::order::int_order(a.bits as int, b.bits as int)
    } else {
        units_order(a.lsu@, b.lsu@, 0)
    }
}

/// The order of two coefficients unit by unit from place `i` on.
pub open spec fn units_order(a: Seq<u16>, b: Seq<u16>, i: int) -> Order
    decreases 13 - i,
{
    if i < 0 || i >= 13 {
        Order::Equal
    } else if a[i] != b[i] {
        crate::order::int_order(a[i] as int, b[i] as int)
    } else {
        units_order(a, b, i + 1)
    }
}

/// Calls `Ord::cmp` of `dec::OrderedDecimal` on the two decimals. The
/// contract claims that the outcome is a function of the parts of the two
/// decimals, and names it.
#[verifier::external_body]
fn dec_compare(a: &Numeric, b: &Numeric) -> (r: Order)
    requires
        a.wf(),
        b.wf(),
    ensures
        r == dec_order(*a, *b),
{
    let x = dec::OrderedDecimal(dec::Decimal::<13>::from_raw_parts(a.digits, a.exponent, a.bits, a.lsu));
    let y = dec::OrderedDecimal(dec::Decimal::<13>::from_raw_parts(b.digits, b.exponent, b.bits, b.lsu));
    match x.cmp(&y) {
        std::cmp::Ordering::Less => Order::Less,
        std::cmp::Ordering::Equal => Order::Equal,
        std::cmp::Ordering::Greater => Order::Greater,
    }
}

/// The order of two decimals, computed.
pub fn numeric_order(a: &Numeric, b: &Numeric) -> (r: Order)
    ensures
        r == numeric_order_spec(*a, *b),
{
    if a.is_wf() && b.is_wf() {
        dec_compare(a, b)
    } else if a.digits != b.digits {
        if a.digits < b.digits {
            Order::Less
        } else {
            Order::Greater
        }
    } else if a.exponent != b.exponent {
        if a.exponent < b.exponent {
            Order::Less
        } else {
            Order::Greater
        }
    } else if a.bits != b.bits {
        if a.bits < b.bits {
            Order::Less
        } else {
            Order::Greater
        }
    } else {
        let mut i: usize = 0;
        while i < 13
            invariant
                i <= 13,
                numeric_order_spec(*a, *b) == units_order(a.lsu@, b.lsu@, 0),
                units_order(a.lsu@, b.lsu@, 0) == units_order(a.lsu@, b.lsu@, i as int),
            decreases 13 - i,
        {
            if a.lsu[i] != b.lsu[i] {
                return if a.lsu[i] < b.lsu[i] {
                    Order::Less
                } else {
                    Order::Greater
                };
            }
            i += 1;
        }
        Order::Equal
    }
}

} // verus!
