//! Tests of the shape of datums, which the functions are asked about
//! before they are given the datums.

use vstd::prelude::*;
use crate::datum::{datums_view, Datum, DatumV};
use crate::error::{EvalError, EvalErrorV};
use crate::func_datetime::{is_date, is_interval, is_time, is_timestamp, is_timestamptz};
use crate::func_jsonb::{each_text, each_text_or_null, keys_and_values};
use crate::func_list::{lengths_fit, slice_bounds};

verus! {

/// The error of a function that is given datums on which it is not
/// defined.
pub open spec fn wrong_shape() -> EvalErrorV {
    EvalErrorV::Internal("operands of a kind that the function does not take"@)
}

/// The error of a function that is given datums on which it is not
/// defined.
pub fn shape_error() -> (r: EvalError)
    ensures
        r@ == wrong_shape(),
{
    EvalError::internal("operands of a kind that the function does not take")
}

/// Whether each datum is a text, or null where nulls are let through.
pub fn check_texts(v: &Vec<Datum>, nulls: bool) -> (r: bool)
    ensures
        r == if nulls {
            each_text_or_null(datums_view(v@))
        } else {
            each_text(datums_view(v@))
        },
{
    let ghost s = datums_view(v@);
    let mut i: usize = 0;
    while i < v.len()
        invariant
            i <= v.len(),
            s == datums_view(v@),
            forall|j: int| 0 <= j < i ==> (#[trigger] s[j]) is String || (nulls && s[j] is Null),
        decreases v.len() - i,
    {
        let ok = match &v[i] {
            Datum::String(_) => true,
            Datum::Null => nulls,
            _ => false,
        };
        if !ok {
            assert(!(s[i as int] is String || (nulls && s[i as int] is Null)));
            return false;
        }
        i += 1;
    }
    true
}

/// Whether a datum is an array whose elements are texts, or nulls where
/// nulls are let through.
pub open spec fn is_text_array(d: DatumV, nulls: bool) -> bool {
    d is Array && if nulls {
        each_text_or_null(d->elements)
    } else {
        each_text(d->elements)
    }
}

/// Whether a datum is an array whose elements are texts.
pub fn check_text_array(d: &Datum, nulls: bool) -> (r: bool)
    ensures
        r == is_text_array(d@, nulls),
{
    match d {
        Datum::Array { .. } => check_texts(d.unwrap_array_elements(), nulls),
        _ => false,
    }
}

/// Whether a datum is an array whose dimensions have lengths that fit 64
/// bits.
pub open spec fn is_measured_array(d: DatumV) -> bool {
    d is Array && lengths_fit(d->dims)
}

/// Whether a datum is an array whose dimensions have lengths that fit 64
/// bits.
#[verifier::loop_isolation(false)]
pub fn check_measured_array(d: &Datum) -> (r: bool)
    ensures
        r == is_measured_array(d@),
{
    match d {
        Datum::Array { .. } => {
            let dims = d.unwrap_array_dims();
            let mut i: usize = 0;
            while i < dims.len()
                invariant
                    i <= dims.len(),
                    forall|j: int| 0 <= j < i ==> (#[trigger] dims@[j]).length <= i64::MAX,
                decreases dims.len() - i,
            {
                if dims[i].length as u64 > i64::MAX as u64 {
                    assert(!(d@->dims[i as int].length <= i64::MAX));
                    return false;
                }
                i += 1;
            }
            true
        },
        _ => false,
    }
}

/// Whether a datum is a list of at most as many elements as fit 64 bits.
pub open spec fn is_counted_list(d: DatumV) -> bool {
    d is List && d->List_0.len() <= i64::MAX
}

/// Whether a datum is a list of at most as many elements as fit 64 bits.
pub fn check_counted_list(d: &Datum) -> (r: bool)
    ensures
        r == is_counted_list(d@),
{
    match d {
        Datum::List(_) => {
            let v = d.unwrap_list();
            assert(datums_view(v@).len() == v@.len());
            v.len() as u64 <= i64::MAX as u64
        },
        _ => false,
    }
}

/// Whether a datum is null or a list.
pub open spec fn is_list_or_null(d: DatumV) -> bool {
    d is Null || d is List
}

/// Whether a datum is null or a list.
pub fn check_list_or_null(d: &Datum) -> (r: bool)
    ensures
        r == is_list_or_null(d@),
{
    match d {
        Datum::Null | Datum::List(_) => true,
        _ => false,
    }
}

/// Whether a datum is a list with an element at a place.
pub open spec fn has_field(d: DatumV, i: usize) -> bool {
    d is List && i < d->List_0.len()
}

/// Whether a datum is a list with an element at a place.
pub fn check_field(d: &Datum, i: usize) -> (r: bool)
    ensures
        r == has_field(d@, i),
{
    match d {
        Datum::List(_) => {
            let v = d.unwrap_list();
            assert(datums_view(v@).len() == v@.len());
            i < v.len()
        },
        _ => false,
    }
}

/// Whether a datum is a well-formed date.
pub fn check_date(d: &Datum) -> (r: bool)
    ensures
        r == is_date(d@),
{
    match d {
        Datum::Date(x) => x.is_wf(),
        _ => false,
    }
}

/// Whether a datum is a well-formed time of day.
pub fn check_time(d: &Datum) -> (r: bool)
    ensures
        r == is_time(d@),
{
    match d {
        Datum::Time(x) => x.is_wf(),
        _ => false,
    }
}

/// Whether a datum is a well-formed timestamp.
pub fn check_timestamp(d: &Datum) -> (r: bool)
    ensures
        r == is_timestamp(d@),
{
    match d {
        Datum::Timestamp(x) => x.is_wf(),
        _ => false,
    }
}

/// Whether a datum is a well-formed timestamp with time zone.
pub fn check_timestamptz(d: &Datum) -> (r: bool)
    ensures
        r == is_timestamptz(d@),
{
    match d {
        Datum::TimestampTz(x) => x.is_wf(),
        _ => false,
    }
}

/// Whether a datum is a well-formed interval.
pub fn check_interval(d: &Datum) -> (r: bool)
    ensures
        r == is_interval(d@),
{
    match d {
        Datum::Interval(x) => x.is_wf(),
        _ => false,
    }
}

/// Whether a datum is of the variant with a rank.
pub fn check_variant(d: &Datum, rank: u8) -> (r: bool)
    ensures
        r == (d@.rank() == rank),
{
    d.rank() == rank
}

/// Whether a datum is a truth value.
pub fn check_bool(d: &Datum) -> (r: bool)
    ensures
        r == d@.is_bool(),
{
    match d {
        Datum::True | Datum::False => true,
        _ => false,
    }
}

/// Whether the datums at the places from `from` up to `to` are of the
/// variant with a rank.
pub fn check_all(v: &Vec<Datum>, from: usize, to: usize, rank: u8) -> (r: bool)
    requires
        from <= to <= v@.len(),
    ensures
        r == forall|i: int| from <= i < to ==> (#[trigger] datums_view(v@)[i]).rank() == rank,
{
    let ghost s = datums_view(v@);
    let mut i: usize = from;
    while i < to
        invariant
            from <= i <= to <= v@.len(),
            s == datums_view(v@),
            forall|j: int| from <= j < i ==> (#[trigger] s[j]).rank() == rank,
        decreases to - i,
    {
        if v[i].rank() != rank {
            assert(s[i as int].rank() != rank);
            return false;
        }
        i += 1;
    }
    true
}

/// Whether the datums are keys and values in turn, each key a text.
pub fn check_keys_and_values(v: &Vec<Datum>) -> (r: bool)
    ensures
        r == keys_and_values(datums_view(v@)),
{
    let ghost s = datums_view(v@);
    if v.len() % 2 != 0 {
        return false;
    }
    let mut i: usize = 0;
    while i < v.len() / 2
        invariant
            i <= v.len() / 2,
            s == datums_view(v@),
            forall|j: int| 0 <= j < i ==> (#[trigger] s[2 * j]) is String,
        decreases v.len() / 2 - i,
    {
        if v[2 * i].rank() != 13 {
            assert(!(s[2 * (i as int)] is String));
            return false;
        }
        i += 1;
    }
    true
}

/// Whether the datums are a value and, behind it, at least one pair of
/// bounds, each bound a 64-bit integer.
pub fn check_slice_bounds(v: &Vec<Datum>) -> (r: bool)
    ensures
        r == slice_bounds(datums_view(v@)),
{
    if v.len() < 3 || v.len() % 2 != 1 {
        return false;
    }
    let r = check_all(v, 1, v.len(), 4);
    proof {
        let s = datums_view(v@);
        if r {
            assert forall|i: int| 1 <= i < s.len() implies (#[trigger] s[i]) is Int64 by {
                assert(s[i].rank() == 4);
            }
        } else {
            if slice_bounds(s) {
                assert forall|i: int| 1 <= i < s.len() implies (#[trigger] s[i]).rank() == 4 by {
                    assert(s[i] is Int64);
                }
            }
        }
    }
    r
}

} // verus!
