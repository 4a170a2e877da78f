//! Aggregate functions: reducers over the datums of one group.

use vstd::prelude::*;
use crate::datum::{datums_view, pairs_view, ArrayDimension, Datum, DatumV, Numeric};
use crate::pairs::{dedup_keep_last, keep_last, pairs_sorted, sort_pairs, PairV};
use vstd::string::StringExecFns;
use crate::float::{FloatOp, FloatUnit};
use crate::numeric::{dec_from_i128, dec_from_i128_result, dec_sum, dec_sum_result};
use crate::numeric::{NUMERIC_MAX_EXPONENT, NUMERIC_MIN_EXPONENT};
use crate::order::{datum_order, Order};
use crate::scalar_type::{ColumnType, ScalarType, ScalarTypeV};

verus! {

/// Whether each datum is SQL null or of the variant with the given rank.
pub open spec fn each_null_or_rank(s: Seq<DatumV>, rank: int) -> bool {
    forall|i: int| 0 <= i < s.len() ==> (#[trigger] s[i]) is Null || s[i].rank() == rank
}

/// Whether each datum is SQL null or a truth value.
pub open spec fn each_null_or_bool(s: Seq<DatumV>) -> bool {
    forall|i: int| 0 <= i < s.len() ==> (#[trigger] s[i]) is Null || s[i].is_bool()
}

/// The greatest datum that is not null, the last of several that are
/// equal; null where there is none.
pub open spec fn max_of(s: Seq<DatumV>) -> DatumV
    decreases s.len(),
{
    if s.len() == 0 {
        DatumV::Null
    } else {
        let m = max_of(s.drop_last());
        let x = s.last();
        if x is Null {
            m
        } else if m is Null {
            x
        } else if datum_order(x, m) == Order::Less {
            m
        } else {
            x
        }
    }
}

/// The least datum that is not null, the first of several that are equal;
/// null where there is none.
pub open spec fn min_of(s: Seq<DatumV>) -> DatumV
    decreases s.len(),
{
    if s.len() == 0 {
        DatumV::Null
    } else {
        let m = min_of(s.drop_last());
        let x = s.last();
        if x is Null {
            m
        } else if m is Null {
            x
        } else if datum_order(x, m) == Order::Less {
            x
        } else {
            m
        }
    }
}

/// How many datums are not null.
pub open spec fn count_non_null(s: Seq<DatumV>) -> nat
    decreases s.len(),
{
    if s.len() == 0 {
        0
    } else {
        count_non_null(s.drop_last()) + if s.last() is Null {
            0nat
        } else {
            1nat
        }
    }
}

/// The integer that an integer datum holds; zero for any other datum.
pub open spec fn int_of(d: DatumV) -> int {
    match d {
        DatumV::Int16(i) => i as int,
        DatumV::Int32(i) => i as int,
        DatumV::Int64(i) => i as int,
        _ => 0,
    }
}

/// The sum of the integers among the datums.
pub open spec fn int_sum(s: Seq<DatumV>) -> int
    decreases s.len(),
{
    if s.len() == 0 {
        0
    } else {
        int_sum(s.drop_last()) + int_of(s.last())
    }
}

/// The decimals among the datums, in order.
pub open spec fn numerics_of(s: Seq<DatumV>) -> Seq<Numeric>
    decreases s.len(),
{
    if s.len() == 0 {
        Seq::empty()
    } else {
        match s.last() {
            DatumV::Numeric(n) => numerics_of(s.drop_last()).push(n),
            _ => numerics_of(s.drop_last()),
        }
    }
}

/// One step of `any`: true once a datum is true. A null is passed over.
pub open spec fn any_step(state: DatumV, next: DatumV) -> DatumV {
    if state is True || next is True {
        DatumV::True
    } else {
        DatumV::False
    }
}

/// One step of `all`: false once a datum is false. A null is passed over.
pub open spec fn all_step(state: DatumV, next: DatumV) -> DatumV {
    if state is False || next is False {
        DatumV::False
    } else {
        DatumV::True
    }
}

/// The fold of `any` over the datums, from false.
pub open spec fn any_of(s: Seq<DatumV>) -> DatumV
    decreases s.len(),
{
    if s.len() == 0 {
        DatumV::False
    } else {
        any_step(any_of(s.drop_last()), s.last())
    }
}

/// The fold of `all` over the datums, from true.
pub open spec fn all_of(s: Seq<DatumV>) -> DatumV
    decreases s.len(),
{
    if s.len() == 0 {
        DatumV::True
    } else {
        all_step(all_of(s.drop_last()), s.last())
    }
}

/// `any` is true where a datum is true, and false else: nulls are left
/// out before the fold, so what is left of `[null, false]` is false.
pub proof fn lemma_any_of(s: Seq<DatumV>)
    ensures
        any_of(s) == if exists|i: int| 0 <= i < s.len() && (#[trigger] s[i]) is True {
            DatumV::True
        } else {
            DatumV::False
        },
        any_of(s.push(DatumV::Null)) == any_of(s),
    decreases s.len(),
{
    assert(s.push(DatumV::Null).drop_last() =~= s);
    if s.len() > 0 {
        let t = s.drop_last();
        lemma_any_of(t);
        if exists|i: int| 0 <= i < t.len() && (#[trigger] t[i]) is True {
            let i = choose|i: int| 0 <= i < t.len() && (#[trigger] t[i]) is True;
            assert(s[i] is True);
        }
        if exists|i: int| 0 <= i < s.len() && (#[trigger] s[i]) is True {
            let i = choose|i: int| 0 <= i < s.len() && (#[trigger] s[i]) is True;
            if i < t.len() {
                assert(t[i] is True);
            }
        }
    }
}

/// `all` is false where a datum is false, and true else: nulls are left
/// out before the fold.
pub proof fn lemma_all_of(s: Seq<DatumV>)
    ensures
        all_of(s) == if exists|i: int| 0 <= i < s.len() && (#[trigger] s[i]) is False {
            DatumV::False
        } else {
            DatumV::True
        },
        all_of(s.push(DatumV::Null)) == all_of(s),
    decreases s.len(),
{
    assert(s.push(DatumV::Null).drop_last() =~= s);
    if s.len() > 0 {
        let t = s.drop_last();
        lemma_all_of(t);
        if exists|i: int| 0 <= i < t.len() && (#[trigger] t[i]) is False {
            let i = choose|i: int| 0 <= i < t.len() && (#[trigger] t[i]) is False;
            assert(s[i] is False);
        }
        if exists|i: int| 0 <= i < s.len() && (#[trigger] s[i]) is False {
            let i = choose|i: int| 0 <= i < s.len() && (#[trigger] s[i]) is False;
            if i < t.len() {
                assert(t[i] is False);
            }
        }
    }
}

/// Over no datums: the count is zero, `any` is false, `all` is true, and
/// maximum, minimum and the sums are null.
pub proof fn lemma_empty_input()
    ensures
        count_non_null(Seq::<DatumV>::empty()) == 0,
        any_of(Seq::<DatumV>::empty()) == DatumV::False,
        all_of(Seq::<DatumV>::empty()) == DatumV::True,
        max_of(Seq::<DatumV>::empty()) == DatumV::Null,
        min_of(Seq::<DatumV>::empty()) == DatumV::Null,
        sum_int_of(Seq::<DatumV>::empty()) == DatumV::Null,
        sum_int64_of(Seq::<DatumV>::empty()) == DatumV::Null,
        sum_numeric_of(Seq::<DatumV>::empty()) == DatumV::Null,
{
}

/// Datums that are null do not count: maximum, minimum, count and sums are
/// what they are without the null that ends the input.
pub proof fn lemma_null_is_skipped(s: Seq<DatumV>)
    ensures
        max_of(s.push(DatumV::Null)) == max_of(s),
        min_of(s.push(DatumV::Null)) == min_of(s),
        count_non_null(s.push(DatumV::Null)) == count_non_null(s),
        int_sum(s.push(DatumV::Null)) == int_sum(s),
        numerics_of(s.push(DatumV::Null)) == numerics_of(s),
{
    assert(s.push(DatumV::Null).drop_last() =~= s);
}

/// The sum of 16-bit or 32-bit integers: a 64-bit integer, or null where no
/// datum is an integer.
pub open spec fn sum_int_of(s: Seq<DatumV>) -> DatumV {
    if count_non_null(s) == 0 {
        DatumV::Null
    } else {
        DatumV::Int64(int_sum(s) as i64)
    }
}

/// The sum of 64-bit integers: a decimal, or null where no datum is an
/// integer.
pub open spec fn sum_int64_of(s: Seq<DatumV>) -> DatumV {
    if count_non_null(s) == 0 {
        DatumV::Null
    } else {
        DatumV::Numeric(dec_from_i128_result(int_sum(s) as i128).canon())
    }
}

/// The sum of decimals: a decimal, or null where no datum is a decimal.
pub open spec fn sum_numeric_of(s: Seq<DatumV>) -> DatumV {
    if count_non_null(s) == 0 {
        DatumV::Null
    } else {
        DatumV::Numeric(dec_sum_result(numerics_of(s), NUMERIC_MAX_EXPONENT, NUMERIC_MIN_EXPONENT).canon())
    }
}

/// The greatest datum that is not null.
pub fn max_datum(datums: &Vec<Datum>) -> (r: Datum)
    ensures
        r@ == max_of(datums_view(datums@)),
{
    let ghost s = datums_view(datums@);
    let mut best: Option<usize> = None;
    let mut i: usize = 0;
    while i < datums.len()
        invariant
            i <= datums.len(),
            s == datums_view(datums@),
            match best {
                Some(k) => k < i && s[k as int] == max_of(s.take(i as int)) && !(s[k as int] is Null),
                None => max_of(s.take(i as int)) is Null,
            },
        decreases datums.len() - i,
    {
        proof {
            assert(s.take(i + 1).drop_last() =~= s.take(i as int));
            assert(s.take(i + 1).last() == s[i as int]);
        }
        if !datums[i].is_null() {
            match best {
                None => {
                    best = Some(i);
                },
                Some(k) => {
                    if datums[i].compare(&datums[k]) != Order::Less {
                        best = Some(i);
                    }
                },
            }
        }
        i += 1;
    }
    assert(s.take(datums.len() as int) =~= s);
    match best {
        Some(k) => datums[k].clone(),
        None => Datum::Null,
    }
}

/// The least datum that is not null.
pub fn min_datum(datums: &Vec<Datum>) -> (r: Datum)
    ensures
        r@ == min_of(datums_view(datums@)),
{
    let ghost s = datums_view(datums@);
    let mut best: Option<usize> = None;
    let mut i: usize = 0;
    while i < datums.len()
        invariant
            i <= datums.len(),
            s == datums_view(datums@),
            match best {
                Some(k) => k < i && s[k as int] == min_of(s.take(i as int)) && !(s[k as int] is Null),
                None => min_of(s.take(i as int)) is Null,
            },
        decreases datums.len() - i,
    {
        proof {
            assert(s.take(i + 1).drop_last() =~= s.take(i as int));
            assert(s.take(i + 1).last() == s[i as int]);
        }
        if !datums[i].is_null() {
            match best {
                None => {
                    best = Some(i);
                },
                Some(k) => {
                    if datums[i].compare(&datums[k]) == Order::Less {
                        best = Some(i);
                    }
                },
            }
        }
        i += 1;
    }
    assert(s.take(datums.len() as int) =~= s);
    match best {
        Some(k) => datums[k].clone(),
        None => Datum::Null,
    }
}

pub fn max_numeric(datums: &Vec<Datum>) -> (r: Datum)
    requires
        each_null_or_rank(datums_view(datums@), 17),
    ensures
        r@ == max_of(datums_view(datums@)),
{
    max_datum(datums)
}

pub fn max_int16(datums: &Vec<Datum>) -> (r: Datum)
    requires
        each_null_or_rank(datums_view(datums@), 2),
    ensures
        r@ == max_of(datums_view(datums@)),
{
    max_datum(datums)
}

pub fn max_int32(datums: &Vec<Datum>) -> (r: Datum)
    requires
        each_null_or_rank(datums_view(datums@), 3),
    ensures
        r@ == max_of(datums_view(datums@)),
{
    max_datum(datums)
}

pub fn max_int64(datums: &Vec<Datum>) -> (r: Datum)
    requires
        each_null_or_rank(datums_view(datums@), 4),
    ensures
        r@ == max_of(datums_view(datums@)),
{
    max_datum(datums)
}

pub fn max_float32(datums: &Vec<Datum>) -> (r: Datum)
    requires
        each_null_or_rank(datums_view(datums@), 5),
    ensures
        r@ == max_of(datums_view(datums@)),
{
    max_datum(datums)
}

pub fn max_float64(datums: &Vec<Datum>) -> (r: Datum)
    requires
        each_null_or_rank(datums_view(datums@), 6),
    ensures
        r@ == max_of(datums_view(datums@)),
{
    max_datum(datums)
}

pub fn max_bool(datums: &Vec<Datum>) -> (r: Datum)
    requires
        each_null_or_bool(datums_view(datums@)),
    ensures
        r@ == max_of(datums_view(datums@)),
{
    max_datum(datums)
}

pub fn max_string(datums: &Vec<Datum>) -> (r: Datum)
    requires
        each_null_or_rank(datums_view(datums@), 13),
    ensures
        r@ == max_of(datums_view(datums@)),
{
    max_datum(datums)
}

pub fn max_date(datums: &Vec<Datum>) -> (r: Datum)
    requires
        each_null_or_rank(datums_view(datums@), 7),
    ensures
        r@ == max_of(datums_view(datums@)),
{
    max_datum(datums)
}

pub fn max_timestamp(datums: &Vec<Datum>) -> (r: Datum)
    requires
        each_null_or_rank(datums_view(datums@), 9),
    ensures
        r@ == max_of(datums_view(datums@)),
{
    max_datum(datums)
}

pub fn max_timestamptz(datums: &Vec<Datum>) -> (r: Datum)
    requires
        each_null_or_rank(datums_view(datums@), 10),
    ensures
        r@ == max_of(datums_view(datums@)),
{
    max_datum(datums)
}

pub fn min_numeric(datums: &Vec<Datum>) -> (r: Datum)
    requires
        each_null_or_rank(datums_view(datums@), 17),
    ensures
        r@ == min_of(datums_view(datums@)),
{
    min_datum(datums)
}

pub fn min_int16(datums: &Vec<Datum>) -> (r: Datum)
    requires
        each_null_or_rank(datums_view(datums@), 2),
    ensures
        r@ == min_of(datums_view(datums@)),
{
    min_datum(datums)
}

pub fn min_int32(datums: &Vec<Datum>) -> (r: Datum)
    requires
        each_null_or_rank(datums_view(datums@), 3),
    ensures
        r@ == min_of(datums_view(datums@)),
{
    min_datum(datums)
}

pub fn min_int64(datums: &Vec<Datum>) -> (r: Datum)
    requires
        each_null_or_rank(datums_view(datums@), 4),
    ensures
        r@ == min_of(datums_view(datums@)),
{
    min_datum(datums)
}

pub fn min_float32(datums: &Vec<Datum>) -> (r: Datum)
    requires
        each_null_or_rank(datums_view(datums@), 5),
    ensures
        r@ == min_of(datums_view(datums@)),
{
    min_datum(datums)
}

pub fn min_float64(datums: &Vec<Datum>) -> (r: Datum)
    requires
        each_null_or_rank(datums_view(datums@), 6),
    ensures
        r@ == min_of(datums_view(datums@)),
{
    min_datum(datums)
}

pub fn min_bool(datums: &Vec<Datum>) -> (r: Datum)
    requires
        each_null_or_bool(datums_view(datums@)),
    ensures
        r@ == min_of(datums_view(datums@)),
{
    min_datum(datums)
}

pub fn min_string(datums: &Vec<Datum>) -> (r: Datum)
    requires
        each_null_or_rank(datums_view(datums@), 13),
    ensures
        r@ == min_of(datums_view(datums@)),
{
    min_datum(datums)
}

pub fn min_date(datums: &Vec<Datum>) -> (r: Datum)
    requires
        each_null_or_rank(datums_view(datums@), 7),
    ensures
        r@ == min_of(datums_view(datums@)),
{
    min_datum(datums)
}

pub fn min_timestamp(datums: &Vec<Datum>) -> (r: Datum)
    requires
        each_null_or_rank(datums_view(datums@), 9),
    ensures
        r@ == min_of(datums_view(datums@)),
{
    min_datum(datums)
}

pub fn min_timestamptz(datums: &Vec<Datum>) -> (r: Datum)
    requires
        each_null_or_rank(datums_view(datums@), 10),
    ensures
        r@ == min_of(datums_view(datums@)),
{
    min_datum(datums)
}

/// The sum of the integers among the datums and the count of the datums
/// that are not null. The sum cannot overflow: the integers have at most 64
/// bits and there are fewer than 2^64 of them.
fn sum_and_count(datums: &Vec<Datum>) -> (r: (i128, usize))
    ensures
        r.0 == int_sum(datums_view(datums@)),
        r.1 == count_non_null(datums_view(datums@)),
{
    let ghost s = datums_view(datums@);
    let mut sum: i128 = 0;
    let mut count: usize = 0;
    let mut i: usize = 0;
    while i < datums.len()
        invariant
            i <= datums.len(),
            s == datums_view(datums@),
            count <= i,
            count == count_non_null(s.take(i as int)),
            sum == int_sum(s.take(i as int)),
            -(i as int) * 0x8000_0000_0000_0000 <= sum <= (i as int) * 0x8000_0000_0000_0000,
        decreases datums.len() - i,
    {
        proof {
            assert(s.take(i + 1).drop_last() =~= s.take(i as int));
            assert(s.take(i + 1).last() == s[i as int]);
            assert((i as int + 1) * 0x8000_0000_0000_0000 == (i as int) * 0x8000_0000_0000_0000
                + 0x8000_0000_0000_0000) by (nonlinear_arith);
            assert((i as int + 1) * 0x8000_0000_0000_0000 <= 0x1_0000_0000_0000_0000 * 0x8000_0000_0000_0000)
                by (nonlinear_arith)
                requires
                    i as int + 1 <= 0x1_0000_0000_0000_0000,
            ;
        }
        let x: i128 = match &datums[i] {
            Datum::Int16(v) => *v as i128,
            Datum::Int32(v) => *v as i128,
            Datum::Int64(v) => *v as i128,
            _ => 0,
        };
        if !datums[i].is_null() {
            count += 1;
        }
        sum = sum + x;
        i += 1;
    }
    assert(s.take(datums.len() as int) =~= s);
    (sum, count)
}

/// Whether the sum of the integers among the datums fits 64 bits.
pub open spec fn sum_fits_int64(s: Seq<DatumV>) -> bool {
    i64::MIN <= int_sum(s) <= i64::MAX
}

pub fn sum_int16(datums: &Vec<Datum>) -> (r: Datum)
    requires
        each_null_or_rank(datums_view(datums@), 2),
        sum_fits_int64(datums_view(datums@)),
    ensures
        r@ == sum_int_of(datums_view(datums@)),
{
    let (sum, count) = sum_and_count(datums);
    if count == 0 {
        Datum::Null
    } else {
        Datum::Int64(sum as i64)
    }
}

pub fn sum_int32(datums: &Vec<Datum>) -> (r: Datum)
    requires
        each_null_or_rank(datums_view(datums@), 3),
        sum_fits_int64(datums_view(datums@)),
    ensures
        r@ == sum_int_of(datums_view(datums@)),
{
    let (sum, count) = sum_and_count(datums);
    if count == 0 {
        Datum::Null
    } else {
        Datum::Int64(sum as i64)
    }
}

pub fn sum_int64(datums: &Vec<Datum>) -> (r: Datum)
    requires
        each_null_or_rank(datums_view(datums@), 4),
    ensures
        r@ == sum_int64_of(datums_view(datums@)),
{
    let (sum, count) = sum_and_count(datums);
    if count == 0 {
        Datum::Null
    } else {
        Datum::Numeric(dec_from_i128(sum).to_canon())
    }
}

/// The sum of the singles among the datums, added from the first to the
/// last by the host; null where no datum is a single.
pub fn sum_float32<F: FloatUnit>(datums: &Vec<Datum>, fu: &F) -> (r: Datum)
    requires
        each_null_or_rank(datums_view(datums@), 5),
    ensures
        count_non_null(datums_view(datums@)) == 0 ==> r@ is Null,
        count_non_null(datums_view(datums@)) > 0 ==> r@ is Float32,
{
    let ghost s = datums_view(datums@);
    let mut acc: Option<u32> = None;
    let mut i: usize = 0;
    while i < datums.len()
        invariant
            i <= datums.len(),
            s == datums_view(datums@),
            each_null_or_rank(s, 5),
            (acc is None) == (count_non_null(s.take(i as int)) == 0),
        decreases datums.len() - i,
    {
        proof {
            assert(s.take(i + 1).drop_last() =~= s.take(i as int));
            assert(s.take(i + 1).last() == s[i as int]);
        }
        if !datums[i].is_null() {
            let x = datums[i].unwrap_float32();
            acc = match acc {
                None => Some(x),
                Some(a) => Some(fu.binary32(FloatOp::Add, a, x)),
            };
        }
        i += 1;
    }
    assert(s.take(datums.len() as int) =~= s);
    match acc {
        Some(a) => Datum::Float32(a),
        None => Datum::Null,
    }
}

/// The sum of the doubles among the datums, added from the first to the
/// last by the host; null where no datum is a double.
pub fn sum_float64<F: FloatUnit>(datums: &Vec<Datum>, fu: &F) -> (r: Datum)
    requires
        each_null_or_rank(datums_view(datums@), 6),
    ensures
        count_non_null(datums_view(datums@)) == 0 ==> r@ is Null,
        count_non_null(datums_view(datums@)) > 0 ==> r@ is Float64,
{
    let ghost s = datums_view(datums@);
    let mut acc: Option<u64> = None;
    let mut i: usize = 0;
    while i < datums.len()
        invariant
            i <= datums.len(),
            s == datums_view(datums@),
            each_null_or_rank(s, 6),
            (acc is None) == (count_non_null(s.take(i as int)) == 0),
        decreases datums.len() - i,
    {
        proof {
            assert(s.take(i + 1).drop_last() =~= s.take(i as int));
            assert(s.take(i + 1).last() == s[i as int]);
        }
        if !datums[i].is_null() {
            let x = datums[i].unwrap_float64();
            acc = match acc {
                None => Some(x),
                Some(a) => Some(fu.binary64(FloatOp::Add, a, x)),
            };
        }
        i += 1;
    }
    assert(s.take(datums.len() as int) =~= s);
    match acc {
        Some(a) => Datum::Float64(a),
        None => Datum::Null,
    }
}

/// Whether each datum is SQL null or a well-formed decimal.
pub open spec fn each_null_or_numeric(s: Seq<DatumV>) -> bool {
    forall|i: int| 0 <= i < s.len() ==> (#[trigger] s[i]) is Null || (s[i] is Numeric && s[i]->Numeric_0.wf())
}

pub fn sum_numeric(datums: &Vec<Datum>) -> (r: Datum)
    requires
        each_null_or_numeric(datums_view(datums@)),
    ensures
        r@ == sum_numeric_of(datums_view(datums@)),
{
    let ghost s = datums_view(datums@);
    let mut values: Vec<Numeric> = Vec::new();
    let mut i: usize = 0;
    while i < datums.len()
        invariant
            i <= datums.len(),
            s == datums_view(datums@),
            each_null_or_numeric(s),
            values@ == numerics_of(s.take(i as int)),
            values@.len() == count_non_null(s.take(i as int)),
            forall|j: int| 0 <= j < values@.len() ==> (#[trigger] values@[j]).wf(),
        decreases datums.len() - i,
    {
        proof {
            assert(s.take(i + 1).drop_last() =~= s.take(i as int));
            assert(s.take(i + 1).last() == s[i as int]);
        }
        if !datums[i].is_null() {
            values.push(datums[i].unwrap_numeric());
        }
        i += 1;
    }
    assert(s.take(datums.len() as int) =~= s);
    if values.len() == 0 {
        Datum::Null
    } else {
        Datum::Numeric(dec_sum(&values, NUMERIC_MAX_EXPONENT, NUMERIC_MIN_EXPONENT).to_canon())
    }
}

/// The count of the datums that are not null. It is never null.
pub fn count(datums: &Vec<Datum>) -> (r: Datum)
    requires
        datums@.len() <= i64::MAX,
    ensures
        r@ == DatumV::Int64(count_non_null(datums_view(datums@)) as i64),
{
    let ghost s = datums_view(datums@);
    let mut n: i64 = 0;
    let mut i: usize = 0;
    while i < datums.len()
        invariant
            i <= datums.len(),
            datums@.len() <= i64::MAX,
            s == datums_view(datums@),
            0 <= n <= i,
            n == count_non_null(s.take(i as int)),
        decreases datums.len() - i,
    {
        proof {
            assert(s.take(i + 1).drop_last() =~= s.take(i as int));
            assert(s.take(i + 1).last() == s[i as int]);
        }
        if !datums[i].is_null() {
            n += 1;
        }
        i += 1;
    }
    assert(s.take(datums.len() as int) =~= s);
    Datum::Int64(n)
}

/// True where a datum is true, and false else. Nulls are left out.
pub fn any(datums: &Vec<Datum>) -> (r: Datum)
    ensures
        r@ == any_of(datums_view(datums@)),
{
    let ghost s = datums_view(datums@);
    let mut state = Datum::False;
    let mut i: usize = 0;
    while i < datums.len()
        invariant
            i <= datums.len(),
            s == datums_view(datums@),
            state@ == any_of(s.take(i as int)),
        decreases datums.len() - i,
    {
        proof {
            assert(s.take(i + 1).drop_last() =~= s.take(i as int));
            assert(s.take(i + 1).last() == s[i as int]);
        }
        let next = &datums[i];
        state = match (&state, next) {
            (Datum::True, _) => Datum::True,
            (_, Datum::True) => Datum::True,
            _ => Datum::False,
        };
        i += 1;
    }
    assert(s.take(datums.len() as int) =~= s);
    state
}

/// False where a datum is false, and true else. Nulls are left out.
pub fn all(datums: &Vec<Datum>) -> (r: Datum)
    ensures
        r@ == all_of(datums_view(datums@)),
{
    let ghost s = datums_view(datums@);
    let mut state = Datum::True;
    let mut i: usize = 0;
    while i < datums.len()
        invariant
            i <= datums.len(),
            s == datums_view(datums@),
            state@ == all_of(s.take(i as int)),
        decreases datums.len() - i,
    {
        proof {
            assert(s.take(i + 1).drop_last() =~= s.take(i as int));
            assert(s.take(i + 1).last() == s[i as int]);
        }
        let next = &datums[i];
        state = match (&state, next) {
            (Datum::False, _) => Datum::False,
            (_, Datum::False) => Datum::False,
            _ => Datum::True,
        };
        i += 1;
    }
    assert(s.take(datums.len() as int) =~= s);
    state
}

/// One column of an ORDER BY clause.
#[derive(Clone, Copy, Debug, PartialEq, Eq, Structural, Hash)]
pub struct ColumnOrder {
    /// The column to order by.
    pub column: usize,
    /// Whether the column is ordered descending.
    pub desc: bool,
}

/// The order of two rows under an ORDER BY clause, from its column `i` on:
/// that of the first column of the clause at which the rows differ.
pub open spec fn columns_order(order_by: Seq<ColumnOrder>, left: Seq<DatumV>, right: Seq<DatumV>, i: int) -> Order
    decreases order_by.len() - i,
{
    if i < 0 || i >= order_by.len() {
        Order::Equal
    } else {
        let c = order_by[i];
        let o = if c.desc {
            datum_order(right[c.column as int], left[c.column as int])
        } else {
            datum_order(left[c.column as int], right[c.column as int])
        };
        if o != Order::Equal {
            o
        } else {
            columns_order(order_by, left, right, i + 1)
        }
    }
}

/// The order of two rows under an ORDER BY clause.
pub fn compare_columns(order_by: &Vec<ColumnOrder>, left: &Vec<Datum>, right: &Vec<Datum>) -> (r: Order)
    requires
        forall|k: int|
            0 <= k < order_by@.len() ==> (#[trigger] order_by@[k]).column < left@.len() && order_by@[k].column
                < right@.len(),
    ensures
        r == columns_order(order_by@, datums_view(left@), datums_view(right@), 0),
{
    let ghost l = datums_view(left@);
    let ghost r = datums_view(right@);
    let mut i: usize = 0;
    while i < order_by.len()
        invariant
            i <= order_by.len(),
            l == datums_view(left@),
            r == datums_view(right@),
            forall|k: int|
                0 <= k < order_by@.len() ==> (#[trigger] order_by@[k]).column < left@.len() && order_by@[k].column
                    < right@.len(),
            columns_order(order_by@, l, r, 0) == columns_order(order_by@, l, r, i as int),
        decreases order_by.len() - i,
    {
        let c = order_by[i];
        let o = if c.desc {
            right[c.column].compare(&left[c.column])
        } else {
            left[c.column].compare(&right[c.column])
        };
        if o != Order::Equal {
            return o;
        }
        i += 1;
    }
    Order::Equal
}

/// The columns that an input of an ordered aggregate is ordered by: all
/// but the first element of the list.
pub open spec fn order_keys(d: DatumV) -> Seq<DatumV> {
    d->List_0.skip(1)
}

/// What an input of an ordered aggregate carries: the first element of
/// the list.
pub open spec fn payload(d: DatumV) -> DatumV {
    d->List_0[0]
}

/// Whether `a` stands before `b` under the ORDER BY clause.
pub open spec fn item_before(order_by: Seq<ColumnOrder>, a: DatumV, b: DatumV) -> bool {
    columns_order(order_by, order_keys(a), order_keys(b), 0) == Order::Less
}

/// `x` put into `s` behind the last input that does not stand behind it.
pub open spec fn item_insert_stable(s: Seq<DatumV>, x: DatumV, order_by: Seq<ColumnOrder>) -> Seq<DatumV>
    decreases s.len(),
{
    if s.len() == 0 {
        seq![x]
    } else if item_before(order_by, x, s.last()) {
        item_insert_stable(s.drop_last(), x, order_by).push(s.last())
    } else {
        s.push(x)
    }
}

/// The inputs in the order of the ORDER BY clause; inputs that the clause
/// does not tell apart stay in the order in which they came.
pub open spec fn items_sorted(s: Seq<DatumV>, order_by: Seq<ColumnOrder>) -> Seq<DatumV>
    decreases s.len(),
{
    if s.len() == 0 {
        Seq::empty()
    } else {
        item_insert_stable(items_sorted(s.drop_last(), order_by), s.last(), order_by)
    }
}

/// What the inputs carry, in the order of the ORDER BY clause.
pub open spec fn ordered_payloads(s: Seq<DatumV>, order_by: Seq<ColumnOrder>) -> Seq<DatumV> {
    let sorted = items_sorted(s, order_by);
    Seq::new(sorted.len(), |k: int| payload(sorted[k]))
}

/// Whether each input is a list that holds something to carry and every
/// column that the clause orders by.
pub open spec fn ordered_input(s: Seq<DatumV>, order_by: Seq<ColumnOrder>) -> bool {
    forall|i: int|
        0 <= i < s.len() ==> {
            &&& (#[trigger] s[i]) is List
            &&& s[i]->List_0.len() >= 1
            &&& forall|k: int| 0 <= k < order_by.len() ==> (#[trigger] order_by[k]).column + 1 < s[i]->List_0.len()
        }
}

proof fn lemma_item_insert_at(s: Seq<DatumV>, x: DatumV, order_by: Seq<ColumnOrder>, k: int)
    requires
        0 <= k <= s.len(),
        forall|j: int| k <= j < s.len() ==> item_before(order_by, x, #[trigger] s[j]),
        k > 0 ==> !item_before(order_by, x, s[k - 1]),
    ensures
        item_insert_stable(s, x, order_by) == s.insert(k, x),
    decreases s.len(),
{
    if s.len() == 0 {
        assert(s.insert(k, x) =~= seq![x]);
    } else if k == s.len() {
        assert(s.insert(k, x) =~= s.push(x));
    } else {
        assert(item_before(order_by, x, s[s.len() - 1]));
        lemma_item_insert_at(s.drop_last(), x, order_by, k);
        assert(s.insert(k, x) =~= s.drop_last().insert(k, x).push(s.last()));
    }
}

/// Sorting keeps the inputs: as many come out as went in, and what holds of
/// every input holds of every input that comes out.
pub proof fn lemma_items_sorted_keeps(s: Seq<DatumV>, order_by: Seq<ColumnOrder>, p: spec_fn(DatumV) -> bool)
    requires
        forall|i: int| 0 <= i < s.len() ==> p(#[trigger] s[i]),
    ensures
        items_sorted(s, order_by).len() == s.len(),
        forall|k: int| 0 <= k < s.len() ==> p(#[trigger] items_sorted(s, order_by)[k]),
    decreases s.len(),
{
    if s.len() > 0 {
        let t = s.drop_last();
        assert forall|i: int| 0 <= i < t.len() implies p(#[trigger] t[i]) by {
            assert(t[i] == s[i]);
        }
        lemma_items_sorted_keeps(t, order_by, p);
        lemma_item_insert_keeps(items_sorted(t, order_by), s.last(), order_by, p);
    }
}

proof fn lemma_item_insert_keeps(s: Seq<DatumV>, x: DatumV, order_by: Seq<ColumnOrder>, p: spec_fn(DatumV) -> bool)
    requires
        forall|i: int| 0 <= i < s.len() ==> p(#[trigger] s[i]),
        p(x),
    ensures
        item_insert_stable(s, x, order_by).len() == s.len() + 1,
        forall|k: int| 0 <= k < s.len() + 1 ==> p(#[trigger] item_insert_stable(s, x, order_by)[k]),
    decreases s.len(),
{
    if s.len() > 0 && item_before(order_by, x, s.last()) {
        let t = s.drop_last();
        assert forall|i: int| 0 <= i < t.len() implies p(#[trigger] t[i]) by {
            assert(t[i] == s[i]);
        }
        lemma_item_insert_keeps(t, x, order_by, p);
    }
}

/// A copy of the elements of a list from the second on.
fn key_row(list: &Vec<Datum>) -> (r: Vec<Datum>)
    requires
        list@.len() >= 1,
    ensures
        datums_view(r@) == datums_view(list@).skip(1),
        r@.len() == list@.len() - 1,
{
    let mut out: Vec<Datum> = Vec::new();
    let mut i: usize = 1;
    while i < list.len()
        invariant
            1 <= i <= list.len(),
            out.len() == i - 1,
            forall|j: int| 0 <= j < out.len() ==> out@[j]@ == list@[j + 1]@,
        decreases list.len() - i,
    {
        out.push(list[i].clone());
        i += 1;
    }
    assert(datums_view(out@) =~= datums_view(list@).skip(1));
    out
}

/// The inputs picked by the indices, in the order of the indices.
pub open spec fn picked(s: Seq<DatumV>, idx: Seq<usize>) -> Seq<DatumV> {
    Seq::new(idx.len(), |k: int| s[idx[k] as int])
}

/// Puts the inputs of an ordered aggregate into the order of the clause and
/// returns what they carry. Each input is a list: what it carries first,
/// then the columns that the clause orders by. The sort is stable.
pub fn order_aggregate_datums(datums: &Vec<Datum>, order_by: &Vec<ColumnOrder>) -> (r: Vec<Datum>)
    requires
        ordered_input(datums_view(datums@), order_by@),
    ensures
        datums_view(r@) == ordered_payloads(datums_view(datums@), order_by@),
{
    let ghost s = datums_view(datums@);
    let ghost ob = order_by@;
    let mut keys: Vec<Vec<Datum>> = Vec::new();
    let mut i: usize = 0;
    while i < datums.len()
        invariant
            i <= datums.len(),
            s == datums_view(datums@),
            ob == order_by@,
            ordered_input(s, ob),
            keys.len() == i,
            forall|j: int| 0 <= j < i ==> datums_view((#[trigger] keys@[j])@) == order_keys(s[j]),
        decreases datums.len() - i,
    {
        assert(s[i as int] is List);
        let list = datums[i].unwrap_list();
        keys.push(key_row(list));
        i += 1;
    }
    let mut idx: Vec<usize> = Vec::new();
    let mut i: usize = 0;
    while i < datums.len()
        invariant
            i <= datums.len(),
            s == datums_view(datums@),
            ob == order_by@,
            ordered_input(s, ob),
            keys.len() == datums.len(),
            forall|j: int| 0 <= j < keys.len() ==> datums_view((#[trigger] keys@[j])@) == order_keys(s[j]),
            idx.len() == i,
            forall|k: int| 0 <= k < idx.len() ==> (#[trigger] idx@[k]) < datums.len(),
            picked(s, idx@) == items_sorted(s.take(i as int), ob),
        decreases datums.len() - i,
    {
        let ghost before = picked(s, idx@);
        let ghost x = s[i as int];
        let mut k: usize = idx.len();
        loop
            invariant
                k <= idx.len(),
                i < datums.len(),
                s == datums_view(datums@),
                ob == order_by@,
                ordered_input(s, ob),
                keys.len() == datums.len(),
                forall|j: int| 0 <= j < keys.len() ==> datums_view((#[trigger] keys@[j])@) == order_keys(s[j]),
                forall|j: int| 0 <= j < idx.len() ==> (#[trigger] idx@[j]) < datums.len(),
                before == picked(s, idx@),
                x == s[i as int],
                forall|j: int| k <= j < idx.len() ==> item_before(ob, x, #[trigger] before[j]),
            ensures
                k <= idx.len(),
                forall|j: int| k <= j < idx.len() ==> item_before(ob, x, #[trigger] before[j]),
                k > 0 ==> !item_before(ob, x, before[k - 1]),
            decreases k,
        {
            if k == 0 {
                break;
            }
            let other = idx[k - 1];
            assert(s[i as int] is List && s[other as int] is List);
            assert(datums_view(keys@[i as int]@) == order_keys(s[i as int]));
            assert(datums_view(keys@[other as int]@) == order_keys(s[other as int]));
            assert(forall|c: int|
                0 <= c < ob.len() ==> (#[trigger] ob[c]).column < keys@[i as int]@.len() && ob[c].column
                    < keys@[other as int]@.len()) by {
                assert(order_keys(s[i as int]).len() == s[i as int]->List_0.len() - 1);
                assert(order_keys(s[other as int]).len() == s[other as int]->List_0.len() - 1);
                assert(datums_view(keys@[i as int]@).len() == keys@[i as int]@.len());
                assert(datums_view(keys@[other as int]@).len() == keys@[other as int]@.len());
            }
            let o = compare_columns(order_by, &keys[i], &keys[other]);
            assert(before[k - 1] == s[other as int]);
            if o != Order::Less {
                break;
            }
            k -= 1;
        }
        proof {
            lemma_item_insert_at(before, x, ob, k as int);
            assert(s.take(i + 1).drop_last() =~= s.take(i as int));
            assert(s.take(i + 1).last() == x);
        }
        idx.insert(k, i);
        assert(picked(s, idx@) =~= before.insert(k as int, x));
        i += 1;
    }
    assert(s.take(datums.len() as int) =~= s);
    let ghost sorted = items_sorted(s, ob);
    proof {
        lemma_items_sorted_keeps(s, ob, |d: DatumV| d is List && d->List_0.len() >= 1);
    }
    let mut out: Vec<Datum> = Vec::new();
    let mut j: usize = 0;
    while j < idx.len()
        invariant
            j <= idx.len(),
            s == datums_view(datums@),
            ordered_input(s, ob),
            forall|k: int| 0 <= k < idx.len() ==> (#[trigger] idx@[k]) < datums.len(),
            picked(s, idx@) == sorted,
            out.len() == j,
            forall|k: int| 0 <= k < j ==> (#[trigger] out@[k])@ == payload(sorted[k]),
        decreases idx.len() - j,
    {
        let d = &datums[idx[j]];
        assert(sorted[j as int] == s[idx@[j as int] as int]);
        assert(s[idx@[j as int] as int] is List);
        let list = d.unwrap_list();
        assert(datums_view(list@).len() >= 1);
        out.push(list[0].clone());
        j += 1;
    }
    assert(datums_view(out@) =~= ordered_payloads(s, ob));
    out
}

/// The datums that are not null, in order.
pub open spec fn non_nulls(s: Seq<DatumV>) -> Seq<DatumV>
    decreases s.len(),
{
    if s.len() == 0 {
        Seq::empty()
    } else if s.last() is Null {
        non_nulls(s.drop_last())
    } else {
        non_nulls(s.drop_last()).push(s.last())
    }
}

/// Whether a datum can be aggregated into a text: it is null, or a list
/// of a value and a separator, each a text or null.
pub open spec fn string_agg_item(d: DatumV) -> bool {
    d is Null || {
        &&& d is List
        &&& d->List_0.len() >= 2
        &&& (d->List_0[0] is Null || d->List_0[0] is String)
        &&& (d->List_0[0] is String ==> d->List_0[1] is Null || d->List_0[1] is String)
    }
}

/// The text so far with one more datum aggregated into it: a value that is
/// not null is appended, behind its separator unless it is the first.
pub open spec fn string_agg_step(state: Option<Seq<char>>, d: DatumV) -> Option<Seq<char>> {
    if d is Null || d->List_0[0] is Null {
        state
    } else {
        let value = d->List_0[0]->String_0;
        let sep = if d->List_0[1] is String {
            d->List_0[1]->String_0
        } else {
            Seq::empty()
        };
        match state {
            None => Some(value),
            Some(t) => Some(t + sep + value),
        }
    }
}

/// The text aggregated from datums, in their order.
pub open spec fn string_agg_fold(p: Seq<DatumV>) -> Option<Seq<char>>
    decreases p.len(),
{
    if p.len() == 0 {
        None
    } else {
        string_agg_step(string_agg_fold(p.drop_last()), p.last())
    }
}

/// The result of `string_agg`: the values that are not null, in the order
/// of the clause, each but the first behind its separator; null where
/// there is no such value.
pub open spec fn string_agg_of(s: Seq<DatumV>, order_by: Seq<ColumnOrder>) -> DatumV {
    match string_agg_fold(ordered_payloads(s, order_by)) {
        Some(t) => DatumV::String(t),
        None => DatumV::Null,
    }
}

/// Whether what each input carries satisfies `p`.
pub open spec fn each_payload(s: Seq<DatumV>, p: spec_fn(DatumV) -> bool) -> bool {
    forall|i: int| 0 <= i < s.len() ==> p(payload(#[trigger] s[i]))
}

/// What holds of what each input carries holds of each ordered payload.
pub proof fn lemma_ordered_payloads(s: Seq<DatumV>, order_by: Seq<ColumnOrder>, p: spec_fn(DatumV) -> bool)
    requires
        each_payload(s, p),
    ensures
        ordered_payloads(s, order_by).len() == s.len(),
        forall|k: int| 0 <= k < s.len() ==> p(#[trigger] ordered_payloads(s, order_by)[k]),
{
    lemma_items_sorted_keeps(s, order_by, |d: DatumV| p(payload(d)));
}

pub fn string_agg(datums: &Vec<Datum>, order_by: &Vec<ColumnOrder>) -> (r: Datum)
    requires
        ordered_input(datums_view(datums@), order_by@),
        each_payload(datums_view(datums@), |d: DatumV| string_agg_item(d)),
    ensures
        r@ == string_agg_of(datums_view(datums@), order_by@),
{
    let ordered = order_aggregate_datums(datums, order_by);
    let ghost p = datums_view(ordered@);
    proof {
        lemma_ordered_payloads(datums_view(datums@), order_by@, |d: DatumV| string_agg_item(d));
    }
    let mut text: Option<String> = None;
    let mut i: usize = 0;
    while i < ordered.len()
        invariant
            i <= ordered.len(),
            p == datums_view(ordered@),
            forall|k: int| 0 <= k < p.len() ==> string_agg_item(#[trigger] p[k]),
            match text {
                Some(t) => string_agg_fold(p.take(i as int)) == Some(t@),
                None => string_agg_fold(p.take(i as int)) is None,
            },
        decreases ordered.len() - i,
    {
        proof {
            assert(p.take(i + 1).drop_last() =~= p.take(i as int));
            assert(p.take(i + 1).last() == p[i as int]);
            assert(string_agg_item(p[i as int]));
        }
        let d = &ordered[i];
        if !d.is_null() {
            let list = d.unwrap_list();
            assert(datums_view(list@).len() >= 2);
            if !list[0].is_null() {
                let value = list[0].unwrap_str();
                text = match text {
                    None => Some(value.to_owned()),
                    Some(t) => {
                        let mut t = t;
                        if !list[1].is_null() {
                            t.append(list[1].unwrap_str());
                        } else {
                            assert(t@ + Seq::<char>::empty() =~= t@);
                        }
                        t.append(value);
                        Some(t)
                    },
                };
            }
        }
        i += 1;
    }
    assert(p.take(ordered.len() as int) =~= p);
    match text {
        Some(t) => Datum::String(t),
        None => Datum::Null,
    }
}

/// Copies the datums that are not null.
pub fn collect_non_nulls(datums: &Vec<Datum>) -> (r: Vec<Datum>)
    ensures
        datums_view(r@) == non_nulls(datums_view(datums@)),
{
    let ghost s = datums_view(datums@);
    let mut out: Vec<Datum> = Vec::new();
    let mut i: usize = 0;
    while i < datums.len()
        invariant
            i <= datums.len(),
            s == datums_view(datums@),
            datums_view(out@) == non_nulls(s.take(i as int)),
        decreases datums.len() - i,
    {
        proof {
            assert(s.take(i + 1).drop_last() =~= s.take(i as int));
            assert(s.take(i + 1).last() == s[i as int]);
        }
        if !datums[i].is_null() {
            let ghost before = datums_view(out@);
            out.push(datums[i].clone());
            assert(datums_view(out@) =~= before.push(s[i as int]));
        }
        i += 1;
    }
    assert(s.take(datums.len() as int) =~= s);
    out
}

/// The result of `jsonb_agg`: the list of what the inputs carry, in the
/// order of the clause, without the nulls.
pub open spec fn jsonb_agg_of(s: Seq<DatumV>, order_by: Seq<ColumnOrder>) -> DatumV {
    DatumV::List(non_nulls(ordered_payloads(s, order_by)))
}

pub fn jsonb_agg(datums: &Vec<Datum>, order_by: &Vec<ColumnOrder>) -> (r: Datum)
    requires
        ordered_input(datums_view(datums@), order_by@),
    ensures
        r@ == jsonb_agg_of(datums_view(datums@), order_by@),
{
    let ordered = order_aggregate_datums(datums, order_by);
    Datum::list(collect_non_nulls(&ordered))
}

/// Whether a datum can be aggregated into an object: it is null, or a
/// list of a key and a value, the key a text or null.
pub open spec fn object_agg_item(d: DatumV) -> bool {
    d is Null || {
        &&& d is List
        &&& d->List_0.len() >= 2
        &&& (d->List_0[0] is Null || d->List_0[0] is String)
    }
}

/// The keys with their values among the datums, in order. A datum that is
/// null, or whose key is null, gives none.
pub open spec fn object_pairs(p: Seq<DatumV>) -> Seq<PairV>
    decreases p.len(),
{
    if p.len() == 0 {
        Seq::empty()
    } else {
        let d = p.last();
        if d is Null || d->List_0[0] is Null {
            object_pairs(p.drop_last())
        } else {
            object_pairs(p.drop_last()).push((d->List_0[0]->String_0, d->List_0[1]))
        }
    }
}

/// The result of `jsonb_object_agg`: the object of the keys and values that
/// the inputs carry, the keys ascending; of several values for one key, the
/// last in the order of the clause.
pub open spec fn jsonb_object_agg_of(s: Seq<DatumV>, order_by: Seq<ColumnOrder>) -> DatumV {
    DatumV::Dict(dedup_keep_last(pairs_sorted(object_pairs(ordered_payloads(s, order_by)))))
}

pub fn jsonb_object_agg(datums: &Vec<Datum>, order_by: &Vec<ColumnOrder>) -> (r: Datum)
    requires
        ordered_input(datums_view(datums@), order_by@),
        each_payload(datums_view(datums@), |d: DatumV| object_agg_item(d)),
    ensures
        r@ == jsonb_object_agg_of(datums_view(datums@), order_by@),
{
    let ordered = order_aggregate_datums(datums, order_by);
    let ghost p = datums_view(ordered@);
    proof {
        lemma_ordered_payloads(datums_view(datums@), order_by@, |d: DatumV| object_agg_item(d));
    }
    let mut pairs: Vec<(String, Datum)> = Vec::new();
    let mut i: usize = 0;
    while i < ordered.len()
        invariant
            i <= ordered.len(),
            p == datums_view(ordered@),
            forall|k: int| 0 <= k < p.len() ==> object_agg_item(#[trigger] p[k]),
            pairs_view(pairs@) == object_pairs(p.take(i as int)),
        decreases ordered.len() - i,
    {
        proof {
            assert(p.take(i + 1).drop_last() =~= p.take(i as int));
            assert(p.take(i + 1).last() == p[i as int]);
            assert(object_agg_item(p[i as int]));
        }
        let d = &ordered[i];
        if !d.is_null() {
            let list = d.unwrap_list();
            assert(datums_view(list@).len() >= 2);
            if !list[0].is_null() {
                let ghost before = pairs_view(pairs@);
                let key = list[0].unwrap_str().to_owned();
                let value = list[1].clone();
                pairs.push((key, value));
                assert(pairs_view(pairs@) =~= before.push((key@, value@)));
            }
        }
        i += 1;
    }
    assert(p.take(ordered.len() as int) =~= p);
    let sorted = sort_pairs(&pairs);
    Datum::dict(keep_last(sorted))
}

/// The elements of the arrays or lists among the datums, one after the
/// other.
pub open spec fn concat_elements(p: Seq<DatumV>) -> Seq<DatumV>
    decreases p.len(),
{
    if p.len() == 0 {
        Seq::empty()
    } else {
        concat_elements(p.drop_last()) + match p.last() {
            DatumV::Array { elements, .. } => elements,
            DatumV::List(elements) => elements,
            _ => Seq::empty(),
        }
    }
}

/// Copies the elements of the arrays or lists among the datums into one
/// vector.
fn collect_elements(datums: &Vec<Datum>) -> (r: Vec<Datum>)
    ensures
        datums_view(r@) == concat_elements(datums_view(datums@)),
{
    let ghost s = datums_view(datums@);
    let mut out: Vec<Datum> = Vec::new();
    let mut i: usize = 0;
    while i < datums.len()
        invariant
            i <= datums.len(),
            s == datums_view(datums@),
            datums_view(out@) == concat_elements(s.take(i as int)),
        decreases datums.len() - i,
    {
        proof {
            assert(s.take(i + 1).drop_last() =~= s.take(i as int));
            assert(s.take(i + 1).last() == s[i as int]);
        }
        let ghost before = datums_view(out@);
        match &datums[i] {
            Datum::Array { .. } => {
                let elements = datums[i].unwrap_array_elements();
                let mut k: usize = 0;
                while k < elements.len()
                    invariant
                        k <= elements.len(),
                        datums_view(out@) == before + datums_view(elements@).take(k as int),
                    decreases elements.len() - k,
                {
                    let ghost mid = datums_view(out@);
                    out.push(elements[k].clone());
                    assert(datums_view(out@) =~= mid.push(elements@[k as int]@));
                    assert(datums_view(elements@).take(k + 1) =~= datums_view(elements@).take(k as int).push(
                        elements@[k as int]@,
                    ));
                    k += 1;
                }
                assert(datums_view(elements@).take(elements.len() as int) =~= datums_view(elements@));
            },
            Datum::List(_) => {
                let elements = datums[i].unwrap_list();
                let mut k: usize = 0;
                while k < elements.len()
                    invariant
                        k <= elements.len(),
                        datums_view(out@) == before + datums_view(elements@).take(k as int),
                    decreases elements.len() - k,
                {
                    let ghost mid = datums_view(out@);
                    out.push(elements[k].clone());
                    assert(datums_view(out@) =~= mid.push(elements@[k as int]@));
                    assert(datums_view(elements@).take(k + 1) =~= datums_view(elements@).take(k as int).push(
                        elements@[k as int]@,
                    ));
                    k += 1;
                }
                assert(datums_view(elements@).take(elements.len() as int) =~= datums_view(elements@));
            },
            _ => {
                assert(before + Seq::<DatumV>::empty() =~= before);
            },
        }
        i += 1;
    }
    assert(s.take(datums.len() as int) =~= s);
    out
}

/// The result of `array_agg` over arrays: one array of one dimension, from
/// 1, of the elements of the arrays in the order of the clause.
pub open spec fn array_concat_of(s: Seq<DatumV>, order_by: Seq<ColumnOrder>) -> DatumV {
    let elements = concat_elements(ordered_payloads(s, order_by));
    DatumV::Array { dims: seq![ArrayDimension { lower_bound: 1, length: elements.len() as usize }], elements }
}

pub fn array_concat(datums: &Vec<Datum>, order_by: &Vec<ColumnOrder>) -> (r: Datum)
    requires
        ordered_input(datums_view(datums@), order_by@),
        each_payload(datums_view(datums@), |d: DatumV| d is Array),
    ensures
        r@ == array_concat_of(datums_view(datums@), order_by@),
{
    let ordered = order_aggregate_datums(datums, order_by);
    let elements = collect_elements(&ordered);
    let mut dims: Vec<ArrayDimension> = Vec::new();
    dims.push(ArrayDimension { lower_bound: 1, length: elements.len() });
    assert(dims@ =~= seq![ArrayDimension { lower_bound: 1, length: elements.len() }]);
    assert(datums_view(elements@).len() == elements@.len());
    Datum::array(dims, elements)
}

/// The result of `list_agg` over lists: the list of the elements of the
/// lists in the order of the clause.
pub open spec fn list_concat_of(s: Seq<DatumV>, order_by: Seq<ColumnOrder>) -> DatumV {
    DatumV::List(concat_elements(ordered_payloads(s, order_by)))
}

pub fn list_concat(datums: &Vec<Datum>, order_by: &Vec<ColumnOrder>) -> (r: Datum)
    requires
        ordered_input(datums_view(datums@), order_by@),
        each_payload(datums_view(datums@), |d: DatumV| d is List),
    ensures
        r@ == list_concat_of(datums_view(datums@), order_by@),
{
    let ordered = order_aggregate_datums(datums, order_by);
    Datum::list(collect_elements(&ordered))
}

/// An aggregate function.
#[derive(Clone, Debug, PartialEq, Eq, Hash)]
pub enum AggregateFunc {
    MaxNumeric,
    MaxInt16,
    MaxInt32,
    MaxInt64,
    MaxFloat32,
    MaxFloat64,
    MaxBool,
    MaxString,
    MaxDate,
    MaxTimestamp,
    MaxTimestampTz,
    MinNumeric,
    MinInt16,
    MinInt32,
    MinInt64,
    MinFloat32,
    MinFloat64,
    MinBool,
    MinString,
    MinDate,
    MinTimestamp,
    MinTimestampTz,
    SumInt16,
    SumInt32,
    SumInt64,
    SumFloat32,
    SumFloat64,
    SumNumeric,
    Count,
    Any,
    All,
    /// Accumulates lists whose first element is a JSON datum into a JSON
    /// list, without the nulls. The other elements are the columns of
    /// `order_by`.
    JsonbAgg { order_by: Vec<ColumnOrder> },
    /// Zips lists whose first element is a list of a key and a JSON datum
    /// into a JSON object, without the nulls.
    JsonbObjectAgg { order_by: Vec<ColumnOrder> },
    /// Accumulates lists whose first element is an array into one array.
    ArrayConcat { order_by: Vec<ColumnOrder> },
    /// Accumulates lists whose first element is a list into one list.
    ListConcat { order_by: Vec<ColumnOrder> },
    StringAgg { order_by: Vec<ColumnOrder> },
    /// Accumulates any number of dummy datums into the dummy datum. It
    /// keeps the shape of a reduction whose aggregate was removed.
    Dummy,
}

impl AggregateFunc {
    /// Whether the function adds floats, which the host does.
    pub open spec fn sums_floats(self) -> bool {
        self is SumFloat32 || self is SumFloat64
    }

    /// The inputs that the function is made for.
    pub open spec fn accepts(self, s: Seq<DatumV>) -> bool {
        match self {
            AggregateFunc::MaxNumeric | AggregateFunc::MinNumeric => each_null_or_rank(s, 17),
            AggregateFunc::MaxInt16 | AggregateFunc::MinInt16 => each_null_or_rank(s, 2),
            AggregateFunc::MaxInt32 | AggregateFunc::MinInt32 => each_null_or_rank(s, 3),
            AggregateFunc::MaxInt64 | AggregateFunc::MinInt64 | AggregateFunc::SumInt64 => each_null_or_rank(s, 4),
            AggregateFunc::MaxFloat32 | AggregateFunc::MinFloat32 | AggregateFunc::SumFloat32 => each_null_or_rank(
                s,
                5,
            ),
            AggregateFunc::MaxFloat64 | AggregateFunc::MinFloat64 | AggregateFunc::SumFloat64 => each_null_or_rank(
                s,
                6,
            ),
            AggregateFunc::MaxBool | AggregateFunc::MinBool => each_null_or_bool(s),
            AggregateFunc::MaxString | AggregateFunc::MinString => each_null_or_rank(s, 13),
            AggregateFunc::MaxDate | AggregateFunc::MinDate => each_null_or_rank(s, 7),
            AggregateFunc::MaxTimestamp | AggregateFunc::MinTimestamp => each_null_or_rank(s, 9),
            AggregateFunc::MaxTimestampTz | AggregateFunc::MinTimestampTz => each_null_or_rank(s, 10),
            AggregateFunc::SumInt16 => each_null_or_rank(s, 2) && sum_fits_int64(s),
            AggregateFunc::SumInt32 => each_null_or_rank(s, 3) && sum_fits_int64(s),
            AggregateFunc::SumNumeric => each_null_or_numeric(s),
            AggregateFunc::Count => s.len() <= i64::MAX,
            AggregateFunc::Any | AggregateFunc::All | AggregateFunc::Dummy => true,
            AggregateFunc::JsonbAgg { order_by } => ordered_input(s, order_by@),
            AggregateFunc::JsonbObjectAgg { order_by } => ordered_input(s, order_by@) && each_payload(
                s,
                |d: DatumV| object_agg_item(d),
            ),
            AggregateFunc::ArrayConcat { order_by } => ordered_input(s, order_by@) && each_payload(
                s,
                |d: DatumV| d is Array,
            ),
            AggregateFunc::ListConcat { order_by } => ordered_input(s, order_by@) && each_payload(
                s,
                |d: DatumV| d is List,
            ),
            AggregateFunc::StringAgg { order_by } => ordered_input(s, order_by@) && each_payload(
                s,
                |d: DatumV| string_agg_item(d),
            ),
        }
    }

    /// What the function makes of the datums of a group. Of a sum of floats
    /// this says nothing.
    pub open spec fn eval_spec(self, s: Seq<DatumV>) -> DatumV {
        match self {
            AggregateFunc::MaxNumeric
            | AggregateFunc::MaxInt16
            | AggregateFunc::MaxInt32
            | AggregateFunc::MaxInt64
            | AggregateFunc::MaxFloat32
            | AggregateFunc::MaxFloat64
            | AggregateFunc::MaxBool
            | AggregateFunc::MaxString
            | AggregateFunc::MaxDate
            | AggregateFunc::MaxTimestamp
            | AggregateFunc::MaxTimestampTz => max_of(s),
            AggregateFunc::MinNumeric
            | AggregateFunc::MinInt16
            | AggregateFunc::MinInt32
            | AggregateFunc::MinInt64
            | AggregateFunc::MinFloat32
            | AggregateFunc::MinFloat64
            | AggregateFunc::MinBool
            | AggregateFunc::MinString
            | AggregateFunc::MinDate
            | AggregateFunc::MinTimestamp
            | AggregateFunc::MinTimestampTz => min_of(s),
            AggregateFunc::SumInt16 | AggregateFunc::SumInt32 => sum_int_of(s),
            AggregateFunc::SumInt64 => sum_int64_of(s),
            AggregateFunc::SumFloat32 | AggregateFunc::SumFloat64 => DatumV::Null,
            AggregateFunc::SumNumeric => sum_numeric_of(s),
            AggregateFunc::Count => DatumV::Int64(count_non_null(s) as i64),
            AggregateFunc::Any => any_of(s),
            AggregateFunc::All => all_of(s),
            AggregateFunc::JsonbAgg { order_by } => jsonb_agg_of(s, order_by@),
            AggregateFunc::JsonbObjectAgg { order_by } => jsonb_object_agg_of(s, order_by@),
            AggregateFunc::ArrayConcat { order_by } => array_concat_of(s, order_by@),
            AggregateFunc::ListConcat { order_by } => list_concat_of(s, order_by@),
            AggregateFunc::StringAgg { order_by } => string_agg_of(s, order_by@),
            AggregateFunc::Dummy => DatumV::Dummy,
        }
    }

    /// Evaluates the function over the datums of one group, nulls
    /// included.
    pub fn eval<F: FloatUnit>(&self, datums: &Vec<Datum>, fu: &F) -> (r: Datum)
        requires
            self.accepts(datums_view(datums@)),
        ensures
            !self.sums_floats() ==> r@ == self.eval_spec(datums_view(datums@)),
            self.sums_floats() ==> (r@ is Null <==> count_non_null(datums_view(datums@)) == 0),
            self is SumFloat32 ==> r@ is Null || r@ is Float32,
            self is SumFloat64 ==> r@ is Null || r@ is Float64,
    {
        match self {
            AggregateFunc::MaxNumeric => max_numeric(datums),
            AggregateFunc::MaxInt16 => max_int16(datums),
            AggregateFunc::MaxInt32 => max_int32(datums),
            AggregateFunc::MaxInt64 => max_int64(datums),
            AggregateFunc::MaxFloat32 => max_float32(datums),
            AggregateFunc::MaxFloat64 => max_float64(datums),
            AggregateFunc::MaxBool => max_bool(datums),
            AggregateFunc::MaxString => max_string(datums),
            AggregateFunc::MaxDate => max_date(datums),
            AggregateFunc::MaxTimestamp => max_timestamp(datums),
            AggregateFunc::MaxTimestampTz => max_timestamptz(datums),
            AggregateFunc::MinNumeric => min_numeric(datums),
            AggregateFunc::MinInt16 => min_int16(datums),
            AggregateFunc::MinInt32 => min_int32(datums),
            AggregateFunc::MinInt64 => min_int64(datums),
            AggregateFunc::MinFloat32 => min_float32(datums),
            AggregateFunc::MinFloat64 => min_float64(datums),
            AggregateFunc::MinBool => min_bool(datums),
            AggregateFunc::MinString => min_string(datums),
            AggregateFunc::MinDate => min_date(datums),
            AggregateFunc::MinTimestamp => min_timestamp(datums),
            AggregateFunc::MinTimestampTz => min_timestamptz(datums),
            AggregateFunc::SumInt16 => sum_int16(datums),
            AggregateFunc::SumInt32 => sum_int32(datums),
            AggregateFunc::SumInt64 => sum_int64(datums),
            AggregateFunc::SumFloat32 => sum_float32(datums, fu),
            AggregateFunc::SumFloat64 => sum_float64(datums, fu),
            AggregateFunc::SumNumeric => sum_numeric(datums),
            AggregateFunc::Count => count(datums),
            AggregateFunc::Any => any(datums),
            AggregateFunc::All => all(datums),
            AggregateFunc::JsonbAgg { order_by } => jsonb_agg(datums, order_by),
            AggregateFunc::JsonbObjectAgg { order_by } => jsonb_object_agg(datums, order_by),
            AggregateFunc::ArrayConcat { order_by } => array_concat(datums, order_by),
            AggregateFunc::ListConcat { order_by } => list_concat(datums, order_by),
            AggregateFunc::StringAgg { order_by } => string_agg(datums, order_by),
            AggregateFunc::Dummy => Datum::Dummy,
        }
    }

    /// What the function gives over an empty input.
    pub open spec fn default_spec(self) -> DatumV {
        match self {
            AggregateFunc::Count => DatumV::Int64(0),
            AggregateFunc::Any => DatumV::False,
            AggregateFunc::All => DatumV::True,
            AggregateFunc::Dummy => DatumV::Dummy,
            _ => DatumV::Null,
        }
    }

    /// The output of the function over an empty input.
    pub fn default(&self) -> (r: Datum)
        ensures
            r@ == self.default_spec(),
    {
        match self {
            AggregateFunc::Count => Datum::Int64(0),
            AggregateFunc::Any => Datum::False,
            AggregateFunc::All => Datum::True,
            AggregateFunc::Dummy => Datum::Dummy,
            _ => Datum::Null,
        }
    }

    /// A datum whose inclusion among the inputs does not change the result.
    pub fn identity_datum(&self) -> (r: Datum)
        ensures
            r@ == match self {
                AggregateFunc::Any => DatumV::False,
                AggregateFunc::All => DatumV::True,
                AggregateFunc::Dummy => DatumV::Dummy,
                AggregateFunc::ArrayConcat { .. } => DatumV::Array { dims: Seq::empty(), elements: Seq::empty() },
                AggregateFunc::ListConcat { .. } => DatumV::List(Seq::empty()),
                _ => DatumV::Null,
            },
    {
        match self {
            AggregateFunc::Any => Datum::False,
            AggregateFunc::All => Datum::True,
            AggregateFunc::Dummy => Datum::Dummy,
            AggregateFunc::ArrayConcat { .. } => Datum::empty_array(),
            AggregateFunc::ListConcat { .. } => Datum::empty_list(),
            _ => Datum::Null,
        }
    }

    /// The scalar type of the result for inputs of the given type.
    pub open spec fn output_scalar_type(self, input: ScalarTypeV) -> ScalarTypeV {
        match self {
            AggregateFunc::Count => ScalarTypeV::Int64,
            AggregateFunc::Any => ScalarTypeV::Bool,
            AggregateFunc::All => ScalarTypeV::Bool,
            AggregateFunc::JsonbAgg { .. } => ScalarTypeV::Jsonb,
            AggregateFunc::JsonbObjectAgg { .. } => ScalarTypeV::Jsonb,
            AggregateFunc::SumInt16 => ScalarTypeV::Int64,
            AggregateFunc::SumInt32 => ScalarTypeV::Int64,
            AggregateFunc::SumInt64 => ScalarTypeV::Numeric { scale: Some(0u8) },
            AggregateFunc::ArrayConcat { .. } | AggregateFunc::ListConcat { .. } => input->Record_fields[0].1.scalar_type,
            AggregateFunc::StringAgg { .. } => ScalarTypeV::String,
            _ => input,
        }
    }

    /// The column type of the result of the aggregation. A count is never
    /// null; any other result is nullable where the input is. The input of
    /// an array or list aggregation is a record whose first field is what is
    /// aggregated.
    pub fn output_type(&self, input_type: ColumnType) -> (r: ColumnType)
        requires
            self is ArrayConcat || self is ListConcat ==> input_type.scalar_type is Record
                && input_type.scalar_type->Record_fields@.len() > 0,
        ensures
            r.scalar_type@ == self.output_scalar_type(input_type.scalar_type@),
            r.nullable == if self is Count {
                false
            } else {
                input_type.nullable
            },
    {
        let in_nullable = input_type.nullable;
        let scalar_type = match self {
            AggregateFunc::Count => ScalarType::Int64,
            AggregateFunc::Any => ScalarType::Bool,
            AggregateFunc::All => ScalarType::Bool,
            AggregateFunc::JsonbAgg { .. } => ScalarType::Jsonb,
            AggregateFunc::JsonbObjectAgg { .. } => ScalarType::Jsonb,
            AggregateFunc::SumInt16 => ScalarType::Int64,
            AggregateFunc::SumInt32 => ScalarType::Int64,
            AggregateFunc::SumInt64 => ScalarType::Numeric { scale: Some(0) },
            AggregateFunc::ArrayConcat { .. } | AggregateFunc::ListConcat { .. } => {
                proof {
                    crate::scalar_type::lemma_record_view(input_type.scalar_type);
                }
                match &input_type.scalar_type {
                    ScalarType::Record { fields, .. } => fields[0].1.scalar_type.clone(),
                    _ => unreached(),
                }
            },
            AggregateFunc::StringAgg { .. } => ScalarType::String,
            _ => input_type.scalar_type,
        };
        let nullable = match self {
            AggregateFunc::Count => false,
            _ => in_nullable,
        };
        scalar_type.nullable(nullable)
    }

    /// Whether the result is null where every input is null, so that a
    /// not-null constraint on the result is one on the input.
    pub fn propagates_nonnull_constraint(&self) -> (r: bool)
        ensures
            r == match self {
                AggregateFunc::MaxNumeric
                | AggregateFunc::MaxInt16
                | AggregateFunc::MaxInt32
                | AggregateFunc::MaxInt64
                | AggregateFunc::MaxFloat32
                | AggregateFunc::MaxFloat64
                | AggregateFunc::MaxBool
                | AggregateFunc::MaxString
                | AggregateFunc::MaxDate
                | AggregateFunc::MaxTimestamp
                | AggregateFunc::MaxTimestampTz
                | AggregateFunc::MinNumeric
                | AggregateFunc::MinInt16
                | AggregateFunc::MinInt32
                | AggregateFunc::MinInt64
                | AggregateFunc::MinFloat32
                | AggregateFunc::MinFloat64
                | AggregateFunc::MinBool
                | AggregateFunc::MinString
                | AggregateFunc::MinDate
                | AggregateFunc::MinTimestamp
                | AggregateFunc::MinTimestampTz
                | AggregateFunc::SumInt16
                | AggregateFunc::SumInt32
                | AggregateFunc::SumInt64
                | AggregateFunc::SumFloat32
                | AggregateFunc::SumFloat64
                | AggregateFunc::SumNumeric
                | AggregateFunc::StringAgg { .. } => true,
                _ => false,
            },
    {
        match self {
            AggregateFunc::MaxNumeric
            | AggregateFunc::MaxInt16
            | AggregateFunc::MaxInt32
            | AggregateFunc::MaxInt64
            | AggregateFunc::MaxFloat32
            | AggregateFunc::MaxFloat64
            | AggregateFunc::MaxBool
            | AggregateFunc::MaxString
            | AggregateFunc::MaxDate
            | AggregateFunc::MaxTimestamp
            | AggregateFunc::MaxTimestampTz
            | AggregateFunc::MinNumeric
            | AggregateFunc::MinInt16
            | AggregateFunc::MinInt32
            | AggregateFunc::MinInt64
            | AggregateFunc::MinFloat32
            | AggregateFunc::MinFloat64
            | AggregateFunc::MinBool
            | AggregateFunc::MinString
            | AggregateFunc::MinDate
            | AggregateFunc::MinTimestamp
            | AggregateFunc::MinTimestampTz
            | AggregateFunc::SumInt16
            | AggregateFunc::SumInt32
            | AggregateFunc::SumInt64
            | AggregateFunc::SumFloat32
            | AggregateFunc::SumFloat64
            | AggregateFunc::SumNumeric
            | AggregateFunc::StringAgg { .. } => true,
            AggregateFunc::Count => false,
            _ => false,
        }
    }

    /// The name under which the function is shown.
    pub fn name(&self) -> (r: &'static str)
        ensures
            r@ == self.name_spec(),
    {
        match self {
            AggregateFunc::MaxNumeric
            | AggregateFunc::MaxInt16
            | AggregateFunc::MaxInt32
            | AggregateFunc::MaxInt64
            | AggregateFunc::MaxFloat32
            | AggregateFunc::MaxFloat64
            | AggregateFunc::MaxBool
            | AggregateFunc::MaxString
            | AggregateFunc::MaxDate
            | AggregateFunc::MaxTimestamp
            | AggregateFunc::MaxTimestampTz => "max",
            AggregateFunc::MinNumeric
            | AggregateFunc::MinInt16
            | AggregateFunc::MinInt32
            | AggregateFunc::MinInt64
            | AggregateFunc::MinFloat32
            | AggregateFunc::MinFloat64
            | AggregateFunc::MinBool
            | AggregateFunc::MinString
            | AggregateFunc::MinDate
            | AggregateFunc::MinTimestamp
            | AggregateFunc::MinTimestampTz => "min",
            AggregateFunc::SumInt16
            | AggregateFunc::SumInt32
            | AggregateFunc::SumInt64
            | AggregateFunc::SumFloat32
            | AggregateFunc::SumFloat64
            | AggregateFunc::SumNumeric => "sum",
            AggregateFunc::Count => "count",
            AggregateFunc::Any => "any",
            AggregateFunc::All => "all",
            AggregateFunc::JsonbAgg { .. } => "jsonb_agg",
            AggregateFunc::JsonbObjectAgg { .. } => "jsonb_object_agg",
            AggregateFunc::ArrayConcat { .. } => "array_agg",
            AggregateFunc::ListConcat { .. } => "list_agg",
            AggregateFunc::StringAgg { .. } => "string_agg",
            AggregateFunc::Dummy => "dummy",
        }
    }

    /// The name under which the function is shown.
    pub open spec fn name_spec(self) -> Seq<char> {
        match self {
            AggregateFunc::MaxNumeric
            | AggregateFunc::MaxInt16
            | AggregateFunc::MaxInt32
            | AggregateFunc::MaxInt64
            | AggregateFunc::MaxFloat32
            | AggregateFunc::MaxFloat64
            | AggregateFunc::MaxBool
            | AggregateFunc::MaxString
            | AggregateFunc::MaxDate
            | AggregateFunc::MaxTimestamp
            | AggregateFunc::MaxTimestampTz => "max"@,
            AggregateFunc::MinNumeric
            | AggregateFunc::MinInt16
            | AggregateFunc::MinInt32
            | AggregateFunc::MinInt64
            | AggregateFunc::MinFloat32
            | AggregateFunc::MinFloat64
            | AggregateFunc::MinBool
            | AggregateFunc::MinString
            | AggregateFunc::MinDate
            | AggregateFunc::MinTimestamp
            | AggregateFunc::MinTimestampTz => "min"@,
            AggregateFunc::SumInt16
            | AggregateFunc::SumInt32
            | AggregateFunc::SumInt64
            | AggregateFunc::SumFloat32
            | AggregateFunc::SumFloat64
            | AggregateFunc::SumNumeric => "sum"@,
            AggregateFunc::Count => "count"@,
            AggregateFunc::Any => "any"@,
            AggregateFunc::All => "all"@,
            AggregateFunc::JsonbAgg { .. } => "jsonb_agg"@,
            AggregateFunc::JsonbObjectAgg { .. } => "jsonb_object_agg"@,
            AggregateFunc::ArrayConcat { .. } => "array_agg"@,
            AggregateFunc::ListConcat { .. } => "list_agg"@,
            AggregateFunc::StringAgg { .. } => "string_agg"@,
            AggregateFunc::Dummy => "dummy"@,
        }
    }
}

/// Over an empty input every function gives its default: the count zero,
/// `any` false, `all` true, and the others null, or the dummy datum, or an
/// empty list or array.
pub proof fn lemma_default_on_empty(f: AggregateFunc)
    requires
        !f.sums_floats(),
        !(f is JsonbAgg || f is JsonbObjectAgg || f is ArrayConcat || f is ListConcat),
    ensures
        f.eval_spec(Seq::<DatumV>::empty()) == f.default_spec(),
{
    let e = Seq::<DatumV>::empty();
    assert(items_sorted(e, seq![]).len() == 0);
    if f is StringAgg {
        assert(ordered_payloads(e, f->StringAgg_order_by@) =~= Seq::<DatumV>::empty());
    }
}

} // verus!
