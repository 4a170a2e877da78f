//! Functions on lists, arrays and records.

use vstd::prelude::*;
use crate::datum::{clone_datums, datums_view, res_view, ArrayDimension, Datum, DatumV};
use crate::error::{EvalError, EvalErrorV};
use crate::func_jsonb::{contains_datum, extend_datums, push_datum};
use crate::order::datum_eq;

verus! {

/// The most dimensions that an array has.
pub const MAX_ARRAY_DIMENSIONS: usize = 6;

/// The number of elements that dimensions hold: the product of their
/// lengths, and none for no dimensions.
pub open spec fn cardinality(dims: Seq<ArrayDimension>) -> nat
    decreases dims.len(),
{
    if dims.len() == 0 {
        0
    } else if dims.len() == 1 {
        dims[0].length as nat
    } else {
        cardinality(dims.drop_last()) * (dims.last().length as nat)
    }
}

/// An array is well formed when it has at most six dimensions and as many
/// elements as its dimensions hold.
pub open spec fn array_wf(dims: Seq<ArrayDimension>, elements: Seq<DatumV>) -> bool {
    dims.len() <= MAX_ARRAY_DIMENSIONS && elements.len() == cardinality(dims)
}

/// The array of the dimensions and elements, or the error that tells why
/// there is none.
pub open spec fn try_array_spec(dims: Seq<ArrayDimension>, elements: Seq<DatumV>) -> Result<DatumV, EvalErrorV> {
    if dims.len() > MAX_ARRAY_DIMENSIONS {
        Err(EvalErrorV::TooManyArrayDimensions(dims.len() as usize))
    } else if elements.len() != cardinality(dims) {
        Err(
            EvalErrorV::WrongArrayCardinality {
                actual: elements.len() as usize,
                expected: if cardinality(dims) <= usize::MAX {
                    cardinality(dims) as usize
                } else {
                    usize::MAX
                },
            },
        )
    } else {
        Ok(DatumV::Array { dims, elements })
    }
}

/// Makes an array of dimensions and elements. Fails where there are more
/// than six dimensions, or where the number of elements is not that which
/// the dimensions hold.
pub fn try_array(dims: Vec<ArrayDimension>, elements: Vec<Datum>) -> (r: Result<Datum, EvalError>)
    ensures
        res_view(r) == try_array_spec(dims@, datums_view(elements@)),
        r is Ok ==> array_wf(dims@, datums_view(elements@)),
{
    if dims.len() > MAX_ARRAY_DIMENSIONS {
        return Err(EvalError::TooManyArrayDimensions(dims.len()));
    }
    // The product so far, kept at most one beyond what a length can be.
    let limit: u128 = usize::MAX as u128 + 1;
    let mut product: u128 = 0;
    let mut i: usize = 0;
    while i < dims.len()
        invariant
            i <= dims.len(),
            limit == usize::MAX as u128 + 1,
            product <= limit,
            product < limit ==> product == cardinality(dims@.take(i as int)),
            product == limit ==> cardinality(dims@.take(i as int)) >= limit,
        decreases dims.len() - i,
    {
        let len = dims[i].length as u128;
        proof {
            assert(dims@.take(i + 1).drop_last() =~= dims@.take(i as int));
            assert(dims@.take(i + 1).last() == dims@[i as int]);
            assert(dims@.take(i + 1).len() == i + 1);
            if i == 0 {
                assert(dims@.take(1)[0] == dims@[0]);
                assert(cardinality(dims@.take(1)) == len);
            } else {
                assert(cardinality(dims@.take(i + 1)) == cardinality(dims@.take(i as int)) * (len as nat));
                if product < limit {
                    assert(cardinality(dims@.take(i + 1)) == product * len) by (nonlinear_arith)
                        requires
                            cardinality(dims@.take(i + 1)) == cardinality(dims@.take(i as int)) * (len as nat),
                            product == cardinality(dims@.take(i as int)),
                    ;
                } else if len == 0 {
                    assert(cardinality(dims@.take(i + 1)) == 0) by (nonlinear_arith)
                        requires
                            cardinality(dims@.take(i + 1)) == cardinality(dims@.take(i as int)) * (len as nat),
                            len == 0,
                    ;
                }
            }
        }
        if i == 0 {
            product = len;
        } else if product == limit {
            if len == 0 {
                product = 0;
            } else {
                assert(cardinality(dims@.take(i + 1)) >= limit) by (nonlinear_arith)
                    requires
                        cardinality(dims@.take(i + 1)) == cardinality(dims@.take(i as int)) * (len as nat),
                        cardinality(dims@.take(i as int)) >= limit,
                        len >= 1,
                ;
            }
        } else {
            assert(product * len <= usize::MAX as u128 * (usize::MAX as u128)) by (nonlinear_arith)
                requires
                    product <= usize::MAX as u128,
                    len <= usize::MAX as u128,
            ;
            let p = product * len;
            product = if p > limit {
                limit
            } else {
                p
            };
        }
        i += 1;
    }
    assert(dims@.take(dims.len() as int) =~= dims@);
    assert(datums_view(elements@).len() == elements@.len());
    if product != elements.len() as u128 {
        let expected: usize = if product <= usize::MAX as u128 {
            product as usize
        } else {
            usize::MAX
        };
        return Err(EvalError::WrongArrayCardinality { actual: elements.len(), expected });
    }
    Ok(Datum::array(dims, elements))
}

/// The element of a list or array at a place counted from 1; null where
/// there is none.
pub open spec fn nth_from_one(v: Seq<DatumV>, i: int) -> DatumV {
    if 1 <= i <= v.len() {
        v[i - 1]
    } else {
        DatumV::Null
    }
}

/// The element of a list or array at a place counted from 1.
fn get_from_one(v: &Vec<Datum>, i: i64) -> (r: Datum)
    ensures
        r@ == nth_from_one(datums_view(v@), i as int),
{
    if i < 1 || (i as u64) > v.len() as u64 {
        Datum::Null
    } else {
        v[(i - 1) as usize].clone()
    }
}

pub fn list_index(a: &Datum, b: &Datum) -> (r: Datum)
    requires
        a@ is List,
        b@ is Int64,
    ensures
        r@ == nth_from_one(a@->List_0, b@->Int64_0 as int),
{
    get_from_one(a.unwrap_list(), b.unwrap_int64())
}

pub fn array_index(a: &Datum, b: &Datum) -> (r: Datum)
    requires
        a@ is Array,
        b@ is Int64,
    ensures
        r@ == nth_from_one(a@->elements, b@->Int64_0 as int),
{
    get_from_one(a.unwrap_array_elements(), b.unwrap_int64())
}

pub fn list_length(a: &Datum) -> (r: Datum)
    requires
        a@ is List,
        a@->List_0.len() <= i64::MAX,
    ensures
        r@ == DatumV::Int64(a@->List_0.len() as i64),
{
    let list = a.unwrap_list();
    assert(datums_view(list@).len() == list@.len());
    Datum::Int64(list.len() as i64)
}

/// The field of a record at a place counted from 0.
pub fn record_get(a: &Datum, i: usize) -> (r: Datum)
    requires
        a@ is List,
        i < a@->List_0.len(),
    ensures
        r@ == a@->List_0[i as int],
{
    let list = a.unwrap_list();
    assert(datums_view(list@).len() == list@.len());
    list[i].clone()
}

/// The length of a dimension of an array, counted from 1, as a datum;
/// null where the array has no such dimension.
pub open spec fn dimension_length(dims: Seq<ArrayDimension>, i: int) -> DatumV {
    if 1 <= i <= dims.len() {
        DatumV::Int64(dims[i - 1].length as i64)
    } else {
        DatumV::Null
    }
}

/// Whether the lengths of the dimensions fit 64-bit integers.
pub open spec fn lengths_fit(dims: Seq<ArrayDimension>) -> bool {
    forall|i: int| 0 <= i < dims.len() ==> (#[trigger] dims[i]).length <= i64::MAX
}

pub fn array_length(a: &Datum, b: &Datum) -> (r: Datum)
    requires
        a@ is Array,
        b@ is Int64,
        lengths_fit(a@->dims),
    ensures
        r@ == dimension_length(a@->dims, b@->Int64_0 as int),
{
    let dims = a.unwrap_array_dims();
    let i = b.unwrap_int64();
    if i < 1 || (i as u64) > dims.len() as u64 {
        Datum::Null
    } else {
        Datum::Int64(dims[(i - 1) as usize].length as i64)
    }
}

pub fn array_upper(a: &Datum, b: &Datum) -> (r: Datum)
    requires
        a@ is Array,
        b@ is Int64,
        lengths_fit(a@->dims),
    ensures
        r@ == dimension_length(a@->dims, b@->Int64_0 as int),
{
    array_length(a, b)
}

/// The lower bound of a dimension of an array, which is 1 for every
/// dimension that the array has.
pub fn array_lower(a: &Datum, b: &Datum) -> (r: Datum)
    requires
        a@ is Array,
        b@ is Int64,
    ensures
        r@ == if 1 <= b@->Int64_0 <= a@->dims.len() {
            DatumV::Int64(1)
        } else {
            DatumV::Null
        },
{
    let dims = a.unwrap_array_dims();
    let i = b.unwrap_int64();
    if i < 1 || (i as u64) > dims.len() as u64 {
        Datum::Null
    } else {
        Datum::Int64(1)
    }
}

/// Whether a datum equals one of the datums.
pub open spec fn occurs_in(a: DatumV, s: Seq<DatumV>) -> bool {
    exists|i: int| 0 <= i < s.len() && datum_eq(a, #[trigger] s[i])
}

/// Whether the first datum equals an element of the array that is the
/// second.
pub fn array_contains(a: &Datum, b: &Datum) -> (r: Datum)
    requires
        b@ is Array,
    ensures
        r@ == DatumV::from_bool(occurs_in(a@, b@->elements)),
{
    let elements = b.unwrap_array_elements();
    assert(datums_view(elements@).len() == elements@.len());
    Datum::from_bool(contains_datum(elements, a))
}

pub open spec fn list_list_concat_spec(a: DatumV, b: DatumV) -> DatumV {
    if a is Null {
        b
    } else if b is Null {
        a
    } else {
        DatumV::List(a->List_0 + b->List_0)
    }
}

/// Two lists joined; a null list joins as the empty list, and two nulls
/// give null.
pub fn list_list_concat(a: &Datum, b: &Datum) -> (r: Datum)
    requires
        a@ is Null || a@ is List,
        b@ is Null || b@ is List,
    ensures
        r@ == list_list_concat_spec(a@, b@),
{
    if a.is_null() {
        return b.clone();
    } else if b.is_null() {
        return a.clone();
    }
    let mut out = clone_datums(a.unwrap_list());
    extend_datums(&mut out, b.unwrap_list());
    Datum::list(out)
}

/// A list with one more element at its end; a null list counts as empty.
pub fn list_element_concat(a: &Datum, b: &Datum) -> (r: Datum)
    requires
        a@ is Null || a@ is List,
    ensures
        r@ == DatumV::List(
            (if a@ is Null {
                Seq::<DatumV>::empty()
            } else {
                a@->List_0
            }).push(b@),
        ),
{
    let mut out: Vec<Datum> = Vec::new();
    assert(datums_view(out@) =~= Seq::<DatumV>::empty());
    if !a.is_null() {
        extend_datums(&mut out, a.unwrap_list());
        assert(datums_view(out@) =~= a@->List_0);
    }
    push_datum(&mut out, b.clone());
    Datum::list(out)
}

/// A list with one more element at its start; a null list counts as
/// empty.
pub fn element_list_concat(a: &Datum, b: &Datum) -> (r: Datum)
    requires
        b@ is Null || b@ is List,
    ensures
        r@ == DatumV::List(
            seq![a@] + (if b@ is Null {
                Seq::<DatumV>::empty()
            } else {
                b@->List_0
            }),
        ),
{
    let mut out: Vec<Datum> = Vec::new();
    push_datum(&mut out, a.clone());
    assert(datums_view(out@) =~= seq![a@]);
    if !b.is_null() {
        extend_datums(&mut out, b.unwrap_list());
    } else {
        assert(seq![a@] + Seq::<DatumV>::empty() =~= seq![a@]);
    }
    Datum::list(out)
}

/// The list of the datums.
pub fn list_create(datums: &Vec<Datum>) -> (r: Datum)
    ensures
        r@ == DatumV::List(datums_view(datums@)),
{
    Datum::list(clone_datums(datums))
}

/// The dimensions of an array made of scalars: none for no scalars, else
/// one from 1.
pub open spec fn scalar_dims(n: nat) -> Seq<ArrayDimension> {
    if n == 0 {
        Seq::empty()
    } else {
        seq![ArrayDimension { lower_bound: 1, length: n as usize }]
    }
}

/// The array of the datums: without dimensions where there are none, else
/// of one dimension from 1.
pub fn array_create_scalar(datums: &Vec<Datum>) -> (r: Result<Datum, EvalError>)
    ensures
        res_view(r) == Ok::<DatumV, EvalErrorV>(
            DatumV::Array { dims: scalar_dims(datums@.len()), elements: datums_view(datums@) },
        ),
{
    let mut dims: Vec<ArrayDimension> = Vec::new();
    if datums.len() > 0 {
        dims.push(ArrayDimension { lower_bound: 1, length: datums.len() });
    }
    assert(dims@ =~= scalar_dims(datums@.len()));
    let elements = clone_datums(datums);
    assert(datums_view(elements@).len() == datums@.len());
    try_array(dims, elements)
}

/// Whether each datum is an array.
pub open spec fn each_array(s: Seq<DatumV>) -> bool {
    forall|i: int| 0 <= i < s.len() ==> (#[trigger] s[i]) is Array
}

/// Whether each array has no dimensions.
pub open spec fn each_zero_dims(s: Seq<DatumV>) -> bool {
    forall|i: int| 0 <= i < s.len() ==> (#[trigger] s[i])->dims.len() == 0
}

/// The array of arrays of one shape: one dimension more, from 1 and as
/// long as there are arrays, before the dimensions of the first; the
/// elements of the arrays one after the other. Arrays without dimensions
/// give an array without dimensions.
pub open spec fn array_create_multidim_spec(s: Seq<DatumV>) -> Result<DatumV, EvalErrorV> {
    if each_zero_dims(s) {
        Ok(DatumV::Array { dims: Seq::empty(), elements: Seq::empty() })
    } else {
        try_array_spec(
            seq![ArrayDimension { lower_bound: 1, length: s.len() as usize }] + s[0]->dims,
            crate::aggregate::concat_elements(s),
        )
    }
}

#[verifier::loop_isolation(false)]
pub fn array_create_multidim(datums: &Vec<Datum>) -> (r: Result<Datum, EvalError>)
    requires
        each_array(datums_view(datums@)),
    ensures
        res_view(r) == array_create_multidim_spec(datums_view(datums@)),
{
    let ghost s = datums_view(datums@);
    let mut all_empty = true;
    let mut i: usize = 0;
    while i < datums.len()
        invariant
            i <= datums.len(),
            all_empty == (forall|j: int| 0 <= j < i ==> (#[trigger] s[j])->dims.len() == 0),
        decreases datums.len() - i,
    {
        assert(s[i as int] is Array);
        if datums[i].unwrap_array_dims().len() != 0 {
            all_empty = false;
        }
        i += 1;
    }
    if all_empty {
        return Ok(Datum::empty_array());
    }
    let mut dims: Vec<ArrayDimension> = Vec::new();
    dims.push(ArrayDimension { lower_bound: 1, length: datums.len() });
    assert(s[0] is Array);
    let first = datums[0].unwrap_array_dims();
    let mut k: usize = 0;
    while k < first.len()
        invariant
            k <= first.len(),
            dims@ == seq![ArrayDimension { lower_bound: 1, length: datums.len() }] + first@.take(k as int),
        decreases first.len() - k,
    {
        dims.push(first[k]);
        assert(first@.take(k + 1) =~= first@.take(k as int).push(first@[k as int]));
        k += 1;
    }
    assert(first@.take(first.len() as int) =~= first@);
    let mut elements: Vec<Datum> = Vec::new();
    assert(datums_view(elements@) =~= Seq::<DatumV>::empty());
    let mut j: usize = 0;
    while j < datums.len()
        invariant
            j <= datums.len(),
            datums_view(elements@) == crate::aggregate::concat_elements(s.take(j as int)),
        decreases datums.len() - j,
    {
        proof {
            assert(s.take(j + 1).drop_last() =~= s.take(j as int));
            assert(s.take(j + 1).last() == s[j as int]);
            assert(s[j as int] is Array);
        }
        extend_datums(&mut elements, datums[j].unwrap_array_elements());
        j += 1;
    }
    assert(s.take(datums.len() as int) =~= s);
    try_array(dims, elements)
}

/// The greatest length of the lists at a depth of a list of lists,
/// counted from 1; none where there is no list at that depth. Of the
/// elements of a list, those from the first that is no list on are not
/// looked at.
pub open spec fn max_len_on_dim(d: DatumV, on_dim: int) -> Option<int>
    decreases d, 0nat, 0nat,
{
    match d {
        DatumV::List(v) => if on_dim > 1 {
            max_len_among(v, on_dim - 1, leading_lists(v, 0) as int)
        } else {
            Some(v.len() as int)
        },
        _ => None,
    }
}

/// The number of elements from place `i` on that are lists, up to the
/// first that is none.
pub open spec fn leading_lists(v: Seq<DatumV>, i: int) -> nat
    decreases v.len() - i,
{
    if i < 0 || i >= v.len() || !(v[i] is List) {
        0
    } else {
        1 + leading_lists(v, i + 1)
    }
}

/// The greatest of two optional lengths, none being the least.
pub open spec fn max_opt(a: Option<int>, b: Option<int>) -> Option<int> {
    match (a, b) {
        (None, _) => b,
        (_, None) => a,
        (Some(x), Some(y)) => if x >= y {
            a
        } else {
            b
        },
    }
}

/// The greatest length at a depth among the first `n` elements.
pub open spec fn max_len_among(v: Seq<DatumV>, on_dim: int, n: int) -> Option<int>
    decreases v, 1nat, n,
{
    if n <= 0 || n > v.len() {
        None
    } else {
        max_opt(max_len_on_dim(v[n - 1], on_dim), max_len_among(v, on_dim, n - 1))
    }
}

#[verifier::loop_isolation(false)]
fn max_len(d: &Datum, on_dim: i64) -> (r: Option<usize>)
    ensures
        match r {
            Some(n) => max_len_on_dim(d@, on_dim as int) == Some(n as int),
            None => max_len_on_dim(d@, on_dim as int) is None,
        },
    decreases d,
{
    match d {
        Datum::List(list) => {
            proof {
                crate::datum::lemma_list_view(*d);
            }
            let ghost v = datums_view(list@);
            if on_dim > 1 {
                let mut best: Option<usize> = None;
                let mut i: usize = 0;
                let mut stop = false;
                while i < list.len() && !stop
                    invariant
                        i <= list.len(),
                        forall|j: int| 0 <= j < i ==> (#[trigger] v[j]) is List,
                        stop ==> i < list.len() && !(v[i as int] is List),
                        match best {
                            Some(n) => max_len_among(v, on_dim - 1, i as int) == Some(n as int),
                            None => max_len_among(v, on_dim - 1, i as int) is None,
                        },
                    decreases list.len() - i, if stop { 0nat } else { 1nat },
                {
                    match &list[i] {
                        Datum::List(_) => {
                            let m = max_len(&list[i], on_dim - 1);
                            best = match (m, best) {
                                (None, b) => b,
                                (a, None) => a,
                                (Some(x), Some(y)) => if x >= y {
                                    Some(x)
                                } else {
                                    Some(y)
                                },
                            };
                            i += 1;
                        },
                        _ => {
                            stop = true;
                        },
                    }
                }
                proof {
                    lemma_leading_lists(v, 0, i as int);
                }
                best
            } else {
                assert(v.len() == list@.len());
                Some(list.len())
            }
        },
        _ => None,
    }
}

proof fn lemma_leading_lists(v: Seq<DatumV>, from: int, to: int)
    requires
        0 <= from <= to <= v.len(),
        forall|j: int| from <= j < to ==> (#[trigger] v[j]) is List,
        to < v.len() ==> !(v[to] is List),
    ensures
        leading_lists(v, from) == to - from,
    decreases to - from,
{
    if from < to {
        lemma_leading_lists(v, from + 1, to);
    }
}

/// The error for a dimension that a list has not.
pub open spec fn invalid_dimension(max_dim: usize, val: i64) -> EvalErrorV {
    EvalErrorV::InvalidDimension { max_dim, val }
}

/// The greatest length of the lists at a depth of a list of lists. A depth
/// below 1 or beyond the depth of the type is an error.
pub fn list_length_max(a: &Datum, b: &Datum, max_dim: usize) -> (r: Result<Datum, EvalError>)
    requires
        b@ is Int64,
    ensures
        b@->Int64_0 < 1 || b@->Int64_0 > max_dim ==> res_view(r) == Err::<DatumV, EvalErrorV>(
            invalid_dimension(max_dim, b@->Int64_0),
        ),
        !(b@->Int64_0 < 1 || b@->Int64_0 > max_dim) ==> r is Ok && match max_len_on_dim(a@, b@->Int64_0 as int) {
            Some(n) => r->Ok_0@ == DatumV::Int64(n as usize as i64),
            None => r->Ok_0@ is Null,
        },
{
    let n = b.unwrap_int64();
    if n < 1 || n as u64 > max_dim as u64 {
        Err(EvalError::InvalidDimension { max_dim, val: n })
    } else {
        Ok(
            match max_len(a, n) {
                Some(l) => Datum::Int64(#[verifier::truncate]
                (l as i64)),
                None => Datum::Null,
            },
        )
    }
}

/// One range of a slice: the place of its first element, counted from 0,
/// and its length.
pub type SliceRange = (u64, u64);

/// A slice of a list of lists: of each list at depth `k` the elements of
/// range `k`, sliced by the ranges that follow. With the slice comes
/// whether it is empty. A list of which nothing is left, or of which only
/// empty slices are left, becomes null.
pub open spec fn slice_spec(d: DatumV, ranges: Seq<SliceRange>, k: int) -> (DatumV, bool)
    decreases d, 0nat, 0nat,
{
    if 0 <= k < ranges.len() && d is List {
        let v = d->List_0;
        let lo = if (ranges[k].0 as int) < v.len() {
            ranges[k].0 as int
        } else {
            v.len() as int
        };
        let hi = if lo + ranges[k].1 < v.len() {
            lo + ranges[k].1
        } else {
            v.len() as int
        };
        if hi <= lo {
            (DatumV::Null, true)
        } else if all_empty_slices(v, ranges, k + 1, lo, hi) {
            (DatumV::Null, true)
        } else {
            (DatumV::List(Seq::new((hi - lo) as nat, |i: int| if 0 <= i < hi - lo { slice_spec(v[lo + i], ranges, k + 1).0 } else { DatumV::Null })), false)
        }
    } else {
        (d, d is Null && 0 <= k < ranges.len())
    }
}

/// Whether the slices of the elements from `lo` up to `hi` are all
/// empty.
pub open spec fn all_empty_slices(v: Seq<DatumV>, ranges: Seq<SliceRange>, k: int, lo: int, hi: int) -> bool
    decreases v, 1nat, hi - lo,
{
    if hi <= lo || lo < 0 || hi > v.len() {
        true
    } else {
        all_empty_slices(v, ranges, k, lo, hi - 1) && slice_spec(v[hi - 1], ranges, k).1
    }
}

#[verifier::loop_isolation(false)]
fn slice_and_descend(d: &Datum, ranges: &Vec<SliceRange>, k: usize) -> (r: (Datum, bool))
    ensures
        (r.0@, r.1) == slice_spec(d@, ranges@, k as int),
    decreases d,
{
    match d {
        Datum::List(list) => {
            if k >= ranges.len() {
                return (d.clone(), false);
            }
            proof {
                crate::datum::lemma_list_view(*d);
            }
            let ghost v = datums_view(list@);
            assert(v.len() == list@.len());
            let (start, n) = ranges[k];
            let lo: usize = if start < list.len() as u64 {
                start as usize
            } else {
                list.len()
            };
            let hi: usize = if n < (list.len() - lo) as u64 {
                lo + n as usize
            } else {
                list.len()
            };
            if hi <= lo {
                return (Datum::Null, true);
            }
            let mut out: Vec<Datum> = Vec::new();
            let mut empty_results = true;
            let mut i: usize = lo;
            while i < hi
                invariant
                    lo <= i <= hi,
                    hi <= list.len(),
                    out.len() == i - lo,
                    k + 1 <= usize::MAX,
                    empty_results == all_empty_slices(v, ranges@, k + 1, lo as int, i as int),
                    forall|j: int| 0 <= j < i - lo ==> (#[trigger] out@[j])@ == slice_spec(v[lo + j], ranges@, k + 1).0,
                decreases hi - i,
            {
                let (e, empty) = slice_and_descend(&list[i], ranges, k + 1);
                out.push(e);
                empty_results = empty && empty_results;
                i += 1;
            }
            if empty_results {
                (Datum::Null, true)
            } else {
                let r = Datum::list(out);
                assert(r@->List_0 =~= slice_spec(d@, ranges@, k as int).0->List_0);
                (r, false)
            }
        },
        _ => (d.clone(), d.is_null() && k < ranges.len()),
    }
}

/// Whether the datums behind the first are bounds of ranges: an even
/// number of 64-bit integers, at least two.
pub open spec fn slice_bounds(s: Seq<DatumV>) -> bool {
    s.len() >= 3 && s.len() % 2 == 1 && forall|i: int| 1 <= i < s.len() ==> (#[trigger] s[i]) is Int64
}

/// The ranges of the first `n` pairs of bounds, if each pair bounds
/// something: from the start, at least 1, to the end.
pub open spec fn slice_ranges(s: Seq<DatumV>, n: int) -> Option<Seq<SliceRange>>
    decreases n,
{
    if n <= 0 {
        Some(Seq::empty())
    } else {
        let start = if s[2 * n - 1]->Int64_0 > 1 {
            s[2 * n - 1]->Int64_0 as int
        } else {
            1
        };
        let end = s[2 * n]->Int64_0 as int;
        match slice_ranges(s, n - 1) {
            None => None,
            Some(r) => if start > end {
                None
            } else {
                Some(r.push(((start - 1) as u64, (end - start + 1) as u64)))
            },
        }
    }
}

/// The slice of a list of lists between bounds, one pair of bounds for
/// each depth; null where a start lies behind its end.
pub open spec fn list_slice_spec(s: Seq<DatumV>) -> DatumV {
    match slice_ranges(s, (s.len() - 1) / 2) {
        None => DatumV::Null,
        Some(ranges) => slice_spec(s[0], ranges, 0).0,
    }
}

#[verifier::loop_isolation(false)]
pub fn list_slice(datums: &Vec<Datum>) -> (r: Datum)
    requires
        slice_bounds(datums_view(datums@)),
    ensures
        r@ == list_slice_spec(datums_view(datums@)),
{
    let ghost s = datums_view(datums@);
    let pairs = (datums.len() - 1) / 2;
    let mut ranges: Vec<SliceRange> = Vec::new();
    let mut i: usize = 0;
    while i < pairs
        invariant
            i <= pairs,
            slice_ranges(s, i as int) == Some(ranges@),
        decreases pairs - i,
    {
        assert(s[2 * (i + 1) - 1] is Int64 && s[2 * (i + 1) as int] is Int64);
        let raw = datums[2 * i + 1].unwrap_int64();
        let start = if raw > 1 {
            raw
        } else {
            1
        };
        let end = datums[2 * i + 2].unwrap_int64();
        if start > end {
            proof {
                lemma_slice_ranges_none(s, i + 1, pairs as int);
            }
            return Datum::Null;
        }
        let len = (end as i128 - start as i128 + 1) as u64;
        ranges.push(((start - 1) as u64, len));
        i += 1;
    }
    slice_and_descend(&datums[0], &ranges, 0).0
}

proof fn lemma_slice_ranges_none(s: Seq<DatumV>, k: int, n: int)
    requires
        1 <= k <= n,
        slice_ranges(s, k) is None,
    ensures
        slice_ranges(s, n) is None,
    decreases n - k,
{
    if k < n {
        lemma_slice_ranges_none(s, k, n - 1);
    }
}

} // verus!
