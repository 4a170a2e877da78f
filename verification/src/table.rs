//! Table functions: set-returning functions that expand one row into
//! rows with multiplicities.

use vstd::prelude::*;
use crate::datum::{datums_view, pairs_view, Datum, DatumV};
use crate::error::{EvalError, EvalErrorV};
use crate::float::FloatUnit;
use crate::jsonb::{check_jsonb, has_double, is_jsonb, jsonb_stringify, lemma_jsonb_unfold, stringify_spec};
use crate::pattern::{captures, compile_names, csv_records, read_csv, regex_captures, regex_names};
use crate::pattern::{opt_texts_view, records_view};
use crate::relation::RelationType;
use crate::row::{updates_view, Row, Update};
use crate::scalar_type::{column_types_view, ColumnType, ColumnTypeV, ScalarType, ScalarTypeV};

verus! {

/// A row of datums as a value, with its multiplicity.
pub type UpdateV = (Seq<DatumV>, i64);

/// A JSON value as a row shows it: itself, or its text.
pub open spec fn shown(value: DatumV, stringify: bool) -> DatumV {
    if stringify {
        stringify_spec(value)
    } else {
        value
    }
}

/// Whether a datum shows a JSON value: the value or its text, and where
/// the text is of a value that holds a double, which the host writes,
/// some text.
pub open spec fn shows(d: DatumV, value: DatumV, stringify: bool) -> bool {
    if stringify && has_double(value) {
        d is String
    } else {
        d == shown(value, stringify)
    }
}

/// Whether a row is the one that `jsonb_each` makes of a member of an
/// object: the key, then the value, once.
pub open spec fn each_row(row: UpdateV, member: (Seq<char>, DatumV), stringify: bool) -> bool {
    &&& row.1 == 1
    &&& row.0.len() == 2
    &&& row.0[0] == DatumV::String(member.0)
    &&& shows(row.0[1], member.1, stringify)
}

/// Whether a row is the one that `jsonb_array_elements` makes of an
/// element of an array: the element, once.
pub open spec fn element_row(row: UpdateV, value: DatumV, stringify: bool) -> bool {
    &&& row.1 == 1
    &&& row.0.len() == 1
    &&& shows(row.0[0], value, stringify)
}

/// The rows of `jsonb_each`: for each member of an object, its key and its
/// value; none for a datum that is not an object.
pub open spec fn jsonb_each_rows(a: DatumV, stringify: bool) -> Seq<UpdateV> {
    match a {
        DatumV::Dict(v) => Seq::new(
            v.len(),
            |i: int|
                (
                    seq![
                        DatumV::String(v[i].0),
                        if stringify {
                            stringify_spec(v[i].1)
                        } else {
                            v[i].1
                        },
                    ],
                    1i64,
                ),
        ),
        _ => Seq::empty(),
    }
}

/// The rows of `jsonb_object_keys`: the keys of an object.
pub open spec fn jsonb_object_keys_rows(a: DatumV) -> Seq<UpdateV> {
    match a {
        DatumV::Dict(v) => Seq::new(v.len(), |i: int| (seq![DatumV::String(v[i].0)], 1i64)),
        _ => Seq::empty(),
    }
}

/// The rows of `jsonb_array_elements`: the elements of an array; none for
/// a datum that is not an array.
pub open spec fn jsonb_array_elements_rows(a: DatumV, stringify: bool) -> Seq<UpdateV> {
    match a {
        DatumV::List(v) => Seq::new(
            v.len(),
            |i: int|
                (
                    seq![
                        if stringify {
                            stringify_spec(v[i])
                        } else {
                            v[i]
                        },
                    ],
                    1i64,
                ),
        ),
        _ => Seq::empty(),
    }
}

/// The rows of an unnested list or array: one for each element.
pub open spec fn unnest_rows(elements: Seq<DatumV>) -> Seq<UpdateV> {
    Seq::new(elements.len(), |i: int| (seq![elements[i]], 1i64))
}

/// Appends a row with its multiplicity.
fn push_update(out: &mut Vec<Update>, row: Row, m: i64)
    ensures
        updates_view(final(out)@) == updates_view(old(out)@).push((row@, m)),
        final(out)@.len() == old(out)@.len() + 1,
{
    let ghost before = updates_view(out@);
    out.push((row, m));
    assert(updates_view(out@) =~= before.push((row@, m)));
}

pub fn jsonb_each<F: FloatUnit>(a: &Datum, stringify: bool, fu: &F) -> (r: Vec<Update>)
    requires
        stringify ==> is_jsonb(a@),
    ensures
        !(stringify && has_double(a@)) ==> updates_view(r@) == jsonb_each_rows(a@, stringify),
        updates_view(r@).len() == jsonb_each_rows(a@, stringify).len(),
        forall|i: int|
            0 <= i < updates_view(r@).len() ==> each_row(#[trigger] updates_view(r@)[i], a@->Dict_0[i], stringify),
{
    let mut out: Vec<Update> = Vec::new();
    match a {
        Datum::Dict(_) => {
            let v = a.unwrap_map();
            let ghost s = pairs_view(v@);
            proof {
                lemma_jsonb_unfold(a@);
            }
            let mut i: usize = 0;
            while i < v.len()
                invariant
                    i <= v.len(),
                    s == pairs_view(v@),
                    a@ == DatumV::Dict(s),
                    stringify ==> forall|j: int| 0 <= j < s.len() ==> is_jsonb((#[trigger] s[j]).1),
                    out.len() == i,
                    updates_view(out@).len() == i,
                    (stringify ==> forall|j: int| 0 <= j < i ==> !has_double((#[trigger] s[j]).1)) ==> forall|j: int|
                        0 <= j < i ==> (#[trigger] updates_view(out@)[j]) == jsonb_each_rows(a@, stringify)[j],
                    forall|j: int| 0 <= j < i ==> each_row(#[trigger] updates_view(out@)[j], s[j], stringify),
                decreases v.len() - i,
            {
                let key = Datum::String(v[i].0.clone());
                let value = if stringify {
                    assert(is_jsonb(s[i as int].1));
                    jsonb_stringify(&v[i].1, fu)
                } else {
                    v[i].1.clone()
                };
                let mut datums: Vec<Datum> = Vec::new();
                datums.push(key);
                datums.push(value);
                let row = Row::pack(datums);
                assert(row@ =~= seq![key@, value@]);
                push_update(&mut out, row, 1);
                proof {
                    assert(has_double(s[i as int].1) ==> !(s[i as int].1 is JsonNull));
                    assert(each_row(updates_view(out@)[i as int], s[i as int], stringify));
                    if !stringify || !has_double(s[i as int].1) {
                        assert(updates_view(out@)[i as int] == jsonb_each_rows(a@, stringify)[i as int]);
                    }
                }
                i += 1;
            }
            proof {
                if !(stringify && has_double(a@)) {
                    assert(updates_view(out@) =~= jsonb_each_rows(a@, stringify));
                }
            }
        },
        _ => {
            assert(updates_view(out@) =~= jsonb_each_rows(a@, stringify));
        },
    }
    out
}

pub fn jsonb_object_keys(a: &Datum) -> (r: Vec<Update>)
    ensures
        updates_view(r@) == jsonb_object_keys_rows(a@),
{
    let mut out: Vec<Update> = Vec::new();
    match a {
        Datum::Dict(_) => {
            let v = a.unwrap_map();
            let ghost s = pairs_view(v@);
            let mut i: usize = 0;
            while i < v.len()
                invariant
                    i <= v.len(),
                    s == pairs_view(v@),
                    a@ == DatumV::Dict(s),
                    out.len() == i,
                    forall|j: int| 0 <= j < i ==> (#[trigger] updates_view(out@)[j]) == jsonb_object_keys_rows(a@)[j],
                decreases v.len() - i,
            {
                let key = Datum::String(v[i].0.clone());
                let mut datums: Vec<Datum> = Vec::new();
                datums.push(key);
                let row = Row::pack(datums);
                assert(row@ =~= seq![key@]);
                push_update(&mut out, row, 1);
                proof {
                    assert(updates_view(out@)[i as int] == jsonb_object_keys_rows(a@)[i as int]);
                }
                i += 1;
            }
            assert(updates_view(out@) =~= jsonb_object_keys_rows(a@));
        },
        _ => {
            assert(updates_view(out@) =~= jsonb_object_keys_rows(a@));
        },
    }
    out
}

pub fn jsonb_array_elements<F: FloatUnit>(a: &Datum, stringify: bool, fu: &F) -> (r: Vec<Update>)
    requires
        stringify ==> is_jsonb(a@),
    ensures
        !(stringify && has_double(a@)) ==> updates_view(r@) == jsonb_array_elements_rows(a@, stringify),
        updates_view(r@).len() == jsonb_array_elements_rows(a@, stringify).len(),
        forall|i: int|
            0 <= i < updates_view(r@).len() ==> element_row(#[trigger] updates_view(r@)[i], a@->List_0[i], stringify),
{
    let mut out: Vec<Update> = Vec::new();
    match a {
        Datum::List(_) => {
            let v = a.unwrap_list();
            let ghost s = datums_view(v@);
            proof {
                lemma_jsonb_unfold(a@);
            }
            let mut i: usize = 0;
            while i < v.len()
                invariant
                    i <= v.len(),
                    s == datums_view(v@),
                    a@ == DatumV::List(s),
                    stringify ==> forall|j: int| 0 <= j < s.len() ==> is_jsonb(#[trigger] s[j]),
                    out.len() == i,
                    updates_view(out@).len() == i,
                    forall|j: int| 0 <= j < i ==> element_row(#[trigger] updates_view(out@)[j], s[j], stringify),
                    (stringify ==> forall|j: int| 0 <= j < i ==> !has_double(#[trigger] s[j])) ==> forall|j: int|
                        0 <= j < i ==> (#[trigger] updates_view(out@)[j]) == jsonb_array_elements_rows(
                            a@,
                            stringify,
                        )[j],
                decreases v.len() - i,
            {
                let value = if stringify {
                    assert(is_jsonb(s[i as int]));
                    jsonb_stringify(&v[i], fu)
                } else {
                    v[i].clone()
                };
                let mut datums: Vec<Datum> = Vec::new();
                datums.push(value);
                let row = Row::pack(datums);
                assert(row@ =~= seq![value@]);
                push_update(&mut out, row, 1);
                proof {
                    assert(has_double(s[i as int]) ==> !(s[i as int] is JsonNull));
                    assert(element_row(updates_view(out@)[i as int], s[i as int], stringify));
                    if !stringify || !has_double(s[i as int]) {
                        assert(updates_view(out@)[i as int] == jsonb_array_elements_rows(a@, stringify)[i as int]);
                    }
                }
                i += 1;
            }
            proof {
                if !(stringify && has_double(a@)) {
                    assert(updates_view(out@) =~= jsonb_array_elements_rows(a@, stringify));
                }
            }
        },
        _ => {
            assert(updates_view(out@) =~= jsonb_array_elements_rows(a@, stringify));
        },
    }
    out
}

/// One row for each of the elements.
fn unnest(v: &Vec<Datum>) -> (r: Vec<Update>)
    ensures
        updates_view(r@) == unnest_rows(datums_view(v@)),
{
    let mut out: Vec<Update> = Vec::new();
    let mut i: usize = 0;
    while i < v.len()
        invariant
            i <= v.len(),
            out.len() == i,
            forall|j: int| 0 <= j < i ==> (#[trigger] updates_view(out@)[j]) == unnest_rows(datums_view(v@))[j],
        decreases v.len() - i,
    {
        let e = v[i].clone();
        let mut datums: Vec<Datum> = Vec::new();
        datums.push(e);
        let row = Row::pack(datums);
        assert(row@ =~= seq![e@]);
        push_update(&mut out, row, 1);
        proof {
            assert(updates_view(out@)[i as int] == unnest_rows(datums_view(v@))[i as int]);
        }
        i += 1;
    }
    assert(updates_view(out@) =~= unnest_rows(datums_view(v@)));
    out
}

pub fn unnest_array(a: &Datum) -> (r: Vec<Update>)
    requires
        a@ is Array,
    ensures
        updates_view(r@) == unnest_rows(a@->elements),
{
    unnest(a.unwrap_array_elements())
}

pub fn unnest_list(a: &Datum) -> (r: Vec<Update>)
    requires
        a@ is List,
    ensures
        updates_view(r@) == unnest_rows(a@->List_0),
{
    unnest(a.unwrap_list())
}

/// The row of `repeat`: the empty row as often as the count says, which
/// can be a negative number of times; no row for the count zero.
pub open spec fn repeat_rows(a: DatumV) -> Seq<UpdateV> {
    if a->Int64_0 != 0 {
        seq![(Seq::<DatumV>::empty(), a->Int64_0)]
    } else {
        Seq::empty()
    }
}

pub fn repeat(a: &Datum) -> (r: Option<Update>)
    requires
        a@ is Int64,
    ensures
        match r {
            Some(u) => a@->Int64_0 != 0 && u.0@ == Seq::<DatumV>::empty() && u.1 == a@->Int64_0,
            None => a@->Int64_0 == 0,
        },
{
    let n = a.unwrap_int64();
    if n != 0 {
        Some((Row::empty(), n))
    } else {
        None
    }
}

/// The integers from `start` in steps of `step` that do not pass `stop`,
/// as far as they stay between `lo` and `hi`.
pub open spec fn series(start: int, stop: int, step: int, lo: int, hi: int) -> Seq<int>
    decreases
        if step > 0 {
            stop - start + step
        } else {
            start - stop - step
        },
{
    if step == 0 || (step > 0 && start > stop) || (step < 0 && start < stop) {
        Seq::empty()
    } else if start + step > hi || start + step < lo {
        seq![start]
    } else {
        seq![start] + series(start + step, stop, step, lo, hi)
    }
}

/// The values of a series.
fn series_values(start: i64, stop: i64, step: i64, lo: i64, hi: i64) -> (r: Vec<i64>)
    requires
        step != 0,
        lo <= start <= hi,
    ensures
        r@.len() == series(start as int, stop as int, step as int, lo as int, hi as int).len(),
        forall|i: int|
            0 <= i < r@.len() ==> (#[trigger] r@[i]) as int == series(
                start as int,
                stop as int,
                step as int,
                lo as int,
                hi as int,
            )[i],
{
    let ghost all = series(start as int, stop as int, step as int, lo as int, hi as int);
    let mut out: Vec<i64> = Vec::new();
    let mut x = start;
    let mut done = false;
    while !done
        invariant
            step != 0,
            lo <= x <= hi,
            !done ==> all == out@.map_values(|v: i64| v as int) + series(
                x as int,
                stop as int,
                step as int,
                lo as int,
                hi as int,
            ),
            done ==> all == out@.map_values(|v: i64| v as int),
        decreases
            if done {
                0
            } else if step > 0 {
                if x <= stop {
                    stop - x + 2
                } else {
                    1
                }
            } else {
                if x >= stop {
                    x - stop + 2
                } else {
                    1
                }
            },
    {
        let ghost before = out@.map_values(|v: i64| v as int);
        if (step > 0 && x > stop) || (step < 0 && x < stop) {
            assert(before + Seq::<int>::empty() =~= before);
            done = true;
        } else {
            out.push(x);
            assert(out@.map_values(|v: i64| v as int) =~= before.push(x as int));
            let next = x as i128 + step as i128;
            if next > hi as i128 || next < lo as i128 {
                assert(before + seq![x as int] =~= before.push(x as int));
                done = true;
            } else {
                assert(before + (seq![x as int] + series(next as int, stop as int, step as int, lo as int, hi as int))
                    =~= before.push(x as int) + series(next as int, stop as int, step as int, lo as int, hi as int));
                x = next as i64;
            }
        }
    }
    assert(out@.map_values(|v: i64| v as int).len() == out@.len());
    assert(forall|i: int| 0 <= i < out@.len() ==> out@.map_values(|v: i64| v as int)[i] == out@[i] as int);
    out
}

/// The error of a series whose step is zero.
pub open spec fn zero_step_error() -> EvalErrorV {
    EvalErrorV::InvalidParameterValue("step size cannot equal zero"@)
}

/// The rows of a series of 64-bit integers.
pub open spec fn series_rows_int64(start: i64, stop: i64, step: i64) -> Seq<UpdateV> {
    let s = series(start as int, stop as int, step as int, i64::MIN as int, i64::MAX as int);
    Seq::new(s.len(), |i: int| (seq![DatumV::Int64(s[i] as i64)], 1i64))
}

/// The rows of a series of 32-bit integers.
pub open spec fn series_rows_int32(start: i32, stop: i32, step: i32) -> Seq<UpdateV> {
    let s = series(start as int, stop as int, step as int, i32::MIN as int, i32::MAX as int);
    Seq::new(s.len(), |i: int| (seq![DatumV::Int32(s[i] as i32)], 1i64))
}

/// The series of 64-bit integers from `start` to `stop` in steps of
/// `step`, one row for each. A step of zero is an invalid parameter.
pub fn generate_series_int64(start: i64, stop: i64, step: i64) -> (r: Result<Vec<Update>, EvalError>)
    ensures
        match r {
            Ok(rows) => step != 0 && updates_view(rows@) == series_rows_int64(start, stop, step),
            Err(e) => step == 0 && e@ == zero_step_error(),
        },
{
    if step == 0 {
        return Err(EvalError::InvalidParameterValue("step size cannot equal zero".to_owned()));
    }
    let vals = series_values(start, stop, step, i64::MIN, i64::MAX);
    let mut out: Vec<Update> = Vec::new();
    let mut i: usize = 0;
    while i < vals.len()
        invariant
            i <= vals.len(),
            out.len() == i,
            vals@.len() == series(start as int, stop as int, step as int, i64::MIN as int, i64::MAX as int).len(),
            forall|j: int|
                0 <= j < vals@.len() ==> (#[trigger] vals@[j]) as int == series(
                    start as int,
                    stop as int,
                    step as int,
                    i64::MIN as int,
                    i64::MAX as int,
                )[j],
            forall|j: int| 0 <= j < i ==> (#[trigger] updates_view(out@)[j]) == series_rows_int64(start, stop, step)[j],
        decreases vals.len() - i,
    {
        let mut datums: Vec<Datum> = Vec::new();
        datums.push(Datum::Int64(vals[i]));
        let row = Row::pack(datums);
        assert(row@ =~= seq![DatumV::Int64(vals@[i as int])]);
        push_update(&mut out, row, 1);
        proof {
            assert(updates_view(out@)[i as int] == series_rows_int64(start, stop, step)[i as int]);
        }
        i += 1;
    }
    assert(updates_view(out@) =~= series_rows_int64(start, stop, step));
    Ok(out)
}

/// The series of 32-bit integers from `start` to `stop` in steps of
/// `step`, one row for each. A step of zero is an invalid parameter.
pub fn generate_series_int32(start: i32, stop: i32, step: i32) -> (r: Result<Vec<Update>, EvalError>)
    ensures
        match r {
            Ok(rows) => step != 0 && updates_view(rows@) == series_rows_int32(start, stop, step),
            Err(e) => step == 0 && e@ == zero_step_error(),
        },
{
    if step == 0 {
        return Err(EvalError::InvalidParameterValue("step size cannot equal zero".to_owned()));
    }
    let vals = series_values(start as i64, stop as i64, step as i64, i32::MIN as i64, i32::MAX as i64);
    let ghost all = series(start as int, stop as int, step as int, i32::MIN as int, i32::MAX as int);
    proof {
        lemma_series_bounds(start as int, stop as int, step as int, i32::MIN as int, i32::MAX as int);
    }
    let mut out: Vec<Update> = Vec::new();
    let mut i: usize = 0;
    while i < vals.len()
        invariant
            i <= vals.len(),
            out.len() == i,
            vals@.len() == all.len(),
            all == series(start as int, stop as int, step as int, i32::MIN as int, i32::MAX as int),
            forall|j: int| 0 <= j < vals@.len() ==> (#[trigger] vals@[j]) as int == all[j],
            forall|j: int| 0 <= j < all.len() ==> i32::MIN <= #[trigger] all[j] <= i32::MAX,
            forall|j: int| 0 <= j < i ==> (#[trigger] updates_view(out@)[j]) == series_rows_int32(start, stop, step)[j],
        decreases vals.len() - i,
    {
        assert(i32::MIN <= all[i as int] <= i32::MAX);
        let mut datums: Vec<Datum> = Vec::new();
        datums.push(Datum::Int32(vals[i] as i32));
        let row = Row::pack(datums);
        assert(row@ =~= seq![DatumV::Int32(vals@[i as int] as i32)]);
        push_update(&mut out, row, 1);
        proof {
            assert(updates_view(out@)[i as int] == series_rows_int32(start, stop, step)[i as int]);
        }
        i += 1;
    }
    assert(updates_view(out@) =~= series_rows_int32(start, stop, step));
    Ok(out)
}

/// Each integer of a series lies between the bounds, where its start
/// does.
pub proof fn lemma_series_bounds(start: int, stop: int, step: int, lo: int, hi: int)
    requires
        lo <= start <= hi,
    ensures
        forall|j: int|
            0 <= j < series(start, stop, step, lo, hi).len() ==> lo <= #[trigger] series(start, stop, step, lo, hi)[j]
                <= hi,
    decreases
        if step > 0 {
            stop - start + step
        } else {
            start - stop - step
        },
{
    let all = series(start, stop, step, lo, hi);
    if step == 0 || (step > 0 && start > stop) || (step < 0 && start < stop) {
    } else if start + step > hi || start + step < lo {
    } else {
        lemma_series_bounds(start + step, stop, step, lo, hi);
        let rest = series(start + step, stop, step, lo, hi);
        assert forall|j: int| 0 <= j < all.len() implies lo <= #[trigger] all[j] <= hi by {
            if j > 0 {
                assert(all[j] == rest[j - 1]);
            }
        }
    }
}

/// The number of capture groups of a pattern with the given names,
/// without that of the whole match.
pub open spec fn group_count(names: Seq<Option<Seq<char>>>) -> nat {
    if names.len() > 0 {
        (names.len() - 1) as nat
    } else {
        0
    }
}

/// One capture group of a pattern.
#[derive(Clone, Debug, PartialEq, Eq, Hash)]
pub struct CaptureGroupDesc {
    pub index: u32,
    pub name: Option<String>,
    pub nullable: bool,
}

/// A pattern that compiles, with a description of each of its capture
/// groups but the one of the whole match.
#[derive(Clone, Debug, PartialEq, Eq, Hash)]
pub struct AnalyzedRegex {
    pattern: String,
    descs: Vec<CaptureGroupDesc>,
}

impl AnalyzedRegex {
    /// The text of the pattern.
    pub closed spec fn pattern(self) -> Seq<char> {
        self.pattern@
    }

    /// The capture groups.
    pub closed spec fn groups(self) -> Seq<CaptureGroupDesc> {
        self.descs@
    }

    /// Analyzes a pattern. Fails, with the message of the error, exactly
    /// where the pattern does not compile. Each group but that of the whole
    /// match is described as nullable, by its number from 1 and its name.
    pub fn new(s: &str) -> (r: Result<AnalyzedRegex, String>)
        ensures
            match r {
                Ok(a) => {
                    &&& regex_names(s@, false) is Ok
                    &&& a.pattern() == s@
                    &&& a.groups().len() == group_count(regex_names(s@, false)->Ok_0)
                    &&& forall|i: int|
                        0 <= i < a.groups().len() ==> {
                            &&& (#[trigger] a.groups()[i]).index == (i + 1) as u32
                            &&& a.groups()[i].nullable
                            &&& crate::scalar_type::opt_text_view(a.groups()[i].name) == regex_names(s@, false)->Ok_0[i
                                + 1]
                        }
                },
                Err(e) => regex_names(s@, false) == Err::<Seq<Option<Seq<char>>>, Seq<char>>(e@),
            },
    {
        match compile_names(s, false) {
            Err(e) => Err(e),
            Ok(names) => {
                let ghost all = opt_texts_view(names@);
                let n = names.len();
                let mut descs: Vec<CaptureGroupDesc> = Vec::new();
                let mut i: usize = 1;
                while i < n
                    invariant
                        1 <= i,
                        n == names.len(),
                        all == opt_texts_view(names@),
                        i <= n || n == 0,
                        n > 0 ==> descs.len() == i - 1,
                        n == 0 ==> descs.len() == 0,
                        forall|j: int|
                            0 <= j < descs.len() ==> {
                                &&& (#[trigger] descs@[j]).index == (j + 1) as u32
                                &&& descs@[j].nullable
                                &&& crate::scalar_type::opt_text_view(descs@[j].name) == all[j + 1]
                            },
                    decreases n - i,
                {
                    let name = match &names[i] {
                        Some(s) => Some(s.clone()),
                        None => None,
                    };
                    assert(crate::scalar_type::opt_text_view(name) == all[i as int]);
                    let index = #[verifier::truncate]
                    (i as u32);
                    descs.push(CaptureGroupDesc { index, name, nullable: true });
                    i += 1;
                }
                Ok(AnalyzedRegex { pattern: s.to_owned(), descs })
            },
        }
    }

    /// The number of capture groups, without that of the whole match.
    pub fn capture_groups_len(&self) -> (r: usize)
        ensures
            r == self.groups().len(),
    {
        self.descs.len()
    }

    /// The capture groups, in order.
    pub fn capture_groups_iter(&self) -> (r: Vec<&CaptureGroupDesc>)
        ensures
            r@.len() == self.groups().len(),
            forall|i: int| 0 <= i < r@.len() ==> *(#[trigger] r@[i]) == self.groups()[i],
    {
        let mut out: Vec<&CaptureGroupDesc> = Vec::new();
        let mut i: usize = 0;
        while i < self.descs.len()
            invariant
                i <= self.descs.len(),
                out.len() == i,
                forall|j: int| 0 <= j < i ==> *(#[trigger] out@[j]) == self.descs@[j],
            decreases self.descs.len() - i,
        {
            out.push(&self.descs[i]);
            i += 1;
        }
        out
    }

    /// The text of the pattern.
    pub fn as_str(&self) -> (r: &str)
        ensures
            r@ == self.pattern(),
    {
        self.pattern.as_str()
    }
}

/// The datums of the capture groups of a match, without the whole match:
/// the text of a group that took part, null for one that did not.
pub open spec fn capture_datums(caps: Seq<Option<Seq<char>>>) -> Seq<DatumV> {
    Seq::new(
        if caps.len() > 0 {
            (caps.len() - 1) as nat
        } else {
            0
        },
        |i: int|
            match caps[i + 1] {
                Some(t) => DatumV::String(t),
                None => DatumV::Null,
            },
    )
}

/// The row of `regexp_extract`: the capture groups of the first match of
/// the pattern in the text; no row where there is no match.
pub open spec fn regexp_extract_rows(a: DatumV, pattern: Seq<char>) -> Seq<UpdateV> {
    match regex_captures(pattern, false, a->String_0) {
        Some(caps) => seq![(capture_datums(caps), 1i64)],
        None => Seq::empty(),
    }
}

/// The datums of the capture groups of a match.
pub fn capture_row(caps: &Vec<Option<String>>) -> (r: Vec<Datum>)
    ensures
        datums_view(r@) == capture_datums(opt_texts_view(caps@)),
{
    let mut out: Vec<Datum> = Vec::new();
    let mut i: usize = 1;
    while i < caps.len()
        invariant
            1 <= i,
            i <= caps.len() || caps.len() == 0,
            caps.len() > 0 ==> out.len() == i - 1,
            caps.len() == 0 ==> out.len() == 0,
            forall|j: int|
                0 <= j < out.len() ==> (#[trigger] out@[j])@ == capture_datums(opt_texts_view(caps@))[j],
        decreases caps.len() - i,
    {
        let d = match &caps[i] {
            Some(t) => Datum::String(t.clone()),
            None => Datum::Null,
        };
        out.push(d);
        i += 1;
    }
    assert(datums_view(out@) =~= capture_datums(opt_texts_view(caps@)));
    out
}

pub fn regexp_extract(a: &Datum, r: &AnalyzedRegex) -> (res: Option<Update>)
    requires
        a@ is String,
    ensures
        match res {
            Some(u) => regexp_extract_rows(a@, r.pattern()) == seq![(u.0@, u.1)],
            None => regexp_extract_rows(a@, r.pattern()) == Seq::<UpdateV>::empty(),
        },
{
    match captures(r.as_str(), false, a.unwrap_str()) {
        Some(caps) => Some((Row::pack(capture_row(&caps)), 1)),
        None => None,
    }
}

/// The rows of `csv_extract`: one for each record of the text that can be
/// read and has the given number of fields, its fields as texts.
pub open spec fn csv_rows(records: Seq<Option<Seq<Seq<char>>>>, n_cols: usize) -> Seq<UpdateV>
    decreases records.len(),
{
    if records.len() == 0 {
        Seq::empty()
    } else {
        let rest = csv_rows(records.drop_last(), n_cols);
        match records.last() {
            Some(fields) => if fields.len() == n_cols {
                rest.push((Seq::new(fields.len(), |k: int| DatumV::String(fields[k])), 1i64))
            } else {
                rest
            },
            None => rest,
        }
    }
}

/// Turns the records of a CSV text into rows.
pub fn csv_records_to_rows(records: &Vec<Option<Vec<String>>>, n_cols: usize) -> (r: Vec<Update>)
    ensures
        updates_view(r@) == csv_rows(records_view(records@), n_cols),
{
    let ghost s = records_view(records@);
    let mut out: Vec<Update> = Vec::new();
    let mut i: usize = 0;
    while i < records.len()
        invariant
            i <= records.len(),
            s == records_view(records@),
            updates_view(out@) == csv_rows(s.take(i as int), n_cols),
        decreases records.len() - i,
    {
        proof {
            assert(s.take(i + 1).drop_last() =~= s.take(i as int));
            assert(s.take(i + 1).last() == s[i as int]);
        }
        match &records[i] {
            Some(fields) => {
                if fields.len() == n_cols {
                    let mut datums: Vec<Datum> = Vec::new();
                    let mut k: usize = 0;
                    while k < fields.len()
                        invariant
                            k <= fields.len(),
                            datums.len() == k,
                            forall|j: int| 0 <= j < k ==> (#[trigger] datums@[j])@ == DatumV::String(fields@[j]@),
                        decreases fields.len() - k,
                    {
                        datums.push(Datum::String(fields[k].clone()));
                        k += 1;
                    }
                    let row = Row::pack(datums);
                    assert(row@ =~= Seq::new(s[i as int]->0.len(), |k: int| DatumV::String(s[i as int]->0[k])));
                    let ghost before = updates_view(out@);
                    out.push((row, 1));
                    assert(updates_view(out@) =~= before.push((row@, 1i64)));
                }
            },
            None => {},
        }
        i += 1;
    }
    assert(s.take(records.len() as int) =~= s);
    out
}

pub fn csv_extract(a: &Datum, n_cols: usize) -> (r: Vec<Update>)
    requires
        a@ is String,
    ensures
        updates_view(r@) == csv_rows(csv_records(a@->String_0, false), n_cols),
{
    let records = read_csv(a.unwrap_str(), false);
    csv_records_to_rows(&records, n_cols)
}

/// A table function.
#[derive(Clone, Debug, PartialEq, Eq, Hash)]
pub enum TableFunc {
    JsonbEach { stringify: bool },
    JsonbObjectKeys,
    JsonbArrayElements { stringify: bool },
    RegexpExtract(AnalyzedRegex),
    CsvExtract(usize),
    GenerateSeriesInt32,
    GenerateSeriesInt64,
    Repeat,
    UnnestArray { el_typ: ScalarType },
    UnnestList { el_typ: ScalarType },
}

/// The error for datums that a table function is not made for.
pub open spec fn bad_input() -> EvalErrorV {
    EvalErrorV::Internal("invalid input for a table function"@)
}

/// No rows.
pub open spec fn no_rows() -> Seq<UpdateV> {
    Seq::empty()
}

impl TableFunc {
    /// The datums that the function is made for.
    pub open spec fn accepts(self, s: Seq<DatumV>) -> bool {
        match self {
            TableFunc::JsonbEach { stringify } => s.len() >= 1 && (stringify ==> is_jsonb(s[0])),
            TableFunc::JsonbObjectKeys => s.len() >= 1,
            TableFunc::JsonbArrayElements { stringify } => s.len() >= 1 && (stringify ==> is_jsonb(s[0])),
            TableFunc::RegexpExtract(_) => s.len() >= 1 && s[0] is String,
            TableFunc::CsvExtract(_) => s.len() >= 1 && s[0] is String,
            TableFunc::GenerateSeriesInt32 => s.len() >= 3 && s[0] is Int32 && s[1] is Int32 && s[2] is Int32,
            TableFunc::GenerateSeriesInt64 => s.len() >= 3 && s[0] is Int64 && s[1] is Int64 && s[2] is Int64,
            TableFunc::Repeat => s.len() >= 1 && s[0] is Int64,
            TableFunc::UnnestArray { .. } => s.len() >= 1 && s[0] is Array,
            TableFunc::UnnestList { .. } => s.len() >= 1 && s[0] is List,
        }
    }

    /// Whether the rows hold texts of doubles, which the host writes.
    pub open spec fn writes_doubles(self, s: Seq<DatumV>) -> bool {
        match self {
            TableFunc::JsonbEach { stringify } => stringify && has_double(s[0]),
            TableFunc::JsonbArrayElements { stringify } => stringify && has_double(s[0]),
            _ => false,
        }
    }

    /// Whether a row is the one that stands at a place among the rows of
    /// the function, as far as the library writes it alone.
    pub open spec fn row_stands(self, s: Seq<DatumV>, i: int, row: UpdateV) -> bool {
        match self {
            TableFunc::JsonbEach { stringify } => each_row(row, s[0]->Dict_0[i], stringify),
            TableFunc::JsonbArrayElements { stringify } => element_row(row, s[0]->List_0[i], stringify),
            _ => self.rows(s) is Ok && row == self.rows(s)->Ok_0[i],
        }
    }

    /// The rows that the function makes of datums that it accepts, none of
    /// them null.
    pub open spec fn rows(self, s: Seq<DatumV>) -> Result<Seq<UpdateV>, EvalErrorV> {
        match self {
            TableFunc::JsonbEach { stringify } => Ok(jsonb_each_rows(s[0], stringify)),
            TableFunc::JsonbObjectKeys => Ok(jsonb_object_keys_rows(s[0])),
            TableFunc::JsonbArrayElements { stringify } => Ok(jsonb_array_elements_rows(s[0], stringify)),
            TableFunc::RegexpExtract(r) => Ok(regexp_extract_rows(s[0], r.pattern())),
            TableFunc::CsvExtract(n) => Ok(csv_rows(csv_records(s[0]->String_0, false), n)),
            TableFunc::GenerateSeriesInt32 => if s[2]->Int32_0 == 0 {
                Err(zero_step_error())
            } else {
                Ok(series_rows_int32(s[0]->Int32_0, s[1]->Int32_0, s[2]->Int32_0))
            },
            TableFunc::GenerateSeriesInt64 => if s[2]->Int64_0 == 0 {
                Err(zero_step_error())
            } else {
                Ok(series_rows_int64(s[0]->Int64_0, s[1]->Int64_0, s[2]->Int64_0))
            },
            TableFunc::Repeat => Ok(repeat_rows(s[0])),
            TableFunc::UnnestArray { .. } => Ok(unnest_rows(s[0]->elements)),
            TableFunc::UnnestList { .. } => Ok(unnest_rows(s[0]->List_0)),
        }
    }

    /// What the function makes of the datums of one row: no rows where a
    /// datum is null; an internal error for datums that it is not made for;
    /// else its rows.
    pub open spec fn eval_spec(self, s: Seq<DatumV>) -> Result<Seq<UpdateV>, EvalErrorV> {
        if crate::datum::any_null(s) {
            Ok(no_rows())
        } else if !self.accepts(s) {
            Err(bad_input())
        } else {
            self.rows(s)
        }
    }

    /// Evaluates the function on the datums of one row. The rows come
    /// back all at once.
    pub fn eval<F: FloatUnit>(&self, datums: Vec<Datum>, fu: &F) -> (r: Result<Vec<Update>, EvalError>)
        ensures
            !self.writes_doubles(datums_view(datums@)) || crate::datum::any_null(datums_view(datums@))
                || !self.accepts(datums_view(datums@)) ==> match r {
                Ok(rows) => self.eval_spec(datums_view(datums@)) == Ok::<Seq<UpdateV>, EvalErrorV>(
                    updates_view(rows@),
                ),
                Err(e) => self.eval_spec(datums_view(datums@)) == Err::<Seq<UpdateV>, EvalErrorV>(e@),
            },
            crate::datum::any_null(datums_view(datums@)) ==> r is Ok && r->Ok_0@.len() == 0,
            self.writes_doubles(datums_view(datums@)) && !crate::datum::any_null(datums_view(datums@))
                && self.accepts(datums_view(datums@)) ==> r is Ok && self.rows(datums_view(datums@)) is Ok
                && r->Ok_0@.len() == self.rows(datums_view(datums@))->Ok_0.len() && forall|i: int|
                0 <= i < r->Ok_0@.len() ==> self.row_stands(
                    datums_view(datums@),
                    i,
                    #[trigger] updates_view(r->Ok_0@)[i],
                ),
    {
        let ghost s = datums_view(datums@);
        if self.empty_on_null_input() {
            let mut i: usize = 0;
            while i < datums.len()
                invariant
                    i <= datums.len(),
                    s == datums_view(datums@),
                    forall|j: int| 0 <= j < i ==> !((#[trigger] s[j]) is Null),
                decreases datums.len() - i,
            {
                if datums[i].is_null() {
                    assert(s[i as int] is Null);
                    let out: Vec<Update> = Vec::new();
                    assert(updates_view(out@) =~= no_rows());
                    return Ok(out);
                }
                i += 1;
            }
        }
        assert(!crate::datum::any_null(s));
        let n = datums.len();
        match self {
            TableFunc::JsonbEach { stringify } => {
                if n >= 1 && (!*stringify || check_jsonb(&datums[0])) {
                    Ok(jsonb_each(&datums[0], *stringify, fu))
                } else {
                    Err(internal())
                }
            },
            TableFunc::JsonbObjectKeys => {
                if n >= 1 {
                    Ok(jsonb_object_keys(&datums[0]))
                } else {
                    Err(internal())
                }
            },
            TableFunc::JsonbArrayElements { stringify } => {
                if n >= 1 && (!*stringify || check_jsonb(&datums[0])) {
                    Ok(jsonb_array_elements(&datums[0], *stringify, fu))
                } else {
                    Err(internal())
                }
            },
            TableFunc::RegexpExtract(a) => {
                if n >= 1 && datums[0].rank() == 13 {
                    let mut out: Vec<Update> = Vec::new();
                    match regexp_extract(&datums[0], a) {
                        Some((row, m)) => {
                            push_update(&mut out, row, m);
                            assert(updates_view(out@) =~= seq![(row@, m)]);
                        },
                        None => {
                            assert(updates_view(out@) =~= no_rows());
                        },
                    }
                    Ok(out)
                } else {
                    Err(internal())
                }
            },
            TableFunc::CsvExtract(n_cols) => {
                if n >= 1 && datums[0].rank() == 13 {
                    Ok(csv_extract(&datums[0], *n_cols))
                } else {
                    Err(internal())
                }
            },
            TableFunc::GenerateSeriesInt32 => {
                if n >= 3 && datums[0].rank() == 3 && datums[1].rank() == 3 && datums[2].rank() == 3 {
                    generate_series_int32(
                        datums[0].unwrap_int32(),
                        datums[1].unwrap_int32(),
                        datums[2].unwrap_int32(),
                    )
                } else {
                    Err(internal())
                }
            },
            TableFunc::GenerateSeriesInt64 => {
                if n >= 3 && datums[0].rank() == 4 && datums[1].rank() == 4 && datums[2].rank() == 4 {
                    generate_series_int64(
                        datums[0].unwrap_int64(),
                        datums[1].unwrap_int64(),
                        datums[2].unwrap_int64(),
                    )
                } else {
                    Err(internal())
                }
            },
            TableFunc::Repeat => {
                if n >= 1 && datums[0].rank() == 4 {
                    let mut out: Vec<Update> = Vec::new();
                    match repeat(&datums[0]) {
                        Some((row, m)) => {
                            push_update(&mut out, row, m);
                            assert(updates_view(out@) =~= repeat_rows(s[0]));
                        },
                        None => {
                            assert(updates_view(out@) =~= repeat_rows(s[0]));
                        },
                    }
                    Ok(out)
                } else {
                    Err(internal())
                }
            },
            TableFunc::UnnestArray { .. } => {
                if n >= 1 && datums[0].rank() == 14 {
                    Ok(unnest_array(&datums[0]))
                } else {
                    Err(internal())
                }
            },
            TableFunc::UnnestList { .. } => {
                if n >= 1 && datums[0].rank() == 15 {
                    Ok(unnest_list(&datums[0]))
                } else {
                    Err(internal())
                }
            },
        }
    }

    /// The types of the columns of the rows.
    pub open spec fn output_types(self) -> Seq<ColumnTypeV> {
        match self {
            TableFunc::JsonbEach { stringify } => if stringify {
                seq![ScalarTypeV::String.nullable(false), ScalarTypeV::String.nullable(true)]
            } else {
                seq![ScalarTypeV::String.nullable(false), ScalarTypeV::Jsonb.nullable(false)]
            },
            TableFunc::JsonbObjectKeys => seq![ScalarTypeV::String.nullable(false)],
            TableFunc::JsonbArrayElements { stringify } => if stringify {
                seq![ScalarTypeV::String.nullable(true)]
            } else {
                seq![ScalarTypeV::Jsonb.nullable(false)]
            },
            TableFunc::RegexpExtract(a) => Seq::new(
                a.groups().len(),
                |i: int| ScalarTypeV::String.nullable(a.groups()[i].nullable),
            ),
            TableFunc::CsvExtract(n) => Seq::new(n as nat, |i: int| ScalarTypeV::String.nullable(false)),
            TableFunc::GenerateSeriesInt32 => seq![ScalarTypeV::Int32.nullable(false)],
            TableFunc::GenerateSeriesInt64 => seq![ScalarTypeV::Int64.nullable(false)],
            TableFunc::Repeat => Seq::empty(),
            TableFunc::UnnestArray { el_typ } => seq![el_typ@.nullable(true)],
            TableFunc::UnnestList { el_typ } => seq![el_typ@.nullable(true)],
        }
    }

    /// The type of the rows. It depends on the function alone, never on the
    /// datums.
    pub fn output_type(&self) -> (r: RelationType)
        ensures
            r.types() == self.output_types(),
            r.key_sets() == Seq::<Seq<usize>>::empty(),
    {
        let mut types: Vec<ColumnType> = Vec::new();
        match self {
            TableFunc::JsonbEach { stringify } => {
                types.push(ScalarType::String.nullable(false));
                if *stringify {
                    types.push(ScalarType::String.nullable(true));
                } else {
                    types.push(ScalarType::Jsonb.nullable(false));
                }
            },
            TableFunc::JsonbObjectKeys => {
                types.push(ScalarType::String.nullable(false));
            },
            TableFunc::JsonbArrayElements { stringify } => {
                if *stringify {
                    types.push(ScalarType::String.nullable(true));
                } else {
                    types.push(ScalarType::Jsonb.nullable(false));
                }
            },
            TableFunc::RegexpExtract(a) => {
                let groups = a.capture_groups_iter();
                let mut i: usize = 0;
                while i < groups.len()
                    invariant
                        i <= groups.len(),
                        groups@.len() == a.groups().len(),
                        forall|j: int| 0 <= j < groups@.len() ==> *(#[trigger] groups@[j]) == a.groups()[j],
                        types.len() == i,
                        forall|j: int|
                            0 <= j < i ==> (#[trigger] types@[j])@ == ScalarTypeV::String.nullable(
                                a.groups()[j].nullable,
                            ),
                    decreases groups.len() - i,
                {
                    types.push(ScalarType::String.nullable(groups[i].nullable));
                    i += 1;
                }
            },
            TableFunc::CsvExtract(n_cols) => {
                let mut i: usize = 0;
                while i < *n_cols
                    invariant
                        i <= *n_cols,
                        types.len() == i,
                        forall|j: int| 0 <= j < i ==> (#[trigger] types@[j])@ == ScalarTypeV::String.nullable(false),
                    decreases *n_cols - i,
                {
                    types.push(ScalarType::String.nullable(false));
                    i += 1;
                }
            },
            TableFunc::GenerateSeriesInt32 => {
                types.push(ScalarType::Int32.nullable(false));
            },
            TableFunc::GenerateSeriesInt64 => {
                types.push(ScalarType::Int64.nullable(false));
            },
            TableFunc::Repeat => {},
            TableFunc::UnnestArray { el_typ } => {
                types.push(el_typ.clone().nullable(true));
            },
            TableFunc::UnnestList { el_typ } => {
                types.push(el_typ.clone().nullable(true));
            },
        }
        assert(column_types_view(types@) =~= self.output_types());
        RelationType::new(types)
    }

    /// The number of columns of the rows.
    pub fn output_arity(&self) -> (r: usize)
        ensures
            r == self.output_types().len(),
    {
        match self {
            TableFunc::JsonbEach { .. } => 2,
            TableFunc::JsonbObjectKeys => 1,
            TableFunc::JsonbArrayElements { .. } => 1,
            TableFunc::RegexpExtract(a) => a.capture_groups_len(),
            TableFunc::CsvExtract(n_cols) => *n_cols,
            TableFunc::GenerateSeriesInt32 => 1,
            TableFunc::GenerateSeriesInt64 => 1,
            TableFunc::Repeat => 0,
            TableFunc::UnnestArray { .. } => 1,
            TableFunc::UnnestList { .. } => 1,
        }
    }

    /// Whether the function gives no rows where a datum is null. Every
    /// function does.
    pub fn empty_on_null_input(&self) -> (r: bool)
        ensures
            r,
    {
        match self {
            TableFunc::JsonbEach { .. }
            | TableFunc::JsonbObjectKeys
            | TableFunc::JsonbArrayElements { .. }
            | TableFunc::GenerateSeriesInt32
            | TableFunc::GenerateSeriesInt64
            | TableFunc::RegexpExtract(_)
            | TableFunc::CsvExtract(_)
            | TableFunc::Repeat
            | TableFunc::UnnestArray { .. }
            | TableFunc::UnnestList { .. } => true,
        }
    }

    /// Whether the function keeps the append-only property of its input:
    /// whether every multiplicity that it gives is positive.
    pub fn preserves_monotonicity(&self) -> (r: bool)
        ensures
            r == !(self is Repeat),
    {
        match self {
            TableFunc::JsonbEach { .. } => true,
            TableFunc::JsonbObjectKeys => true,
            TableFunc::JsonbArrayElements { .. } => true,
            TableFunc::RegexpExtract(_) => true,
            TableFunc::CsvExtract(_) => true,
            TableFunc::GenerateSeriesInt32 => true,
            TableFunc::GenerateSeriesInt64 => true,
            TableFunc::Repeat => false,
            TableFunc::UnnestArray { .. } => true,
            TableFunc::UnnestList { .. } => true,
        }
    }

    /// The name under which the function is shown.
    pub fn name(&self) -> (r: &'static str)
        ensures
            r@ == self.name_spec(),
    {
        match self {
            TableFunc::JsonbEach { .. } => "jsonb_each",
            TableFunc::JsonbObjectKeys => "jsonb_object_keys",
            TableFunc::JsonbArrayElements { .. } => "jsonb_array_elements",
            TableFunc::RegexpExtract(_) => "regexp_extract",
            TableFunc::CsvExtract(_) => "csv_extract",
            TableFunc::GenerateSeriesInt32 => "generate_series",
            TableFunc::GenerateSeriesInt64 => "generate_series",
            TableFunc::Repeat => "repeat_row",
            TableFunc::UnnestArray { .. } => "unnest_array",
            TableFunc::UnnestList { .. } => "unnest_list",
        }
    }

    /// The name under which the function is shown.
    pub open spec fn name_spec(self) -> Seq<char> {
        match self {
            TableFunc::JsonbEach { .. } => "jsonb_each"@,
            TableFunc::JsonbObjectKeys => "jsonb_object_keys"@,
            TableFunc::JsonbArrayElements { .. } => "jsonb_array_elements"@,
            TableFunc::RegexpExtract(_) => "regexp_extract"@,
            TableFunc::CsvExtract(_) => "csv_extract"@,
            TableFunc::GenerateSeriesInt32 => "generate_series"@,
            TableFunc::GenerateSeriesInt64 => "generate_series"@,
            TableFunc::Repeat => "repeat_row"@,
            TableFunc::UnnestArray { .. } => "unnest_array"@,
            TableFunc::UnnestList { .. } => "unnest_list"@,
        }
    }
}

/// The internal error for datums that a table function is not made for.
fn internal() -> (r: EvalError)
    ensures
        r@ == bad_input(),
{
    EvalError::Internal("invalid input for a table function".to_owned())
}

/// A function that keeps the append-only property gives no multiplicity
/// that is not positive: every multiplicity among its rows is 1.
pub proof fn lemma_monotonic_rows(f: TableFunc, s: Seq<DatumV>)
    requires
        !(f is Repeat),
        f.eval_spec(s) is Ok,
    ensures
        forall|i: int| 0 <= i < f.eval_spec(s)->Ok_0.len() ==> (#[trigger] f.eval_spec(s)->Ok_0[i]).1 == 1,
{
    if !crate::datum::any_null(s) && f.accepts(s) {
        match f {
            TableFunc::CsvExtract(n) => {
                lemma_csv_rows_once(csv_records(s[0]->String_0, false), n);
            },
            _ => {},
        }
    }
}

/// Each row of a CSV text comes once.
pub proof fn lemma_csv_rows_once(records: Seq<Option<Seq<Seq<char>>>>, n_cols: usize)
    ensures
        forall|i: int| 0 <= i < csv_rows(records, n_cols).len() ==> (#[trigger] csv_rows(records, n_cols)[i]).1 == 1,
    decreases records.len(),
{
    if records.len() > 0 {
        lemma_csv_rows_once(records.drop_last(), n_cols);
        let rest = csv_rows(records.drop_last(), n_cols);
        let all = csv_rows(records, n_cols);
        assert forall|i: int| 0 <= i < all.len() implies (#[trigger] all[i]).1 == 1 by {
            if i < rest.len() {
                assert(all[i] == rest[i]);
            }
        }
    }
}

/// A function gives no rows where a datum is null.
pub proof fn lemma_empty_on_null(f: TableFunc, s: Seq<DatumV>)
    requires
        crate::datum::any_null(s),
    ensures
        f.eval_spec(s) == Ok::<Seq<UpdateV>, EvalErrorV>(Seq::empty()),
{
}

} // verus!
