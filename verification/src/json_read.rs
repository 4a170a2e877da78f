//! Reading JSON texts. The text is read by `serde_json`, which hands back
//! a value of its own. The library walks that value: it decides between
//! integers and doubles, and puts the members of each object in the order
//! of their keys.

use vstd::prelude::*;
use crate::datum::{datums_view, pairs_view, Datum, DatumV};
use crate::func_jsonb::push_datum;
use crate::pairs::{dedup_keep_last, keep_last, pairs_sorted, sort_pairs, PairV};

verus! {

/// How deep the arrays and objects of a JSON text may be nested to be
/// read.
pub const JSON_MAX_DEPTH: usize = 256;

/// A JSON value as `serde_json` holds it. A number comes as the integer
/// of 64 bits that it is, if it is one, and as the bits of the double that
/// it is, if it is one.
pub enum JsonV {
    Null,
    Bool(bool),
    Number(Option<i64>, Option<u64>),
    Text(Seq<char>),
    Array(Seq<JsonV>),
    Object(Seq<(Seq<char>, JsonV)>),
}

/// `serde_json::Value`, declared so that the library can carry one.
/// Nothing of what is inside it is seen but through the calls below.
#[verifier::external_type_specification]
#[verifier::external_body]
pub struct ExJsonValue(serde_json::Value);

/// What a `serde_json::Value` holds.
pub uninterp spec fn json_holds(v: serde_json::Value) -> JsonV;

/// What `serde_json::from_str` reads from a text: nothing for a text that
/// is no JSON text.
pub uninterp spec fn json_read(text: Seq<char>) -> Option<JsonV>;

/// What each of several values holds.
pub open spec fn all_hold(v: Seq<serde_json::Value>) -> Seq<JsonV> {
    Seq::new(v.len(), |i: int| json_holds(v[i]))
}

/// The keys of members with what their values hold.
pub open spec fn members_hold(v: Seq<(String, serde_json::Value)>) -> Seq<(Seq<char>, JsonV)> {
    Seq::new(v.len(), |i: int| (v[i].0@, json_holds(v[i].1)))
}

/// Calls `serde_json::from_str` for a `serde_json::Value`. The contract
/// claims that the outcome is a function of the text: that a value is
/// read from the text or that none is, and what the value holds.
#[verifier::external_body]
pub(crate) fn read_value(s: &str) -> (r: Option<serde_json::Value>)
    ensures
        json_read(s@) == match r {
            Some(v) => Some(json_holds(v)),
            None => None::<JsonV>,
        },
{
    serde_json::from_str::<serde_json::Value>(s).ok()
}

/// Calls `serde_json::Value::is_null`. The contract claims that it tells
/// whether the value is the JSON null.
#[verifier::external_body]
pub(crate) fn value_is_null(v: &serde_json::Value) -> (r: bool)
    ensures
        r == (json_holds(*v) is Null),
{
    v.is_null()
}

/// Calls `serde_json::Value::as_bool`. The contract claims that it gives
/// the boolean that the value is, and nothing for any other value.
#[verifier::external_body]
pub(crate) fn value_bool(v: &serde_json::Value) -> (r: Option<bool>)
    ensures
        r == match json_holds(*v) {
            JsonV::Bool(b) => Some(b),
            _ => None,
        },
{
    v.as_bool()
}

/// Calls `serde_json::Value::as_i64`. The contract claims that it gives
/// the integer that a number is, and nothing for any other value; which
/// numbers are integers of 64 bits is left to `serde_json`.
#[verifier::external_body]
pub(crate) fn value_int(v: &serde_json::Value) -> (r: Option<i64>)
    ensures
        r == match json_holds(*v) {
            JsonV::Number(i, _) => i,
            _ => None,
        },
{
    v.as_i64()
}

/// Calls `serde_json::Value::as_f64` and takes the bits of the double.
/// The contract claims that it gives the double that a number is, and
/// nothing for any other value; which double a number is is left to
/// `serde_json`.
#[verifier::external_body]
pub(crate) fn value_double(v: &serde_json::Value) -> (r: Option<u64>)
    ensures
        r == match json_holds(*v) {
            JsonV::Number(_, d) => d,
            _ => None,
        },
{
    v.as_f64().map(|x| x.to_bits())
}

/// Calls `serde_json::Value::as_str` and copies the text. The contract
/// claims that it gives the text that the value is, and nothing for any
/// other value.
#[verifier::external_body]
pub(crate) fn value_text(v: &serde_json::Value) -> (r: Option<String>)
    ensures
        r is Some <==> json_holds(*v) is Text,
        r is Some ==> r->0@ == json_holds(*v)->Text_0,
{
    v.as_str().map(|t| t.to_owned())
}

/// Calls `serde_json::Value::as_array`. The contract claims that it
/// gives the elements of an array in their order, and nothing for any
/// other value.
#[verifier::external_body]
pub(crate) fn value_elements(v: &serde_json::Value) -> (r: Option<&Vec<serde_json::Value>>)
    ensures
        r is Some <==> json_holds(*v) is Array,
        r is Some ==> all_hold(r->0@) == json_holds(*v)->Array_0,
{
    v.as_array()
}

/// Calls `serde_json::Value::as_object` and copies the members out in
/// the order in which the object hands them out. The contract claims that
/// it gives the keys of an object with their values, and nothing for any
/// other value.
#[verifier::external_body]
pub(crate) fn value_members(v: &serde_json::Value) -> (r: Option<Vec<(String, serde_json::Value)>>)
    ensures
        r is Some <==> json_holds(*v) is Object,
        r is Some ==> members_hold(r->0@) == json_holds(*v)->Object_0,
{
    v.as_object().map(|o| o.iter().map(|(k, e)| (k.clone(), e.clone())).collect())
}

/// The datum that a JSON value is, if it is nested less than `depth`
/// levels deep: a number that is an integer of 64 bits is that integer,
/// and any other number the double that it is; the members of an object
/// stand in the order of their keys, and of several members with one key
/// the last stays.
pub open spec fn tree_datum(t: JsonV, depth: nat) -> Option<DatumV>
    decreases depth, 0nat,
{
    if depth == 0 {
        None
    } else {
        match t {
            JsonV::Null => Some(DatumV::JsonNull),
            JsonV::Bool(b) => Some(DatumV::from_bool(b)),
            JsonV::Number(i, d) => match i {
                Some(n) => Some(DatumV::Int64(n)),
                None => match d {
                    Some(bits) => Some(DatumV::Float64(bits)),
                    None => None,
                },
            },
            JsonV::Text(t) => Some(DatumV::String(t)),
            JsonV::Array(items) => match json_elements(items, (depth - 1) as nat, items.len()) {
                Some(v) => Some(DatumV::List(v)),
                None => None,
            },
            JsonV::Object(members) => match json_members(members, (depth - 1) as nat, members.len()) {
                Some(m) => Some(DatumV::Dict(dedup_keep_last(pairs_sorted(m)))),
                None => None,
            },
        }
    }
}

/// The JSON value that a text denotes, if it denotes one that is nested
/// less than `depth` levels deep.
pub open spec fn json_datum(text: Seq<char>, depth: nat) -> Option<DatumV> {
    match json_read(text) {
        Some(t) => tree_datum(t, depth),
        None => None,
    }
}

/// The datums that the first `n` values are, if each is one.
pub open spec fn json_elements(items: Seq<JsonV>, depth: nat, n: nat) -> Option<Seq<DatumV>>
    decreases depth, n + 1,
{
    if n == 0 || n > items.len() {
        Some(Seq::empty())
    } else {
        match json_elements(items, depth, (n - 1) as nat) {
            None => None,
            Some(v) => match tree_datum(items[n - 1], depth) {
                None => None,
                Some(d) => Some(v.push(d)),
            },
        }
    }
}

/// The first `n` keys with the datums that the values beside them are,
/// if each is one.
pub open spec fn json_members(members: Seq<(Seq<char>, JsonV)>, depth: nat, n: nat) -> Option<Seq<PairV>>
    decreases depth, n + 1,
{
    if n == 0 || n > members.len() {
        Some(Seq::empty())
    } else {
        match json_members(members, depth, (n - 1) as nat) {
            None => None,
            Some(v) => match tree_datum(members[n - 1].1, depth) {
                None => None,
                Some(d) => Some(v.push((members[n - 1].0, d))),
            },
        }
    }
}

/// Where one of the first values is no datum, all of them together are
/// none.
proof fn lemma_elements_none(items: Seq<JsonV>, depth: nat, k: nat, n: nat)
    requires
        k <= n <= items.len(),
        json_elements(items, depth, k) is None,
    ensures
        json_elements(items, depth, n) is None,
    decreases n,
{
    if k < n {
        lemma_elements_none(items, depth, k, (n - 1) as nat);
    }
}

/// Where the value of one of the first members is no datum, all of them
/// together are none.
proof fn lemma_members_none(members: Seq<(Seq<char>, JsonV)>, depth: nat, k: nat, n: nat)
    requires
        k <= n <= members.len(),
        json_members(members, depth, k) is None,
    ensures
        json_members(members, depth, n) is None,
    decreases n,
{
    if k < n {
        lemma_members_none(members, depth, k, (n - 1) as nat);
    }
}

/// The view of a datum, where there is one.
pub open spec fn opt_view(r: Option<Datum>) -> Option<DatumV> {
    match r {
        Some(d) => Some(d@),
        None => None,
    }
}

/// The datum that a value of `serde_json` is, if it is nested less than
/// `depth` levels deep.
#[verifier::loop_isolation(false)]
pub(crate) fn datum_of_value(value: &serde_json::Value, depth: usize) -> (r: Option<Datum>)
    ensures
        opt_view(r) == tree_datum(json_holds(*value), depth as nat),
    decreases depth,
{
    if depth == 0 {
        return None;
    }
    if value_is_null(value) {
        return Some(Datum::JsonNull);
    }
    if let Some(b) = value_bool(value) {
        return Some(Datum::from_bool(b));
    }
    if let Some(n) = value_int(value) {
        return Some(Datum::Int64(n));
    }
    if let Some(bits) = value_double(value) {
        return Some(Datum::Float64(bits));
    }
    if let Some(t) = value_text(value) {
        return Some(Datum::String(t));
    }
    if let Some(items) = value_elements(value) {
        let ghost tv = all_hold(items@);
        let mut out: Vec<Datum> = Vec::new();
        let mut i: usize = 0;
        assert(datums_view(out@) =~= Seq::<DatumV>::empty());
        while i < items.len()
            invariant
                i <= items@.len(),
                depth > 0,
                tv == all_hold(items@),
                json_elements(tv, (depth - 1) as nat, i as nat) == Some(datums_view(out@)),
            decreases items.len() - i,
        {
            match datum_of_value(&items[i], depth - 1) {
                Some(d) => {
                    push_datum(&mut out, d);
                },
                None => {
                    proof {
                        assert(json_elements(tv, (depth - 1) as nat, (i + 1) as nat) is None);
                        lemma_elements_none(tv, (depth - 1) as nat, (i + 1) as nat, tv.len());
                    }
                    return None;
                },
            }
            i += 1;
        }
        return Some(Datum::list(out));
    }
    match value_members(value) {
        Some(members) => {
            let ghost mv = members_hold(members@);
            let mut out: Vec<(String, Datum)> = Vec::new();
            let mut i: usize = 0;
            assert(pairs_view(out@) =~= Seq::<PairV>::empty());
            while i < members.len()
                invariant
                    i <= members@.len(),
                    depth > 0,
                    mv == members_hold(members@),
                    json_members(mv, (depth - 1) as nat, i as nat) == Some(pairs_view(out@)),
                decreases members.len() - i,
            {
                let ghost before = pairs_view(out@);
                match datum_of_value(&members[i].1, depth - 1) {
                    Some(d) => {
                        let ghost dv = d@;
                        out.push((members[i].0.clone(), d));
                        assert(pairs_view(out@) =~= before.push((mv[i as int].0, dv)));
                    },
                    None => {
                        proof {
                            assert(json_members(mv, (depth - 1) as nat, (i + 1) as nat) is None);
                            lemma_members_none(mv, (depth - 1) as nat, (i + 1) as nat, mv.len());
                        }
                        return None;
                    },
                }
                i += 1;
            }
            Some(Datum::dict(keep_last(sort_pairs(&out))))
        },
        None => None,
    }
}

/// The JSON value that a text denotes, if it denotes one that is nested
/// less than `depth` levels deep.
pub fn datum_of_json(text: &str, depth: usize) -> (r: Option<Datum>)
    ensures
        opt_view(r) == json_datum(text@, depth as nat),
{
    match read_value(text) {
        Some(v) => datum_of_value(&v, depth),
        None => None,
    }
}

} // verus!
