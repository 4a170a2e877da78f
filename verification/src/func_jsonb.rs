//! Functions on JSON values and on maps.

use vstd::prelude::*;
use crate::datum::{any_null, clone_datums, datums_view, pairs_view, res_view, ArrayDimension, Datum, DatumV};
use crate::error::{EvalError, EvalErrorV};
use crate::float::FloatUnit;
use crate::float_round::rounded_double;
use crate::func_int::{int16_or, int32_or, int64_or};
use crate::json_read::{datum_of_json, json_datum, JSON_MAX_DEPTH};
use crate::jsonb::{format_jsonb, has_double, is_jsonb, jsonb_stringify, jsonb_text, stringify_spec, keys_ascend};
use crate::order::{datum_eq, float64_key, float64_place};
use crate::pairs::{dedup_keep_first, find_key, keep_first, lookup, pairs_sorted, same_text, sort_pairs, PairV};
use crate::strings::{parse_int, parse_int_spec};

verus! {

/// The element of a list at a place counted from 0, or from the end for a
/// negative place; null where there is none.
pub open spec fn element_at(v: Seq<DatumV>, i: int) -> DatumV {
    let k = if i >= 0 {
        i
    } else {
        v.len() + i
    };
    if 0 <= k < v.len() {
        v[k]
    } else {
        DatumV::Null
    }
}

/// The element of a list at a place counted from 0, or from the end.
pub fn get_element(v: &Vec<Datum>, i: i64) -> (r: Datum)
    ensures
        r@ == element_at(datums_view(v@), i as int),
{
    let n = v.len() as i128;
    let k: i128 = if i >= 0 {
        i as i128
    } else {
        n + i as i128
    };
    if 0 <= k && k < n {
        v[k as usize].clone()
    } else {
        Datum::Null
    }
}

/// A JSON value as a text where that is asked for; null stays null.
pub open spec fn maybe_stringify(d: DatumV, stringify: bool) -> DatumV {
    if stringify && !(d is Null) {
        stringify_spec(d)
    } else {
        d
    }
}

/// Turns a datum into a text where that is asked for and the datum is a
/// JSON value.
fn stringify_if<F: FloatUnit>(d: Datum, stringify: bool, fu: &F) -> (r: Datum)
    requires
        stringify ==> d@ is Null || is_jsonb(d@),
    ensures
        !(stringify && has_double(d@)) ==> r@ == maybe_stringify(d@, stringify),
        stringify && has_double(d@) ==> r@ is String,
{
    if stringify && !d.is_null() {
        jsonb_stringify(&d, fu)
    } else {
        d
    }
}

pub open spec fn jsonb_get_int64_spec(a: DatumV, i: int, stringify: bool) -> DatumV {
    match a {
        DatumV::List(v) => maybe_stringify(element_at(v, i), stringify),
        DatumV::Dict(_) => DatumV::Null,
        _ => if i == 0 || i == -1 {
            maybe_stringify(a, stringify)
        } else {
            DatumV::Null
        },
    }
}

/// The element of a JSON array at a place; a JSON value that is no array
/// nor object is its own one element. As a text it is the host's only
/// where the element itself holds a double.
pub fn jsonb_get_int64<F: FloatUnit>(a: &Datum, b: &Datum, stringify: bool, fu: &F) -> (r: Datum)
    requires
        is_jsonb(a@),
        b@ is Int64,
    ensures
        !(stringify && has_double(jsonb_get_int64_spec(a@, b@->Int64_0 as int, false))) ==> r@
            == jsonb_get_int64_spec(a@, b@->Int64_0 as int, stringify),
        stringify && has_double(jsonb_get_int64_spec(a@, b@->Int64_0 as int, false)) ==> r@ is String,
{
    let i = b.unwrap_int64();
    proof {
        crate::jsonb::lemma_jsonb_unfold(a@);
    }
    match a {
        Datum::List(_) => {
            let list = a.unwrap_list();
            let d = get_element(list, i);
            proof {
                let v = datums_view(list@);
                if !(d@ is Null) {
                    let k = if i >= 0 {
                        i as int
                    } else {
                        v.len() + i
                    };
                    assert(d@ == v[k]);
                    assert(is_jsonb(v[k]));
                }
            }
            stringify_if(d, stringify, fu)
        },
        Datum::Dict(_) => Datum::Null,
        _ => {
            if i == 0 || i == -1 {
                stringify_if(a.clone(), stringify, fu)
            } else {
                Datum::Null
            }
        },
    }
}

pub open spec fn jsonb_get_string_spec(a: DatumV, key: Seq<char>, stringify: bool) -> DatumV {
    match a {
        DatumV::Dict(v) => match lookup(v, key) {
            Some(d) => maybe_stringify(d, stringify),
            None => DatumV::Null,
        },
        _ => DatumV::Null,
    }
}

/// A value of a map is among the values of its pairs.
pub proof fn lemma_lookup_member(v: Seq<PairV>, key: Seq<char>)
    ensures
        lookup(v, key) is Some ==> exists|i: int| 0 <= i < v.len() && (#[trigger] v[i]).1 == lookup(v, key)->0,
    decreases v.len(),
{
    if v.len() > 0 && v[0].0 != key {
        lemma_lookup_member(v.drop_first(), key);
        if lookup(v, key) is Some {
            let i = choose|i: int| 0 <= i < v.drop_first().len() && (#[trigger] v.drop_first()[i]).1 == lookup(v, key)->0;
            assert(v[i + 1].1 == lookup(v, key)->0);
        }
    } else if v.len() > 0 {
        assert(v[0].1 == lookup(v, key)->0);
    }
}

/// The member of a JSON object with the given key.
pub fn jsonb_get_string<F: FloatUnit>(a: &Datum, b: &Datum, stringify: bool, fu: &F) -> (r: Datum)
    requires
        is_jsonb(a@),
        b@ is String,
    ensures
        !(stringify && has_double(jsonb_get_string_spec(a@, b@->String_0, false))) ==> r@ == jsonb_get_string_spec(
            a@,
            b@->String_0,
            stringify,
        ),
        stringify && has_double(jsonb_get_string_spec(a@, b@->String_0, false)) ==> r@ is String,
{
    let k = b.unwrap_str();
    proof {
        crate::jsonb::lemma_jsonb_unfold(a@);
    }
    match a {
        Datum::Dict(_) => {
            let dict = a.unwrap_map();
            match find_key(dict, k) {
                Some(v) => {
                    proof {
                        lemma_lookup_member(pairs_view(dict@), k@);
                        let i = choose|i: int|
                            0 <= i < pairs_view(dict@).len() && (#[trigger] pairs_view(dict@)[i]).1 == v@;
                        assert(is_jsonb(pairs_view(dict@)[i].1));
                    }
                    stringify_if(v.clone(), stringify, fu)
                },
                None => Datum::Null,
            }
        },
        _ => Datum::Null,
    }
}

/// What is left of a JSON value when one follows a path of keys into it:
/// into an object by the key, into an array by the integer that the key
/// denotes. Null where the path leads nowhere.
pub open spec fn follow_path(json: DatumV, path: Seq<DatumV>, i: int) -> DatumV
    decreases path.len() - i,
{
    if i < 0 || i >= path.len() {
        json
    } else {
        match path[i] {
            DatumV::String(key) => match json {
                DatumV::Dict(v) => match lookup(v, key) {
                    Some(d) => follow_path(d, path, i + 1),
                    None => DatumV::Null,
                },
                DatumV::List(v) => match parse_int_spec(key) {
                    Some(n) => if i64::MIN <= n <= i64::MAX {
                        follow_path(element_at(v, n), path, i + 1)
                    } else {
                        DatumV::Null
                    },
                    None => DatumV::Null,
                },
                _ => DatumV::Null,
            },
            _ => DatumV::Null,
        }
    }
}

/// Whether each datum is null or a text.
pub open spec fn each_text_or_null(s: Seq<DatumV>) -> bool {
    forall|i: int| 0 <= i < s.len() ==> (#[trigger] s[i]) is Null || s[i] is String
}

/// Follows a path of keys into a JSON value. The keys are the elements of
/// an array, each a text or null.
#[verifier::loop_isolation(false)]
pub fn jsonb_get_path<F: FloatUnit>(a: &Datum, b: &Datum, stringify: bool, fu: &F) -> (r: Datum)
    requires
        is_jsonb(a@),
        b@ is Array,
        each_text_or_null(b@->elements),
    ensures
        !(stringify && has_double(follow_path(a@, b@->elements, 0))) ==> r@ == maybe_stringify(
            follow_path(a@, b@->elements, 0),
            stringify,
        ),
        stringify && has_double(follow_path(a@, b@->elements, 0)) ==> r@ is String,
{
    let path = b.unwrap_array_elements();
    let ghost p = datums_view(path@);
    let mut json: Datum = a.clone();
    let mut i: usize = 0;
    while i < path.len()
        invariant
            i <= path.len(),
            p == datums_view(path@),
            each_text_or_null(p),
            is_jsonb(json@) || json@ is Null,
            follow_path(a@, p, 0) == follow_path(json@, p, i as int),
        decreases path.len() - i,
    {
        assert(p[i as int] is Null || p[i as int] is String);
        if path[i].is_null() {
            return Datum::Null;
        }
        let key = path[i].unwrap_str();
        proof {
            crate::jsonb::lemma_jsonb_unfold(json@);
        }
        let next: Datum = match &json {
            Datum::Dict(_) => {
                let dict = json.unwrap_map();
                match find_key(dict, key) {
                    Some(v) => {
                        proof {
                            lemma_lookup_member(pairs_view(dict@), key@);
                            let k = choose|k: int|
                                0 <= k < pairs_view(dict@).len() && (#[trigger] pairs_view(dict@)[k]).1 == v@;
                            assert(is_jsonb(pairs_view(dict@)[k].1));
                        }
                        v.clone()
                    },
                    None => {
                        return Datum::Null;
                    },
                }
            },
            Datum::List(_) => {
                let list = json.unwrap_list();
                match parse_int(key, i64::MIN, i64::MAX) {
                    Some(n) => {
                        let d = get_element(list, n);
                        proof {
                            let v = datums_view(list@);
                            if !(d@ is Null) {
                                let k = if n >= 0 {
                                    n as int
                                } else {
                                    v.len() + n
                                };
                                assert(d@ == v[k]);
                                assert(is_jsonb(v[k]));
                            }
                        }
                        d
                    },
                    None => {
                        return Datum::Null;
                    },
                }
            },
            _ => {
                return Datum::Null;
            },
        };
        json = next;
        i += 1;
    }
    stringify_if(json, stringify, fu)
}

pub open spec fn jsonb_contains_string_spec(a: DatumV, b: DatumV) -> bool {
    match a {
        DatumV::List(v) => exists|i: int| 0 <= i < v.len() && datum_eq(b, #[trigger] v[i]),
        DatumV::Dict(v) => lookup(v, b->String_0) is Some,
        DatumV::String(s) => s == b->String_0,
        _ => false,
    }
}

/// Whether any of the datums equals the given one.
pub fn contains_datum(v: &Vec<Datum>, d: &Datum) -> (r: bool)
    ensures
        r == exists|i: int| 0 <= i < v@.len() && datum_eq(d@, #[trigger] datums_view(v@)[i]),
{
    let mut i: usize = 0;
    while i < v.len()
        invariant
            i <= v.len(),
            forall|j: int| 0 <= j < i ==> !datum_eq(d@, #[trigger] datums_view(v@)[j]),
        decreases v.len() - i,
    {
        if d.equals(&v[i]) {
            assert(datum_eq(d@, datums_view(v@)[i as int]));
            return true;
        }
        i += 1;
    }
    false
}

/// Whether a text is an element of a JSON array, a key of a JSON object,
/// or a JSON text itself.
pub fn jsonb_contains_string(a: &Datum, b: &Datum) -> (r: Datum)
    requires
        b@ is String,
    ensures
        r@ == DatumV::from_bool(jsonb_contains_string_spec(a@, b@)),
{
    match a {
        Datum::List(_) => Datum::from_bool(contains_datum(a.unwrap_list(), b)),
        Datum::Dict(_) => Datum::from_bool(find_key(a.unwrap_map(), b.unwrap_str()).is_some()),
        Datum::String(s) => Datum::from_bool(same_text(s.as_str(), b.unwrap_str())),
        _ => Datum::False,
    }
}

/// Whether a map has the key.
pub fn map_contains_key(a: &Datum, b: &Datum) -> (r: Datum)
    requires
        a@ is Dict,
        b@ is String,
    ensures
        r@ == DatumV::from_bool(lookup(a@->Dict_0, b@->String_0) is Some),
{
    Datum::from_bool(find_key(a.unwrap_map(), b.unwrap_str()).is_some())
}

/// Whether a datum is a text that is a key of the map.
pub open spec fn is_key_of(map: Seq<PairV>, key: DatumV) -> bool {
    key is String && lookup(map, key->String_0) is Some
}

/// Whether a map has every one of the keys. A null among the keys is a key
/// of no map.
#[verifier::loop_isolation(false)]
pub fn map_contains_all_keys(a: &Datum, b: &Datum) -> (r: Datum)
    requires
        a@ is Dict,
        b@ is Array,
        each_text_or_null(b@->elements),
    ensures
        r@ == DatumV::from_bool(
            forall|i: int| 0 <= i < b@->elements.len() ==> is_key_of(a@->Dict_0, #[trigger] b@->elements[i]),
        ),
{
    let map = a.unwrap_map();
    let keys = b.unwrap_array_elements();
    let ghost ks = datums_view(keys@);
    let mut i: usize = 0;
    while i < keys.len()
        invariant
            i <= keys.len(),
            ks == datums_view(keys@),
            each_text_or_null(ks),
            forall|j: int| 0 <= j < i ==> is_key_of(pairs_view(map@), #[trigger] ks[j]),
        decreases keys.len() - i,
    {
        assert(ks[i as int] is Null || ks[i as int] is String);
        if keys[i].is_null() || find_key(map, keys[i].unwrap_str()).is_none() {
            assert(!is_key_of(pairs_view(map@), ks[i as int]));
            return Datum::False;
        }
        i += 1;
    }
    Datum::True
}

/// Whether a map has any one of the keys.
#[verifier::loop_isolation(false)]
pub fn map_contains_any_keys(a: &Datum, b: &Datum) -> (r: Datum)
    requires
        a@ is Dict,
        b@ is Array,
        each_text_or_null(b@->elements),
    ensures
        r@ == DatumV::from_bool(
            exists|i: int| 0 <= i < b@->elements.len() && is_key_of(a@->Dict_0, #[trigger] b@->elements[i]),
        ),
{
    let map = a.unwrap_map();
    let keys = b.unwrap_array_elements();
    let ghost ks = datums_view(keys@);
    let mut i: usize = 0;
    while i < keys.len()
        invariant
            i <= keys.len(),
            ks == datums_view(keys@),
            each_text_or_null(ks),
            forall|j: int| 0 <= j < i ==> !is_key_of(pairs_view(map@), #[trigger] ks[j]),
        decreases keys.len() - i,
    {
        assert(ks[i as int] is Null || ks[i as int] is String);
        if !keys[i].is_null() && find_key(map, keys[i].unwrap_str()).is_some() {
            assert(is_key_of(pairs_view(map@), ks[i as int]));
            return Datum::True;
        }
        i += 1;
    }
    Datum::False
}

/// Whether a map has a pair of the key with a value equal to the datum.
pub open spec fn has_pair(map: Seq<PairV>, key: Seq<char>, value: DatumV) -> bool {
    exists|i: int| 0 <= i < map.len() && (#[trigger] map[i]).0 == key && datum_eq(map[i].1, value)
}

/// Whether a map has a pair of the key with a value equal to the datum.
pub fn find_pair(map: &Vec<(String, Datum)>, key: &str, value: &Datum) -> (r: bool)
    ensures
        r == has_pair(pairs_view(map@), key@, value@),
{
    let ghost m = pairs_view(map@);
    let mut i: usize = 0;
    while i < map.len()
        invariant
            i <= map.len(),
            m == pairs_view(map@),
            forall|j: int| 0 <= j < i ==> !((#[trigger] m[j]).0 == key@ && datum_eq(m[j].1, value@)),
        decreases map.len() - i,
    {
        if same_text(map[i].0.as_str(), key) && map[i].1.equals(value) {
            assert(m[i as int].0 == key@ && datum_eq(m[i as int].1, value@));
            return true;
        }
        i += 1;
    }
    false
}

/// Whether the first map has every pair of the second.
#[verifier::loop_isolation(false)]
pub fn map_contains_map(a: &Datum, b: &Datum) -> (r: Datum)
    requires
        a@ is Dict,
        b@ is Dict,
    ensures
        r@ == DatumV::from_bool(
            forall|i: int|
                0 <= i < b@->Dict_0.len() ==> has_pair(a@->Dict_0, (#[trigger] b@->Dict_0[i]).0, b@->Dict_0[i].1),
        ),
{
    let map_a = a.unwrap_map();
    let map_b = b.unwrap_map();
    let ghost mb = pairs_view(map_b@);
    let mut i: usize = 0;
    while i < map_b.len()
        invariant
            i <= map_b.len(),
            mb == pairs_view(map_b@),
            forall|j: int| 0 <= j < i ==> has_pair(pairs_view(map_a@), (#[trigger] mb[j]).0, mb[j].1),
        decreases map_b.len() - i,
    {
        assert(mb[i as int] == (map_b@[i as int].0@, map_b@[i as int].1@));
        if !find_pair(map_a, map_b[i].0.as_str(), &map_b[i].1) {
            assert(!has_pair(pairs_view(map_a@), mb[i as int].0, mb[i as int].1));
            assert(!has_pair(a@->Dict_0, b@->Dict_0[i as int].0, b@->Dict_0[i as int].1));
            return Datum::False;
        }
        i += 1;
    }
    Datum::True
}

/// The value of a key of a map, or null.
pub fn map_get_value(a: &Datum, b: &Datum) -> (r: Datum)
    requires
        a@ is Dict,
        b@ is String,
    ensures
        r@ == match lookup(a@->Dict_0, b@->String_0) {
            Some(d) => d,
            None => DatumV::Null,
        },
{
    match find_key(a.unwrap_map(), b.unwrap_str()) {
        Some(v) => v.clone(),
        None => Datum::Null,
    }
}

/// Whether each datum is a text.
pub open spec fn each_text(s: Seq<DatumV>) -> bool {
    forall|i: int| 0 <= i < s.len() ==> (#[trigger] s[i]) is String
}

/// The values of keys of a map, null for a key that the map has not, as an
/// array of one dimension.
#[verifier::loop_isolation(false)]
pub fn map_get_values(a: &Datum, b: &Datum) -> (r: Datum)
    requires
        a@ is Dict,
        b@ is Array,
        each_text(b@->elements),
    ensures
        r@ == (DatumV::Array {
            dims: seq![ArrayDimension { lower_bound: 1, length: b@->elements.len() as usize }],
            elements: Seq::new(
                b@->elements.len(),
                |i: int|
                    match lookup(a@->Dict_0, b@->elements[i]->String_0) {
                        Some(d) => d,
                        None => DatumV::Null,
                    },
            ),
        }),
{
    let map = a.unwrap_map();
    let keys = b.unwrap_array_elements();
    let ghost ks = datums_view(keys@);
    let mut values: Vec<Datum> = Vec::new();
    let mut i: usize = 0;
    while i < keys.len()
        invariant
            i <= keys.len(),
            ks == datums_view(keys@),
            each_text(ks),
            values.len() == i,
            forall|j: int|
                0 <= j < i ==> (#[trigger] values@[j])@ == match lookup(pairs_view(map@), ks[j]->String_0) {
                    Some(d) => d,
                    None => DatumV::Null,
                },
        decreases keys.len() - i,
    {
        assert(ks[i as int] is String);
        let d = match find_key(map, keys[i].unwrap_str()) {
            Some(v) => v.clone(),
            None => Datum::Null,
        };
        values.push(d);
        i += 1;
    }
    let mut dims: Vec<ArrayDimension> = Vec::new();
    dims.push(ArrayDimension { lower_bound: 1, length: values.len() });
    let r = Datum::array(dims, values);
    assert(r@->elements =~= Seq::new(
        ks.len(),
        |i: int|
            match lookup(a@->Dict_0, ks[i]->String_0) {
                Some(d) => d,
                None => DatumV::Null,
            },
    ));
    assert(r@->dims =~= seq![ArrayDimension { lower_bound: 1, length: ks.len() as usize }]);
    r
}

pub open spec fn jsonb_concat_spec(a: DatumV, b: DatumV) -> DatumV {
    match (a, b) {
        (DatumV::Dict(x), DatumV::Dict(y)) => DatumV::Dict(dedup_keep_first(pairs_sorted(y + x))),
        (DatumV::List(x), DatumV::List(y)) => DatumV::List(x + y),
        (DatumV::List(x), _) => DatumV::List(x.push(b)),
        (_, DatumV::List(y)) => DatumV::List(seq![a] + y),
        _ => DatumV::Null,
    }
}

/// Copies pairs.
pub fn clone_pairs(v: &Vec<(String, Datum)>) -> (r: Vec<(String, Datum)>)
    ensures
        pairs_view(r@) == pairs_view(v@),
{
    let mut out: Vec<(String, Datum)> = Vec::new();
    let mut i: usize = 0;
    while i < v.len()
        invariant
            i <= v.len(),
            out.len() == i,
            forall|j: int| 0 <= j < i ==> out@[j].0@ == v@[j].0@ && out@[j].1@ == v@[j].1@,
        decreases v.len() - i,
    {
        out.push((v[i].0.clone(), v[i].1.clone()));
        i += 1;
    }
    assert(pairs_view(out@) =~= pairs_view(v@));
    out
}

/// Appends copies of datums.
pub fn extend_datums(out: &mut Vec<Datum>, v: &Vec<Datum>)
    ensures
        datums_view(final(out)@) == datums_view(old(out)@) + datums_view(v@),
{
    let ghost before = datums_view(out@);
    let mut i: usize = 0;
    while i < v.len()
        invariant
            i <= v.len(),
            datums_view(out@) == before + datums_view(v@).take(i as int),
        decreases v.len() - i,
    {
        let ghost mid = datums_view(out@);
        out.push(v[i].clone());
        assert(datums_view(out@) =~= mid.push(v@[i as int]@));
        assert(datums_view(v@).take(i + 1) =~= datums_view(v@).take(i as int).push(v@[i as int]@));
        i += 1;
    }
    assert(datums_view(v@).take(v@.len() as int) =~= datums_view(v@));
}

/// Appends a datum.
pub fn push_datum(out: &mut Vec<Datum>, d: Datum)
    ensures
        datums_view(final(out)@) == datums_view(old(out)@).push(d@),
        final(out)@.len() == old(out)@.len() + 1,
{
    let ghost before = datums_view(out@);
    out.push(d);
    assert(datums_view(out@) =~= before.push(d@));
}

/// Two objects joined into one, the second winning where both have a key;
/// two arrays, or an array and a value, joined into one array; null for
/// anything else.
pub fn jsonb_concat(a: &Datum, b: &Datum) -> (r: Datum)
    ensures
        r@ == jsonb_concat_spec(a@, b@),
{
    match (a, b) {
        (Datum::Dict(_), Datum::Dict(_)) => {
            let x = a.unwrap_map();
            let y = b.unwrap_map();
            let mut pairs = clone_pairs(y);
            let mut more = clone_pairs(x);
            let ghost py = pairs_view(pairs@);
            pairs.append(&mut more);
            assert(pairs_view(pairs@) =~= pairs_view(y@) + pairs_view(x@));
            Datum::dict(keep_first(sort_pairs(&pairs)))
        },
        (Datum::List(_), Datum::List(_)) => {
            let mut out = clone_datums(a.unwrap_list());
            extend_datums(&mut out, b.unwrap_list());
            Datum::list(out)
        },
        (Datum::List(_), _) => {
            let mut out = clone_datums(a.unwrap_list());
            push_datum(&mut out, b.clone());
            Datum::list(out)
        },
        (_, Datum::List(_)) => {
            let mut out: Vec<Datum> = Vec::new();
            push_datum(&mut out, a.clone());
            extend_datums(&mut out, b.unwrap_list());
            assert(datums_view(out@) =~= seq![a@] + b@->List_0);
            Datum::list(out)
        },
        _ => Datum::Null,
    }
}

/// A list without its element at place `k`, if it has one there.
pub open spec fn without_index(v: Seq<DatumV>, k: int) -> Seq<DatumV> {
    if 0 <= k < v.len() {
        v.remove(k)
    } else {
        v
    }
}

pub open spec fn jsonb_delete_int64_spec(a: DatumV, i: int) -> DatumV {
    match a {
        DatumV::List(v) => DatumV::List(
            without_index(
                v,
                if i >= 0 {
                    i
                } else {
                    v.len() + i
                },
            ),
        ),
        _ => DatumV::Null,
    }
}

/// A JSON array without its element at a place, counted from the end for
/// a negative place.
pub fn jsonb_delete_int64(a: &Datum, b: &Datum) -> (r: Datum)
    requires
        b@ is Int64,
    ensures
        r@ == jsonb_delete_int64_spec(a@, b@->Int64_0 as int),
{
    let i = b.unwrap_int64();
    match a {
        Datum::List(_) => {
            let list = a.unwrap_list();
            let n = list.len() as i128;
            let k: i128 = if i >= 0 {
                i as i128
            } else {
                n + i as i128
            };
            let ghost v = datums_view(list@);
            let mut out: Vec<Datum> = Vec::new();
            let mut j: usize = 0;
            while j < list.len()
                invariant
                    j <= list.len(),
                    n == list.len(),
                    v == datums_view(list@),
                    datums_view(out@) == without_index(v.take(j as int), k as int),
                decreases list.len() - j,
            {
                if j as i128 != k {
                    push_datum(&mut out, list[j].clone());
                }
                proof {
                    let t = v.take(j as int);
                    let u = v.take(j + 1);
                    assert(u =~= t.push(v[j as int]));
                    if 0 <= k < j {
                        assert(u.remove(k as int) =~= t.remove(k as int).push(v[j as int]));
                    } else if k == j {
                        assert(u.remove(k as int) =~= t);
                    }
                }
                j += 1;
            }
            assert(v.take(list.len() as int) =~= v);
            Datum::list(out)
        },
        _ => Datum::Null,
    }
}

/// The datums that do not equal the given one.
pub open spec fn without_equal(v: Seq<DatumV>, d: DatumV) -> Seq<DatumV>
    decreases v.len(),
{
    if v.len() == 0 {
        Seq::empty()
    } else if datum_eq(d, v.last()) {
        without_equal(v.drop_last(), d)
    } else {
        without_equal(v.drop_last(), d).push(v.last())
    }
}

/// The pairs whose key is not the given one.
pub open spec fn without_key(v: Seq<PairV>, key: Seq<char>) -> Seq<PairV>
    decreases v.len(),
{
    if v.len() == 0 {
        Seq::empty()
    } else if v.last().0 == key {
        without_key(v.drop_last(), key)
    } else {
        without_key(v.drop_last(), key).push(v.last())
    }
}

pub open spec fn jsonb_delete_string_spec(a: DatumV, b: DatumV) -> DatumV {
    match a {
        DatumV::List(v) => DatumV::List(without_equal(v, b)),
        DatumV::Dict(v) => DatumV::Dict(without_key(v, b->String_0)),
        _ => DatumV::Null,
    }
}

/// A JSON array without the elements that equal a text, or a JSON object
/// without the member of that key.
pub fn jsonb_delete_string(a: &Datum, b: &Datum) -> (r: Datum)
    requires
        b@ is String,
    ensures
        r@ == jsonb_delete_string_spec(a@, b@),
{
    match a {
        Datum::List(_) => {
            let list = a.unwrap_list();
            let ghost v = datums_view(list@);
            let mut out: Vec<Datum> = Vec::new();
            let mut j: usize = 0;
            while j < list.len()
                invariant
                    j <= list.len(),
                    v == datums_view(list@),
                    datums_view(out@) == without_equal(v.take(j as int), b@),
                decreases list.len() - j,
            {
                proof {
                    assert(v.take(j + 1).drop_last() =~= v.take(j as int));
                    assert(v.take(j + 1).last() == v[j as int]);
                }
                if !b.equals(&list[j]) {
                    push_datum(&mut out, list[j].clone());
                }
                j += 1;
            }
            assert(v.take(list.len() as int) =~= v);
            Datum::list(out)
        },
        Datum::Dict(_) => {
            let dict = a.unwrap_map();
            let k = b.unwrap_str();
            let ghost v = pairs_view(dict@);
            let mut out: Vec<(String, Datum)> = Vec::new();
            let mut j: usize = 0;
            while j < dict.len()
                invariant
                    j <= dict.len(),
                    v == pairs_view(dict@),
                    pairs_view(out@) == without_key(v.take(j as int), k@),
                decreases dict.len() - j,
            {
                proof {
                    assert(v.take(j + 1).drop_last() =~= v.take(j as int));
                    assert(v.take(j + 1).last() == v[j as int]);
                }
                if !same_text(dict[j].0.as_str(), k) {
                    let ghost before = pairs_view(out@);
                    out.push((dict[j].0.clone(), dict[j].1.clone()));
                    assert(pairs_view(out@) =~= before.push(v[j as int]));
                }
                j += 1;
            }
            assert(v.take(dict.len() as int) =~= v);
            Datum::dict(out)
        },
        _ => Datum::Null,
    }
}

/// The number of elements of a JSON array; null for any other datum.
pub fn jsonb_array_length(a: &Datum) -> (r: Datum)
    requires
        a@ is List ==> a@->List_0.len() <= i64::MAX,
    ensures
        r@ == match a@ {
            DatumV::List(v) => DatumV::Int64(v.len() as i64),
            _ => DatumV::Null,
        },
{
    match a {
        Datum::List(_) => {
            let list = a.unwrap_list();
            assert(datums_view(list@).len() == list@.len());
            Datum::Int64(list.len() as i64)
        },
        _ => Datum::Null,
    }
}

/// Whether the datum is of a variant that JSON values have, without regard
/// to what it holds.
pub open spec fn is_jsonb_variant(d: DatumV) -> bool {
    d is JsonNull || d is True || d is False || d is String || d is Int64 || d is Float64 || d is List || d is Dict
}

/// Whether the datum is of a variant that JSON values have.
pub fn check_jsonb_variant(d: &Datum) -> (r: bool)
    ensures
        r == is_jsonb_variant(d@),
{
    match d {
        Datum::JsonNull
        | Datum::True
        | Datum::False
        | Datum::String(_)
        | Datum::Int64(_)
        | Datum::Float64(_)
        | Datum::List(_)
        | Datum::Dict(_) => true,
        _ => false,
    }
}

/// The name of the type of a JSON value, as `jsonb_typeof` gives it.
pub open spec fn jsonb_typeof_name(d: DatumV) -> Seq<char> {
    match d {
        DatumV::Dict(_) => "object"@,
        DatumV::List(_) => "array"@,
        DatumV::String(_) => "string"@,
        DatumV::Float64(_) | DatumV::Int64(_) => "number"@,
        DatumV::True | DatumV::False => "boolean"@,
        _ => "null"@,
    }
}

pub fn jsonb_typeof(a: &Datum) -> (r: Datum)
    requires
        is_jsonb_variant(a@) || a@ is Null,
    ensures
        r@ == if a@ is Null {
            DatumV::Null
        } else {
            DatumV::String(jsonb_typeof_name(a@))
        },
{
    match a {
        Datum::Dict(_) => Datum::from_str("object"),
        Datum::List(_) => Datum::from_str("array"),
        Datum::String(_) => Datum::from_str("string"),
        Datum::Float64(_) => Datum::from_str("number"),
        Datum::Int64(_) => Datum::from_str("number"),
        Datum::True | Datum::False => Datum::from_str("boolean"),
        Datum::JsonNull => Datum::from_str("null"),
        _ => Datum::Null,
    }
}

/// The name of the type of a JSON value in the error of a cast.
pub open spec fn jsonb_type_name(d: DatumV) -> Seq<char> {
    match d {
        DatumV::JsonNull => "null"@,
        DatumV::False | DatumV::True => "boolean"@,
        DatumV::String(_) => "string"@,
        DatumV::Int64(_) | DatumV::Float64(_) => "numeric"@,
        DatumV::List(_) => "array"@,
        _ => "object"@,
    }
}

pub fn jsonb_type(d: &Datum) -> (r: &'static str)
    requires
        is_jsonb_variant(d@),
    ensures
        r@ == jsonb_type_name(d@),
{
    match d {
        Datum::JsonNull => "null",
        Datum::False | Datum::True => "boolean",
        Datum::String(_) => "string",
        Datum::Int64(_) | Datum::Float64(_) => "numeric",
        Datum::List(_) => "array",
        _ => "object",
    }
}

/// The error of a cast of a JSON value to a type that it cannot have.
pub open spec fn invalid_jsonb_cast(d: DatumV, to: Seq<char>) -> EvalErrorV {
    EvalErrorV::InvalidJsonbCast { from: jsonb_type_name(d), to }
}

fn jsonb_cast_error(d: &Datum, to: &str) -> (r: EvalError)
    requires
        is_jsonb_variant(d@),
    ensures
        r@ == invalid_jsonb_cast(d@, to@),
{
    EvalError::InvalidJsonbCast { from: jsonb_type(d).to_owned(), to: to.to_owned() }
}

/// A JSON number as an integer of 16 bits: an integer is cast; a double
/// is rounded to the nearest integer, a half away from zero; any other
/// JSON value is an invalid cast.
pub open spec fn cast_jsonb_to_int16_spec(a: DatumV) -> Result<DatumV, EvalErrorV> {
    match a {
        DatumV::Int64(n) => int16_or(n as int, EvalErrorV::Int16OutOfRange),
        DatumV::Float64(bits) => match rounded_double(bits) {
            Some(n) => int16_or(n, EvalErrorV::Int16OutOfRange),
            None => Err(EvalErrorV::Int16OutOfRange),
        },
        _ => Err(invalid_jsonb_cast(a, "smallint"@)),
    }
}

/// A JSON number as an integer of 16 bits.
pub fn cast_jsonb_to_int16(a: &Datum) -> (r: Result<Datum, EvalError>)
    requires
        is_jsonb_variant(a@),
    ensures
        res_view(r) == cast_jsonb_to_int16_spec(a@),
{
    match a {
        Datum::Int64(_) => crate::func_int::cast_int64_to_int16(a),
        Datum::Float64(_) => crate::func_float::cast_float64_to_int16(a),
        _ => Err(jsonb_cast_error(a, "smallint")),
    }
}

/// A JSON number as an integer of 32 bits: an integer is cast; a double
/// is rounded to the nearest integer, a half away from zero; any other
/// JSON value is an invalid cast.
pub open spec fn cast_jsonb_to_int32_spec(a: DatumV) -> Result<DatumV, EvalErrorV> {
    match a {
        DatumV::Int64(n) => int32_or(n as int, EvalErrorV::Int32OutOfRange),
        DatumV::Float64(bits) => match rounded_double(bits) {
            Some(n) => int32_or(n, EvalErrorV::Int32OutOfRange),
            None => Err(EvalErrorV::Int32OutOfRange),
        },
        _ => Err(invalid_jsonb_cast(a, "integer"@)),
    }
}

/// A JSON number as an integer of 32 bits.
pub fn cast_jsonb_to_int32(a: &Datum) -> (r: Result<Datum, EvalError>)
    requires
        is_jsonb_variant(a@),
    ensures
        res_view(r) == cast_jsonb_to_int32_spec(a@),
{
    match a {
        Datum::Int64(_) => crate::func_int::cast_int64_to_int32(a),
        Datum::Float64(_) => crate::func_float::cast_float64_to_int32(a),
        _ => Err(jsonb_cast_error(a, "integer")),
    }
}

/// A JSON number as an integer of 64 bits: an integer is cast; a double
/// is rounded to the nearest integer, a half away from zero; any other
/// JSON value is an invalid cast.
pub open spec fn cast_jsonb_to_int64_spec(a: DatumV) -> Result<DatumV, EvalErrorV> {
    match a {
        DatumV::Int64(n) => Ok(a),
        DatumV::Float64(bits) => match rounded_double(bits) {
            Some(n) => int64_or(n, EvalErrorV::Int64OutOfRange),
            None => Err(EvalErrorV::Int64OutOfRange),
        },
        _ => Err(invalid_jsonb_cast(a, "bigint"@)),
    }
}

/// A JSON number as an integer of 64 bits.
pub fn cast_jsonb_to_int64(a: &Datum) -> (r: Result<Datum, EvalError>)
    requires
        is_jsonb_variant(a@),
    ensures
        res_view(r) == cast_jsonb_to_int64_spec(a@),
{
    match a {
        Datum::Int64(_) => Ok(a.clone()),
        Datum::Float64(_) => crate::func_float::cast_float64_to_int64(a),
        _ => Err(jsonb_cast_error(a, "bigint")),
    }
}

pub fn cast_jsonb_to_float32<F: FloatUnit>(a: &Datum, fu: &F) -> (r: Result<Datum, EvalError>)
    requires
        is_jsonb_variant(a@),
    ensures
        a@ is Int64 ==> r is Ok && r->Ok_0@ is Float32,
        a@ is Float64 ==> match r {
            Ok(d) => d@ is Float32,
            Err(e) => e@ == EvalErrorV::Float32OutOfRange,
        },
        !(a@ is Int64 || a@ is Float64) ==> res_view(r) == Err::<DatumV, EvalErrorV>(invalid_jsonb_cast(a@, "real"@)),
{
    match a {
        Datum::Int64(i) => Ok(Datum::Float32(fu.single_of_int(*i))),
        Datum::Float64(_) => match crate::func_float::cast_float64_to_float32(a, fu) {
            Ok(d) => Ok(d),
            Err(_) => Err(EvalError::Float32OutOfRange),
        },
        _ => Err(jsonb_cast_error(a, "real")),
    }
}

pub fn cast_jsonb_to_float64<F: FloatUnit>(a: &Datum, fu: &F) -> (r: Result<Datum, EvalError>)
    requires
        is_jsonb_variant(a@),
    ensures
        a@ is Int64 ==> r is Ok && r->Ok_0@ is Float64,
        a@ is Float64 ==> res_view(r) == Ok::<DatumV, EvalErrorV>(a@),
        !(a@ is Int64 || a@ is Float64) ==> res_view(r) == Err::<DatumV, EvalErrorV>(
            invalid_jsonb_cast(a@, "double precision"@),
        ),
{
    match a {
        Datum::Int64(i) => Ok(Datum::Float64(fu.double_of_int(*i))),
        Datum::Float64(_) => Ok(a.clone()),
        _ => Err(jsonb_cast_error(a, "double precision")),
    }
}

pub fn cast_jsonb_to_bool(a: &Datum) -> (r: Result<Datum, EvalError>)
    requires
        is_jsonb_variant(a@),
    ensures
        res_view(r) == if a@.is_bool() {
            Ok::<DatumV, EvalErrorV>(a@)
        } else {
            Err::<DatumV, EvalErrorV>(invalid_jsonb_cast(a@, "boolean"@))
        },
{
    match a {
        Datum::True | Datum::False => Ok(a.clone()),
        _ => Err(jsonb_cast_error(a, "boolean")),
    }
}

/// A datum that is a JSON value or SQL null as a JSON value: SQL null
/// becomes JSON null, and a double that is no number becomes the text of
/// its name.
pub open spec fn cast_jsonb_or_null_to_jsonb_spec(a: DatumV) -> DatumV {
    match a {
        DatumV::Null => DatumV::JsonNull,
        DatumV::Float64(bits) => {
            let key = float64_key(bits);
            if -0x7ff0_0000_0000_0000 < key < 0x7ff0_0000_0000_0000 {
                a
            } else if key == 0x7ff0_0000_0000_0001 {
                DatumV::String("NaN"@)
            } else if key > 0 {
                DatumV::String("Infinity"@)
            } else {
                DatumV::String("-Infinity"@)
            }
        },
        _ => a,
    }
}

pub fn cast_jsonb_or_null_to_jsonb(a: &Datum) -> (r: Datum)
    ensures
        r@ == cast_jsonb_or_null_to_jsonb_spec(a@),
{
    match a {
        Datum::Null => Datum::JsonNull,
        Datum::Float64(bits) => {
            let key = float64_place(*bits);
            if -0x7ff0_0000_0000_0000i64 < key && key < 0x7ff0_0000_0000_0000i64 {
                a.clone()
            } else if key == 0x7ff0_0000_0000_0001i64 {
                Datum::from_str("NaN")
            } else if key > 0 {
                Datum::from_str("Infinity")
            } else {
                Datum::from_str("-Infinity")
            }
        },
        _ => a.clone(),
    }
}

/// The JSON text of a JSON value.
pub fn cast_jsonb_to_string<F: FloatUnit>(a: &Datum, fu: &F) -> (r: Datum)
    requires
        is_jsonb(a@),
    ensures
        !has_double(a@) ==> r@ == DatumV::String(jsonb_text(a@)),
        r@ is String,
{
    Datum::String(format_jsonb(a, fu))
}

/// What becomes of the datum that was read from a text: a datum that is a
/// JSON value whose maps have their keys ascending and unique is the
/// result; no datum, or one that is no such value, is the syntax error of
/// the text.
pub open spec fn read_jsonb(h: Option<DatumV>, input: Seq<char>) -> Result<DatumV, EvalErrorV> {
    match h {
        Some(d) => if is_jsonb(d) && keys_ascend(d) {
            Ok(d)
        } else {
            Err(crate::func_string::syntax_error("jsonb"@, input))
        },
        None => Err(crate::func_string::syntax_error("jsonb"@, input)),
    }
}

/// The view of a datum, where there is one.
pub open spec fn opt_datum_view(h: Option<Datum>) -> Option<DatumV> {
    match h {
        Some(d) => Some(d@),
        None => None,
    }
}

/// The JSON value that was read from a text, if it is one.
pub fn jsonb_of_reading(h: Option<Datum>, input: &str) -> (r: Result<Datum, EvalError>)
    ensures
        res_view(r) == read_jsonb(opt_datum_view(h), input@),
{
    match h {
        Some(d) => if crate::jsonb::check_jsonb(&d) && crate::jsonb::check_keys(&d) {
            Ok(d)
        } else {
            Err(crate::func_string::invalid_input("jsonb", input))
        },
        None => Err(crate::func_string::invalid_input("jsonb", input)),
    }
}

/// The JSON value that a text denotes, as `serde_json` reads it. A text
/// that denotes none is a syntax error.
pub fn cast_string_to_jsonb(a: &Datum) -> (r: Result<Datum, EvalError>)
    requires
        a@ is String,
    ensures
        res_view(r) == read_jsonb(json_datum(a@->String_0, JSON_MAX_DEPTH as nat), a@->String_0),
        r is Ok ==> is_jsonb(r->Ok_0@) && keys_ascend(r->Ok_0@),
{
    let s = a.unwrap_str();
    let h = datum_of_json(s, JSON_MAX_DEPTH);
    assert(opt_datum_view(h) == json_datum(a@->String_0, JSON_MAX_DEPTH as nat)) by {
        assert(opt_datum_view(h) == crate::json_read::opt_view(h));
    }
    jsonb_of_reading(h, s)
}

/// A JSON value without the members of objects that are JSON null, at any
/// depth.
pub open spec fn strip_nulls(a: DatumV) -> DatumV
    decreases a, 0nat, 0nat,
{
    match a {
        DatumV::Dict(v) => DatumV::Dict(strip_pairs(v, v.len() as int)),
        DatumV::List(v) => DatumV::List(Seq::new(v.len(), |i: int| if 0 <= i < v.len() { strip_nulls(v[i]) } else { DatumV::Null })),
        _ => a,
    }
}

/// The first `n` pairs of a map without those whose value is JSON null,
/// the values stripped.
pub open spec fn strip_pairs(v: Seq<PairV>, n: int) -> Seq<PairV>
    decreases v, 1nat, n,
{
    if n <= 0 || n > v.len() {
        Seq::empty()
    } else if v[n - 1].1 is JsonNull {
        strip_pairs(v, n - 1)
    } else {
        strip_pairs(v, n - 1).push((v[n - 1].0, strip_nulls(v[n - 1].1)))
    }
}

#[verifier::loop_isolation(false)]
pub fn jsonb_strip_nulls(a: &Datum) -> (r: Datum)
    ensures
        r@ == strip_nulls(a@),
    decreases a,
{
    match a {
        Datum::Dict(dict) => {
            proof {
                crate::datum::lemma_dict_view(*a);
            }
            let ghost v = pairs_view(dict@);
            let mut out: Vec<(String, Datum)> = Vec::new();
            let mut i: usize = 0;
            while i < dict.len()
                invariant
                    i <= dict.len(),
                    pairs_view(out@) == strip_pairs(v, i as int),
                decreases dict.len() - i,
            {
                match &dict[i].1 {
                    Datum::JsonNull => {},
                    _ => {
                        let ghost before = pairs_view(out@);
                        let value = jsonb_strip_nulls(&dict[i].1);
                        out.push((dict[i].0.clone(), value));
                        assert(pairs_view(out@) =~= before.push((v[i as int].0, strip_nulls(v[i as int].1))));
                    },
                }
                i += 1;
            }
            Datum::dict(out)
        },
        Datum::List(list) => {
            proof {
                crate::datum::lemma_list_view(*a);
            }
            let ghost v = datums_view(list@);
            let mut out: Vec<Datum> = Vec::new();
            let mut i: usize = 0;
            while i < list.len()
                invariant
                    i <= list.len(),
                    out.len() == i,
                    forall|j: int| 0 <= j < i ==> (#[trigger] out@[j])@ == strip_nulls(v[j]),
                decreases list.len() - i,
            {
                out.push(jsonb_strip_nulls(&list[i]));
                i += 1;
            }
            let r = Datum::list(out);
            assert(r@->List_0 =~= strip_nulls(a@)->List_0);
            r
        },
        _ => a.clone(),
    }
}

/// The JSON array of the datums, or null where a datum is null.
pub fn jsonb_build_array(datums: &Vec<Datum>) -> (r: Datum)
    ensures
        r@ == if any_null(datums_view(datums@)) {
            DatumV::Null
        } else {
            DatumV::List(datums_view(datums@))
        },
{
    if has_null(datums) {
        Datum::Null
    } else {
        Datum::list(clone_datums(datums))
    }
}

/// Whether any datum is null.
pub fn has_null(datums: &Vec<Datum>) -> (r: bool)
    ensures
        r == any_null(datums_view(datums@)),
{
    let ghost s = datums_view(datums@);
    let mut i: usize = 0;
    while i < datums.len()
        invariant
            i <= datums.len(),
            s == datums_view(datums@),
            forall|j: int| 0 <= j < i ==> !((#[trigger] s[j]) is Null),
        decreases datums.len() - i,
    {
        if datums[i].is_null() {
            assert(s[i as int] is Null);
            return true;
        }
        i += 1;
    }
    false
}

/// The pairs of keys and values that datums give, taken two by two.
pub open spec fn paired(s: Seq<DatumV>) -> Seq<PairV> {
    Seq::new(s.len() / 2, |i: int| (s[2 * i]->String_0, s[2 * i + 1]))
}

/// Whether the datums are keys and values in turn: an even number of
/// them, each key a text.
pub open spec fn keys_and_values(s: Seq<DatumV>) -> bool {
    s.len() % 2 == 0 && forall|i: int| 0 <= i < s.len() / 2 ==> (#[trigger] s[2 * i]) is String
}

/// The JSON object of keys and values given in turn, the keys ascending;
/// of several values for one key, the first. Null where a datum is null.
#[verifier::loop_isolation(false)]
pub fn jsonb_build_object(datums: &Vec<Datum>) -> (r: Datum)
    requires
        !any_null(datums_view(datums@)) ==> keys_and_values(datums_view(datums@)),
    ensures
        r@ == if any_null(datums_view(datums@)) {
            DatumV::Null
        } else {
            DatumV::Dict(dedup_keep_first(pairs_sorted(paired(datums_view(datums@)))))
        },
{
    if has_null(datums) {
        return Datum::Null;
    }
    let ghost s = datums_view(datums@);
    let n = datums.len() / 2;
    let mut pairs: Vec<(String, Datum)> = Vec::new();
    let mut i: usize = 0;
    while i < n
        invariant
            i <= n,
            n == datums.len() / 2,
            s == datums_view(datums@),
            keys_and_values(s),
            pairs.len() == i,
            forall|j: int| 0 <= j < i ==> (#[trigger] pairs_view(pairs@)[j]) == paired(s)[j],
        decreases n - i,
    {
        assert(s[2 * (i as int)] is String);
        let key = datums[2 * i].unwrap_str().to_owned();
        let value = datums[2 * i + 1].clone();
        let ghost before = pairs_view(pairs@);
        pairs.push((key, value));
        assert(pairs_view(pairs@) =~= before.push((key@, value@)));
        i += 1;
    }
    assert(pairs_view(pairs@) =~= paired(s));
    Datum::dict(keep_first(sort_pairs(&pairs)))
}

/// Whether the first JSON value contains the second, without doubles in
/// either: a scalar contains itself; an array contains an array whose
/// every element is contained in one of its own; an object contains an
/// object whose every member is contained in its member of that key; and
/// at the top an array contains a scalar that one of its elements
/// contains.
pub open spec fn contains_spec(a: DatumV, b: DatumV, at_top_level: bool) -> bool
    decreases a, 0nat,
{
    match (a, b) {
        (DatumV::JsonNull, DatumV::JsonNull) => true,
        (DatumV::False, DatumV::False) => true,
        (DatumV::True, DatumV::True) => true,
        (DatumV::Int64(x), DatumV::Int64(y)) => x == y,
        (DatumV::Float64(x), DatumV::Float64(y)) => float64_key(x) == float64_key(y),
        (DatumV::String(x), DatumV::String(y)) => x == y,
        (DatumV::List(x), DatumV::List(y)) => forall|j: int| 0 <= j < y.len() ==> found_in(x, #[trigger] y[j]),
        (DatumV::Dict(x), DatumV::Dict(y)) => forall|j: int| 0 <= j < y.len() ==> member_in(x, #[trigger] y[j]),
        (DatumV::List(x), _) => at_top_level && found_in(x, b),
        _ => false,
    }
}

/// Whether one of the elements contains a value.
pub open spec fn found_in(x: Seq<DatumV>, b: DatumV) -> bool
    decreases x, 1nat,
{
    exists|i: int| 0 <= i < x.len() && contains_spec(#[trigger] x[i], b, false)
}

/// Whether one of the members has the key of a member and contains its
/// value.
pub open spec fn member_in(x: Seq<(Seq<char>, DatumV)>, m: (Seq<char>, DatumV)) -> bool
    decreases x, 1nat,
{
    exists|i: int| 0 <= i < x.len() && (#[trigger] x[i]).0 == m.0 && contains_spec(x[i].1, m.1, false)
}

/// What containment is for arrays and objects.
pub proof fn lemma_contains_unfold(a: DatumV, b: DatumV, at_top_level: bool)
    ensures
        a is List && b is List ==> contains_spec(a, b, at_top_level) == (forall|j: int|
            0 <= j < b->List_0.len() ==> found_in(a->List_0, #[trigger] b->List_0[j])),
        a is Dict && b is Dict ==> contains_spec(a, b, at_top_level) == (forall|j: int|
            0 <= j < b->Dict_0.len() ==> member_in(a->Dict_0, #[trigger] b->Dict_0[j])),
        a is List && !(b is List) ==> contains_spec(a, b, at_top_level) == (at_top_level && found_in(a->List_0, b)),
        forall|x: Seq<DatumV>, c: DatumV| #[trigger]
            found_in(x, c) == (exists|i: int| 0 <= i < x.len() && contains_spec(#[trigger] x[i], c, false)),
        forall|x: Seq<(Seq<char>, DatumV)>, m: (Seq<char>, DatumV)| #[trigger]
            member_in(x, m) == (exists|i: int|
                0 <= i < x.len() && (#[trigger] x[i]).0 == m.0 && contains_spec(x[i].1, m.1, false)),
{
    match (a, b) {
        (DatumV::List(x), DatumV::List(y)) => {
            assert(contains_spec(a, b, at_top_level) == (forall|j: int|
                0 <= j < y.len() ==> found_in(x, #[trigger] y[j])));
        },
        (DatumV::Dict(x), DatumV::Dict(y)) => {
            assert(contains_spec(a, b, at_top_level) == (forall|j: int|
                0 <= j < y.len() ==> member_in(x, #[trigger] y[j])));
        },
        (DatumV::List(x), _) => {
            assert(contains_spec(a, b, at_top_level) == (at_top_level && found_in(x, b)));
        },
        _ => {},
    }
    assert forall|x: Seq<DatumV>, c: DatumV| #[trigger]
        found_in(x, c) == (exists|i: int| 0 <= i < x.len() && contains_spec(#[trigger] x[i], c, false)) by {
        assert(found_in(x, c) == (exists|i: int| 0 <= i < x.len() && contains_spec(#[trigger] x[i], c, false)));
    }
    assert forall|x: Seq<(Seq<char>, DatumV)>, m: (Seq<char>, DatumV)| #[trigger]
        member_in(x, m) == (exists|i: int|
            0 <= i < x.len() && (#[trigger] x[i]).0 == m.0 && contains_spec(x[i].1, m.1, false)) by {
        assert(member_in(x, m) == (exists|i: int|
            0 <= i < x.len() && (#[trigger] x[i]).0 == m.0 && contains_spec(x[i].1, m.1, false)));
    }
}

#[verifier::loop_isolation(false)]
fn contains<F: FloatUnit>(a: &Datum, b: &Datum, at_top_level: bool, fu: &F) -> (r: bool)
    ensures
        !has_double(a@) && !has_double(b@) ==> r == contains_spec(a@, b@, at_top_level),
    decreases a,
{
    proof {
        lemma_contains_unfold(a@, b@, at_top_level);
        crate::jsonb::lemma_jsonb_unfold(a@);
        crate::jsonb::lemma_jsonb_unfold(b@);
    }
    match (a, b) {
        (Datum::JsonNull, Datum::JsonNull) => true,
        (Datum::False, Datum::False) => true,
        (Datum::True, Datum::True) => true,
        (Datum::Int64(x), Datum::Int64(y)) => *x == *y,
        (Datum::Int64(x), Datum::Float64(y)) => float64_place(fu.double_of_int(*x)) == float64_place(*y),
        (Datum::Float64(x), Datum::Int64(y)) => float64_place(*x) == float64_place(fu.double_of_int(*y)),
        (Datum::Float64(x), Datum::Float64(y)) => float64_place(*x) == float64_place(*y),
        (Datum::String(x), Datum::String(y)) => same_text(x.as_str(), y.as_str()),
        (Datum::List(x), Datum::List(y)) => {
            proof {
                crate::datum::lemma_list_view(*a);
                crate::datum::lemma_list_view(*b);
            }
            let ghost xv = datums_view(x@);
            let ghost yv = datums_view(y@);
            let mut j: usize = 0;
            while j < y.len()
                invariant
                    j <= y.len(),
                    !has_double(a@) && !has_double(b@) ==> forall|k: int| 0 <= k < j ==> found_in(xv, #[trigger] yv[k]),
                decreases y.len() - j,
            {
                let mut found = false;
                let mut i: usize = 0;
                while i < x.len() && !found
                    invariant
                        i <= x.len(),
                        !has_double(a@) && !has_double(b@) ==> (found ==> found_in(xv, yv[j as int])),
                        !has_double(a@) && !has_double(b@) ==> (!found ==> forall|k: int|
                            0 <= k < i ==> !contains_spec(#[trigger] xv[k], yv[j as int], false)),
                    decreases x.len() - i, if found { 0nat } else { 1nat },
                {
                    if contains(&x[i], &y[j], false, fu) {
                        proof {
                            if !has_double(a@) && !has_double(b@) {
                                assert(!has_double(xv[i as int]));
                                assert(!has_double(yv[j as int]));
                                assert(contains_spec(xv[i as int], yv[j as int], false));
                            }
                        }
                        found = true;
                    } else {
                        proof {
                            if !has_double(a@) && !has_double(b@) {
                                assert(!has_double(xv[i as int]));
                                assert(!has_double(yv[j as int]));
                            }
                        }
                        i += 1;
                    }
                }
                if !found {
                    proof {
                        if !has_double(a@) && !has_double(b@) {
                            assert(!found_in(xv, yv[j as int]));
                        }
                    }
                    return false;
                }
                j += 1;
            }
            true
        },
        (Datum::Dict(x), Datum::Dict(y)) => {
            proof {
                crate::datum::lemma_dict_view(*a);
                crate::datum::lemma_dict_view(*b);
            }
            let ghost xv = pairs_view(x@);
            let ghost yv = pairs_view(y@);
            let mut j: usize = 0;
            while j < y.len()
                invariant
                    j <= y.len(),
                    !has_double(a@) && !has_double(b@) ==> forall|k: int| 0 <= k < j ==> member_in(xv, #[trigger] yv[k]),
                decreases y.len() - j,
            {
                let mut found = false;
                let mut i: usize = 0;
                while i < x.len() && !found
                    invariant
                        i <= x.len(),
                        !has_double(a@) && !has_double(b@) ==> (found ==> member_in(xv, yv[j as int])),
                        !has_double(a@) && !has_double(b@) ==> (!found ==> forall|k: int|
                            0 <= k < i ==> !((#[trigger] xv[k]).0 == yv[j as int].0 && contains_spec(
                                xv[k].1,
                                yv[j as int].1,
                                false,
                            ))),
                    decreases x.len() - i, if found { 0nat } else { 1nat },
                {
                    proof {
                        if !has_double(a@) && !has_double(b@) {
                            assert(!has_double(xv[i as int].1));
                            assert(!has_double(yv[j as int].1));
                        }
                    }
                    if same_text(x[i].0.as_str(), y[j].0.as_str()) && contains(&x[i].1, &y[j].1, false, fu) {
                        proof {
                            if !has_double(a@) && !has_double(b@) {
                                assert(xv[i as int].0 == yv[j as int].0 && contains_spec(
                                    xv[i as int].1,
                                    yv[j as int].1,
                                    false,
                                ));
                            }
                        }
                        found = true;
                    } else {
                        i += 1;
                    }
                }
                if !found {
                    proof {
                        if !has_double(a@) && !has_double(b@) {
                            assert(!member_in(xv, yv[j as int]));
                        }
                    }
                    return false;
                }
                j += 1;
            }
            true
        },
        (Datum::List(x), _) => {
            if !at_top_level {
                return false;
            }
            proof {
                crate::datum::lemma_list_view(*a);
            }
            let ghost xv = datums_view(x@);
            let mut i: usize = 0;
            while i < x.len()
                invariant
                    i <= x.len(),
                    !has_double(a@) && !has_double(b@) ==> forall|k: int|
                        0 <= k < i ==> !contains_spec(#[trigger] xv[k], b@, false),
                decreases x.len() - i,
            {
                proof {
                    if !has_double(a@) && !has_double(b@) {
                        assert(!has_double(xv[i as int]));
                    }
                }
                if contains(&x[i], b, false, fu) {
                    proof {
                        if !has_double(a@) && !has_double(b@) {
                            assert(contains_spec(xv[i as int], b@, false));
                        }
                    }
                    return true;
                }
                i += 1;
            }
            false
        },
        _ => false,
    }
}

/// Whether the first JSON value contains the second. A number of the one
/// that is an integer and a number of the other that is a double are
/// compared as doubles, which the host makes.
pub fn jsonb_contains_jsonb<F: FloatUnit>(a: &Datum, b: &Datum, fu: &F) -> (r: Datum)
    ensures
        !has_double(a@) && !has_double(b@) ==> r@ == DatumV::from_bool(contains_spec(a@, b@, true)),
        r@.is_bool(),
{
    Datum::from_bool(contains(a, b, true, fu))
}

} // verus!
