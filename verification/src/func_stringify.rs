//! The texts of datums of any type: of scalars, and of lists, maps and
//! records of them.

use vstd::prelude::*;
use vstd::string::StringExecFns;
use crate::datum::{datums_view, pairs_view, res_view, Datum, DatumV};
use crate::error::{EvalError, EvalErrorV};
use crate::float::FloatUnit;
use crate::func_format::{date_text, interval_text, time_text, timestamp_text, timestamptz_text, uuid_text, hex_text};
use crate::func_numeric::{is_numeric, rescaled};
use crate::func_string::{ascii_lowered, pad_char_spec};
use crate::jsonb::is_jsonb;
use crate::numeric::dec_text;
use crate::scalar_type::{ColumnTypeV, ScalarType, ScalarTypeV};
use crate::pattern::opt_texts_view;
use crate::strings::{int_text, is_space, repeated, to_chars};

verus! {

/// Whether a datum is a value of a scalar type. The elements of a list or
/// array, the values of a map and the fields of a record can be null.
pub open spec fn conforms(d: DatumV, ty: ScalarTypeV) -> bool
    decreases d,
{
    match ty {
        ScalarTypeV::Bool => d.is_bool(),
        ScalarTypeV::Int16 => d is Int16,
        ScalarTypeV::Int32 | ScalarTypeV::Oid | ScalarTypeV::RegProc => d is Int32,
        ScalarTypeV::Int64 => d is Int64,
        ScalarTypeV::Float32 => d is Float32,
        ScalarTypeV::Float64 => d is Float64,
        ScalarTypeV::Numeric { .. } => is_numeric(d),
        ScalarTypeV::Date => crate::func_datetime::is_date(d),
        ScalarTypeV::Time => crate::func_datetime::is_time(d),
        ScalarTypeV::Timestamp => crate::func_datetime::is_timestamp(d),
        ScalarTypeV::TimestampTz => crate::func_datetime::is_timestamptz(d),
        ScalarTypeV::Interval => crate::func_datetime::is_interval(d),
        ScalarTypeV::Bytes => d is Bytes,
        ScalarTypeV::String | ScalarTypeV::Char { .. } | ScalarTypeV::VarChar { .. } => d is String,
        ScalarTypeV::Jsonb => is_jsonb(d),
        ScalarTypeV::Uuid => d is Uuid,
        ScalarTypeV::Array(t) => d is Array && forall|i: int|
            0 <= i < d->elements.len() ==> (#[trigger] d->elements[i]) is Null || conforms(d->elements[i], *t),
        ScalarTypeV::List { element_type, .. } => d is List && forall|i: int|
            0 <= i < d->List_0.len() ==> (#[trigger] d->List_0[i]) is Null || conforms(d->List_0[i], *element_type),
        ScalarTypeV::Dict { value_type, .. } => d is Dict && forall|i: int|
            0 <= i < d->Dict_0.len() ==> (#[trigger] d->Dict_0[i]).1 is Null || conforms(d->Dict_0[i].1, *value_type),
        ScalarTypeV::Record { fields, .. } => d is List && d->List_0.len() == fields.len() && forall|i: int|
            0 <= i < d->List_0.len() ==> (#[trigger] d->List_0[i]) is Null || conforms(
                d->List_0[i],
                fields[i].1.scalar_type,
            ),
    }
}

/// What it is for a list, an array, a map or a record to be a value of its
/// type.
pub proof fn lemma_conforms_unfold(d: DatumV, ty: ScalarTypeV)
    ensures
        ty matches ScalarTypeV::Array(t) ==> conforms(d, ty) == (d is Array && forall|i: int|
            0 <= i < d->elements.len() ==> (#[trigger] d->elements[i]) is Null || conforms(d->elements[i], *t)),
        ty matches ScalarTypeV::List { element_type, .. } ==> conforms(d, ty) == (d is List && forall|i: int|
            0 <= i < d->List_0.len() ==> (#[trigger] d->List_0[i]) is Null || conforms(d->List_0[i], *element_type)),
        ty matches ScalarTypeV::Dict { value_type, .. } ==> conforms(d, ty) == (d is Dict && forall|i: int|
            0 <= i < d->Dict_0.len() ==> (#[trigger] d->Dict_0[i]).1 is Null || conforms(
                d->Dict_0[i].1,
                *value_type,
            )),
        ty matches ScalarTypeV::Record { fields, .. } ==> conforms(d, ty) == (d is List && d->List_0.len()
            == fields.len() && forall|i: int|
            0 <= i < d->List_0.len() ==> (#[trigger] d->List_0[i]) is Null || conforms(
                d->List_0[i],
                fields[i].1.scalar_type,
            )),
{
    match ty {
        ScalarTypeV::Array(t) => {
            assert(conforms(d, ty) == (d is Array && forall|i: int|
                0 <= i < d->elements.len() ==> (#[trigger] d->elements[i]) is Null || conforms(d->elements[i], *t)));
        },
        ScalarTypeV::List { element_type, .. } => {
            assert(conforms(d, ty) == (d is List && forall|i: int|
                0 <= i < d->List_0.len() ==> (#[trigger] d->List_0[i]) is Null || conforms(
                    d->List_0[i],
                    *element_type,
                )));
        },
        ScalarTypeV::Dict { value_type, .. } => {
            assert(conforms(d, ty) == (d is Dict && forall|i: int|
                0 <= i < d->Dict_0.len() ==> (#[trigger] d->Dict_0[i]).1 is Null || conforms(
                    d->Dict_0[i].1,
                    *value_type,
                )));
        },
        ScalarTypeV::Record { fields, .. } => {
            assert(conforms(d, ty) == (d is List && d->List_0.len() == fields.len() && forall|i: int|
                0 <= i < d->List_0.len() ==> (#[trigger] d->List_0[i]) is Null || conforms(
                    d->List_0[i],
                    fields[i].1.scalar_type,
                )));
        },
        _ => {},
    }
}

/// Whether the texts of the values of a type are written by the library
/// alone: the type holds no floats and no JSON.
pub open spec fn plain(ty: ScalarTypeV) -> bool
    decreases ty,
{
    match ty {
        ScalarTypeV::Float32 | ScalarTypeV::Float64 | ScalarTypeV::Jsonb => false,
        ScalarTypeV::Array(t) => plain(*t),
        ScalarTypeV::List { element_type, .. } => plain(*element_type),
        ScalarTypeV::Dict { value_type, .. } => plain(*value_type),
        ScalarTypeV::Record { fields, .. } => forall|i: int|
            0 <= i < fields.len() ==> plain((#[trigger] fields[i]).1.scalar_type),
        _ => true,
    }
}

/// Whether a type is one of lists, arrays or maps, whose texts stand
/// within others as they are.
pub open spec fn is_container(ty: ScalarTypeV) -> bool {
    ty is Array || ty is List || ty is Dict
}

/// Whether a character within the text of an element makes quotes
/// necessary.
pub open spec fn is_special(c: char, in_record: bool) -> bool {
    c == '"' || c == '\\' || c == ',' || is_space(c) || c == '=' || c == '>' || if in_record {
        c == '(' || c == ')'
    } else {
        c == '{' || c == '}'
    }
}

/// Whether the text of an element must stand in quotes: an empty text,
/// the word `NULL`, or a text with a character that means something
/// there.
pub open spec fn needs_quotes(t: Seq<char>, in_record: bool) -> bool {
    t.len() == 0 || ascii_lowered(t) == "null"@ || exists|i: int| 0 <= i < t.len() && is_special(#[trigger] t[i], in_record)
}

/// A text with a backslash before each quote and each backslash.
pub open spec fn backslashed(t: Seq<char>) -> Seq<char>
    decreases t.len(),
{
    if t.len() == 0 {
        Seq::empty()
    } else {
        backslashed(t.drop_last()) + if t.last() == '"' || t.last() == '\\' {
            seq!['\\', t.last()]
        } else {
            seq![t.last()]
        }
    }
}

/// The text of an element as it stands within the text of what holds it.
pub open spec fn element_text(t: Seq<char>, container: bool, in_record: bool) -> Seq<char> {
    if container || !needs_quotes(t, in_record) {
        t
    } else {
        seq!['"'] + backslashed(t) + seq!['"']
    }
}

/// The text of a datum of a plain type. An array is written with a brace
/// for each of its dimensions.
pub open spec fn datum_text(d: DatumV, ty: ScalarTypeV) -> Seq<char>
    decreases d, 0nat, 0nat,
{
    match ty {
        ScalarTypeV::Bool => if d is True {
            "t"@
        } else {
            "f"@
        },
        ScalarTypeV::Int16 => int_text(d->Int16_0 as int),
        ScalarTypeV::Int32 | ScalarTypeV::Oid | ScalarTypeV::RegProc => int_text(d->Int32_0 as int),
        ScalarTypeV::Int64 => int_text(d->Int64_0 as int),
        ScalarTypeV::Numeric { scale } => dec_text(
            match scale {
                Some(s) => match rescaled(d->Numeric_0, s as int) {
                    Some(n) => n,
                    None => d->Numeric_0,
                },
                None => d->Numeric_0,
            },
        ),
        ScalarTypeV::Date => date_text(d->Date_0),
        ScalarTypeV::Time => time_text(d->Time_0),
        ScalarTypeV::Timestamp => timestamp_text(d->Timestamp_0),
        ScalarTypeV::TimestampTz => timestamptz_text(d->TimestampTz_0),
        ScalarTypeV::Interval => interval_text(d->Interval_0),
        ScalarTypeV::Bytes => seq!['\\', 'x'] + hex_text(d->Bytes_0),
        ScalarTypeV::String | ScalarTypeV::VarChar { .. } => d->String_0,
        ScalarTypeV::Char { length } => pad_char_spec(d->String_0, length),
        ScalarTypeV::Uuid => uuid_text(d->Uuid_0),
        ScalarTypeV::Array(t) => match d {
            DatumV::Array { dims, elements } => array_text_spec(
                dims,
                array_texts(elements, *t, elements.len() as int),
                is_container(*t),
            ),
            _ => Seq::empty(),
        },
        ScalarTypeV::List { element_type, .. } => match d {
            DatumV::List(v) => seq!['{'] + list_join(v, *element_type, v.len() as int) + seq!['}'],
            _ => Seq::empty(),
        },
        ScalarTypeV::Dict { value_type, .. } => match d {
            DatumV::Dict(v) => seq!['{'] + dict_join(v, *value_type, v.len() as int) + seq!['}'],
            _ => Seq::empty(),
        },
        ScalarTypeV::Record { fields, .. } => match d {
            DatumV::List(v) => seq!['('] + record_join(v, fields, v.len() as int) + seq![')'],
            _ => Seq::empty(),
        },
        _ => Seq::empty(),
    }
}

/// The text of an element of a list or a value of a map: `NULL` for
/// null.
pub open spec fn member_text(d: DatumV, ty: ScalarTypeV) -> Seq<char>
    decreases d, 1nat, 0nat,
{
    if d is Null {
        "NULL"@
    } else {
        element_text(datum_text(d, ty), is_container(ty), false)
    }
}

/// The texts of the first `n` elements of an array, each as it stands
/// alone; a null element has none.
pub open spec fn array_texts(v: Seq<DatumV>, ty: ScalarTypeV, n: int) -> Seq<Option<Seq<char>>>
    decreases v, 2nat, n,
{
    if n <= 0 || n > v.len() {
        Seq::empty()
    } else {
        array_texts(v, ty, n - 1).push(
            if v[n - 1] is Null {
                None
            } else {
                Some(datum_text(v[n - 1], ty))
            },
        )
    }
}

/// The texts of the first `n` elements of a list, with commas between
/// them.
pub open spec fn list_join(v: Seq<DatumV>, ty: ScalarTypeV, n: int) -> Seq<char>
    decreases v, 2nat, n,
{
    if n <= 0 || n > v.len() {
        Seq::empty()
    } else if n == 1 {
        member_text(v[0], ty)
    } else {
        list_join(v, ty, n - 1) + seq![','] + member_text(v[n - 1], ty)
    }
}

/// The texts of the first `n` pairs of a map, each as key, `=>` and
/// value, with commas between them.
pub open spec fn dict_join(v: Seq<(Seq<char>, DatumV)>, ty: ScalarTypeV, n: int) -> Seq<char>
    decreases v, 2nat, n,
{
    if n <= 0 || n > v.len() {
        Seq::empty()
    } else {
        (if n == 1 {
            Seq::empty()
        } else {
            dict_join(v, ty, n - 1) + seq![',']
        }) + element_text(v[n - 1].0, false, false) + seq!['=', '>'] + member_text(v[n - 1].1, ty)
    }
}

/// The texts of the first `n` fields of a record, with commas between
/// them; a null field has no text.
pub open spec fn record_join(v: Seq<DatumV>, fields: Seq<(Seq<char>, ColumnTypeV)>, n: int) -> Seq<char>
    decreases v, 2nat, n,
{
    if n <= 0 || n > v.len() || n > fields.len() {
        Seq::empty()
    } else {
        (if n == 1 {
            Seq::empty()
        } else {
            record_join(v, fields, n - 1) + seq![',']
        }) + if v[n - 1] is Null {
            Seq::empty()
        } else {
            element_text(datum_text(v[n - 1], fields[n - 1].1.scalar_type), false, true)
        }
    }
}

/// Whether the text of an element must stand in quotes.
fn check_needs_quotes(t: &Vec<char>, in_record: bool) -> (r: bool)
    ensures
        r == needs_quotes(t@, in_record),
{
    if t.len() == 0 {
        return true;
    }
    if t.len() == 4 {
        let mut is_null = true;
        let mut k: usize = 0;
        let ghost w = "null"@;
        proof {
            reveal_strlit("null");
        }
        while k < 4
            invariant
                k <= 4,
                t@.len() == 4,
                w == "null"@,
                w.len() == 4,
                w[0] == 'n' && w[1] == 'u' && w[2] == 'l' && w[3] == 'l',
                is_null == (forall|j: int| 0 <= j < k ==> ascii_lowered(t@)[j] == w[j]),
            decreases 4 - k,
        {
            let c = t[k];
            let u = c as u32;
            let l = if 65 <= u && u <= 90 {
                ((u + 32) as u8) as char
            } else {
                c
            };
            let want = if k == 0 {
                'n'
            } else if k == 1 {
                'u'
            } else {
                'l'
            };
            if l != want {
                is_null = false;
            }
            k += 1;
        }
        if is_null {
            assert(ascii_lowered(t@) =~= w);
            return true;
        }
        assert(ascii_lowered(t@) != w);
    } else {
        proof {
            reveal_strlit("null");
            assert(ascii_lowered(t@).len() != "null"@.len());
        }
    }
    let mut i: usize = 0;
    while i < t.len()
        invariant
            i <= t.len(),
            forall|j: int| 0 <= j < i ==> !is_special(#[trigger] t@[j], in_record),
        decreases t.len() - i,
    {
        let c = t[i];
        let special = c == '"' || c == '\\' || c == ',' || crate::strings::char_is_space(c) || c == '=' || c == '>'
            || if in_record {
            c == '(' || c == ')'
        } else {
            c == '{' || c == '}'
        };
        if special {
            return true;
        }
        i += 1;
    }
    false
}

/// Appends the text of an element as it stands within the text of what
/// holds it.
fn push_element(out: &mut String, text: &str, container: bool, in_record: bool)
    ensures
        final(out)@ == old(out)@ + element_text(text@, container, in_record),
{
    let ghost before = out@;
    let t = to_chars(text);
    if container || !check_needs_quotes(&t, in_record) {
        out.append(text);
        return;
    }
    out.push('"');
    let mut i: usize = 0;
    while i < t.len()
        invariant
            i <= t.len(),
            t@ == text@,
            out@ == before + seq!['"'] + backslashed(t@.take(i as int)),
        decreases t.len() - i,
    {
        let c = t[i];
        if c == '"' || c == '\\' {
            out.push('\\');
        }
        out.push(c);
        proof {
            assert(t@.take(i + 1).drop_last() =~= t@.take(i as int));
            assert(t@.take(i + 1).last() == c);
            assert(out@ =~= before + seq!['"'] + backslashed(t@.take(i + 1)));
        }
        i += 1;
    }
    assert(t@.take(t@.len() as int) =~= t@);
    out.push('"');
    assert(out@ =~= before + element_text(text@, container, in_record));
}

/// Whether a type is one of lists, arrays or maps.
fn check_container(ty: &ScalarType) -> (r: bool)
    ensures
        r == is_container(ty@),
{
    match ty {
        ScalarType::Array(_) | ScalarType::List { .. } | ScalarType::Dict { .. } => true,
        _ => false,
    }
}

/// The text of a datum of a scalar type, if the datum is a value of the
/// type. The text of a value of a plain type is written by the library
/// alone; that of floats and of JSON numbers is the host's.
#[verifier::loop_isolation(false)]
#[verifier::rlimit(60)]
pub fn stringify_datum<F: FloatUnit>(d: &Datum, ty: &ScalarType, fu: &F) -> (r: Option<String>)
    ensures
        r is Some <==> conforms(d@, ty@),
        r is Some && plain(ty@) ==> r->0@ == datum_text(d@, ty@),
    decreases d,
{
    proof {
        lemma_conforms_unfold(d@, ty@);
        lemma_plain_unfold(ty@);
    }
    match ty {
        ScalarType::Bool => match d {
            Datum::True => Some("t".to_owned()),
            Datum::False => Some("f".to_owned()),
            _ => None,
        },
        ScalarType::Int16 => match d {
            Datum::Int16(i) => Some(crate::strings::format_int(*i as i64)),
            _ => None,
        },
        ScalarType::Int32 | ScalarType::Oid | ScalarType::RegProc => match d {
            Datum::Int32(i) => Some(crate::strings::format_int(*i as i64)),
            _ => None,
        },
        ScalarType::Int64 => match d {
            Datum::Int64(i) => Some(crate::strings::format_int(*i)),
            _ => None,
        },
        ScalarType::Float32 => match d {
            Datum::Float32(b) => Some(fu.format32(*b)),
            _ => None,
        },
        ScalarType::Float64 => match d {
            Datum::Float64(b) => Some(fu.format64(*b)),
            _ => None,
        },
        ScalarType::Numeric { scale } => match d {
            Datum::Numeric(n) => {
                if !n.is_wf() {
                    return None;
                }
                let shown = match scale {
                    Some(s) => match crate::func_numeric::rescale(n, *s) {
                        Some(m) => m,
                        None => *n,
                    },
                    None => *n,
                };
                Some(crate::numeric::dec_to_string(&shown))
            },
            _ => None,
        },
        ScalarType::Date => match d {
            Datum::Date(x) => if x.is_wf() {
                Some(crate::func_format::cast_date_to_string(d).unwrap_str().to_owned())
            } else {
                None
            },
            _ => None,
        },
        ScalarType::Time => match d {
            Datum::Time(x) => if x.is_wf() {
                Some(crate::func_format::cast_time_to_string(d).unwrap_str().to_owned())
            } else {
                None
            },
            _ => None,
        },
        ScalarType::Timestamp => match d {
            Datum::Timestamp(x) => if x.is_wf() {
                Some(crate::func_format::format_timestamp(*x, false))
            } else {
                None
            },
            _ => None,
        },
        ScalarType::TimestampTz => match d {
            Datum::TimestampTz(x) => if x.is_wf() {
                Some(crate::func_format::format_timestamp(*x, true))
            } else {
                None
            },
            _ => None,
        },
        ScalarType::Interval => match d {
            Datum::Interval(x) => if x.is_wf() {
                Some(crate::func_format::cast_interval_to_string(d).unwrap_str().to_owned())
            } else {
                None
            },
            _ => None,
        },
        ScalarType::Bytes => match d {
            Datum::Bytes(_) => Some(crate::func_format::cast_bytes_to_string(d).unwrap_str().to_owned()),
            _ => None,
        },
        ScalarType::String | ScalarType::VarChar { .. } => match d {
            Datum::String(s) => Some(s.clone()),
            _ => None,
        },
        ScalarType::Char { length } => match d {
            Datum::String(_) => match crate::func_string::pad_char(d, *length) {
                Ok(p) => Some(p.unwrap_str().to_owned()),
                Err(_) => None,
            },
            _ => None,
        },
        ScalarType::Jsonb => if crate::jsonb::check_jsonb(d) {
            Some(crate::jsonb::format_jsonb(d, fu))
        } else {
            None
        },
        ScalarType::Uuid => match d {
            Datum::Uuid(_) => Some(crate::func_format::cast_uuid_to_string(d).unwrap_str().to_owned()),
            _ => None,
        },
        ScalarType::Array(t) => match d {
            Datum::Array { dims, elements } => {
                proof {
                    crate::datum::lemma_array_view(*d);
                }
                let elem_ty: &ScalarType = &**t;
                let ghost v = datums_view(elements@);
                let nested = check_container(elem_ty);
                let mut texts: Vec<Option<String>> = Vec::new();
                let mut i: usize = 0;
                while i < elements.len()
                    invariant
                        i <= elements.len(),
                        texts.len() == i,
                        forall|j: int| 0 <= j < i ==> (#[trigger] v[j]) is Null || conforms(v[j], elem_ty@),
                        plain(elem_ty@) ==> opt_texts_view(texts@) == array_texts(v, elem_ty@, i as int),
                    decreases elements.len() - i,
                {
                    let ghost before = opt_texts_view(texts@);
                    if elements[i].is_null() {
                        texts.push(None);
                        assert(opt_texts_view(texts@) =~= before.push(None));
                    } else {
                        match stringify_datum(&elements[i], elem_ty, fu) {
                            Some(s) => {
                                texts.push(Some(s));
                                assert(opt_texts_view(texts@) =~= before.push(Some(s@)));
                            },
                            None => {
                                assert(!(v[i as int] is Null || conforms(v[i as int], elem_ty@)));
                                return None;
                            },
                        }
                    }
                    i += 1;
                }
                Some(array_text(dims, &texts, nested))
            },
            _ => None,
        },
        ScalarType::List { element_type, .. } => match d {
            Datum::List(list) => {
                proof {
                    crate::datum::lemma_list_view(*d);
                }
                let elem_ty: &ScalarType = &**element_type;
                let ghost v = datums_view(list@);
                let nested = check_container(elem_ty);
                let mut out = String::new();
                out.push('{');
                let mut i: usize = 0;
                while i < list.len()
                    invariant
                        i <= list.len(),
                        forall|j: int| 0 <= j < i ==> (#[trigger] v[j]) is Null || conforms(v[j], elem_ty@),
                        plain(elem_ty@) ==> out@ == seq!['{'] + list_join(v, elem_ty@, i as int),
                    decreases list.len() - i,
                {
                    let ghost before = out@;
                    if i > 0 {
                        out.push(',');
                    }
                    let ghost mid = out@;
                    if list[i].is_null() {
                        out.append("NULL");
                    } else {
                        match stringify_datum(&list[i], elem_ty, fu) {
                            Some(s) => {
                                push_element(&mut out, s.as_str(), nested, false);
                            },
                            None => {
                                assert(!(v[i as int] is Null || conforms(v[i as int], elem_ty@)));
                                return None;
                            },
                        }
                    }
                    proof {
                        if plain(elem_ty@) {
                            assert(out@ == mid + member_text(v[i as int], elem_ty@));
                            assert(out@ =~= seq!['{'] + list_join(v, elem_ty@, i + 1));
                        }
                    }
                    i += 1;
                }
                out.push('}');
                proof {
                    if plain(ty@) {
                        assert(out@ =~= datum_text(d@, ty@));
                    }
                }
                Some(out)
            },
            _ => None,
        },
        ScalarType::Dict { value_type, .. } => match d {
            Datum::Dict(pairs) => {
                proof {
                    crate::datum::lemma_dict_view(*d);
                }
                let value_ty: &ScalarType = &**value_type;
                let ghost v = pairs_view(pairs@);
                let nested = check_container(value_ty);
                let mut out = String::new();
                out.push('{');
                let mut i: usize = 0;
                while i < pairs.len()
                    invariant
                        i <= pairs.len(),
                        forall|j: int| 0 <= j < i ==> (#[trigger] v[j]).1 is Null || conforms(v[j].1, value_ty@),
                        plain(value_ty@) ==> out@ == seq!['{'] + dict_join(v, value_ty@, i as int),
                    decreases pairs.len() - i,
                {
                    let ghost before = out@;
                    if i > 0 {
                        out.push(',');
                    }
                    push_element(&mut out, pairs[i].0.as_str(), false, false);
                    out.push('=');
                    out.push('>');
                    let ghost mid = out@;
                    if pairs[i].1.is_null() {
                        out.append("NULL");
                    } else {
                        match stringify_datum(&pairs[i].1, value_ty, fu) {
                            Some(s) => {
                                push_element(&mut out, s.as_str(), nested, false);
                            },
                            None => {
                                assert(!(v[i as int].1 is Null || conforms(v[i as int].1, value_ty@)));
                                return None;
                            },
                        }
                    }
                    proof {
                        if plain(value_ty@) {
                            assert(out@ == mid + member_text(v[i as int].1, value_ty@));
                            assert(out@ =~= seq!['{'] + dict_join(v, value_ty@, i + 1));
                        }
                    }
                    i += 1;
                }
                out.push('}');
                proof {
                    if plain(ty@) {
                        assert(out@ =~= datum_text(d@, ty@));
                    }
                }
                Some(out)
            },
            _ => None,
        },
        ScalarType::Record { fields, .. } => match d {
            Datum::List(list) => {
                proof {
                    crate::datum::lemma_list_view(*d);
                    crate::scalar_type::lemma_record_view(*ty);
                }
                let ghost v = datums_view(list@);
                let ghost fv = ty@->Record_fields;
                if list.len() != fields.len() {
                    return None;
                }
                let mut out = String::new();
                out.push('(');
                let mut i: usize = 0;
                while i < list.len()
                    invariant
                        i <= list.len(),
                        list.len() == fields.len(),
                        forall|j: int| 0 <= j < i ==> (#[trigger] v[j]) is Null || conforms(v[j], fv[j].1.scalar_type),
                        plain(ty@) ==> out@ == seq!['('] + record_join(v, fv, i as int),
                    decreases list.len() - i,
                {
                    let ghost before = out@;
                    if i > 0 {
                        out.push(',');
                    }
                    let ghost mid = out@;
                    assert(fv[i as int].1.scalar_type == fields@[i as int].1.scalar_type@);
                    if !list[i].is_null() {
                        match stringify_datum(&list[i], &fields[i].1.scalar_type, fu) {
                            Some(s) => {
                                push_element(&mut out, s.as_str(), false, true);
                            },
                            None => {
                                assert(!(v[i as int] is Null || conforms(v[i as int], fv[i as int].1.scalar_type)));
                                return None;
                            },
                        }
                    }
                    proof {
                        if plain(ty@) {
                            assert(plain(fv[i as int].1.scalar_type));
                            assert(out@ =~= seq!['('] + record_join(v, fv, i + 1));
                        }
                    }
                    i += 1;
                }
                out.push(')');
                proof {
                    if plain(ty@) {
                        assert(out@ =~= datum_text(d@, ty@));
                    }
                }
                Some(out)
            },
            _ => None,
        },
    }
}

/// What it is for an array, list, map or record type to be plain.
pub proof fn lemma_plain_unfold(ty: ScalarTypeV)
    ensures
        ty matches ScalarTypeV::Record { fields, .. } ==> plain(ty) == (forall|i: int|
            0 <= i < fields.len() ==> plain((#[trigger] fields[i]).1.scalar_type)),
        ty matches ScalarTypeV::Array(t) ==> plain(ty) == plain(*t),
        ty matches ScalarTypeV::List { element_type, .. } ==> plain(ty) == plain(*element_type),
        ty matches ScalarTypeV::Dict { value_type, .. } ==> plain(ty) == plain(*value_type),
{
    match ty {
        ScalarTypeV::Record { fields, .. } => {
            assert(plain(ty) == (forall|i: int| 0 <= i < fields.len() ==> plain((#[trigger] fields[i]).1.scalar_type)));
        },
        _ => {},
    }
}

/// A number of elements, or the greatest number that can be counted where
/// there are more.
pub open spec fn capped(n: int) -> int {
    if n > usize::MAX {
        usize::MAX as int
    } else {
        n
    }
}

/// The number of elements that the last `j + 1` dimensions of an array
/// hold together: after so many elements the brace of the dimension
/// closes.
pub open spec fn span_of(dims: Seq<crate::datum::ArrayDimension>, j: int) -> int
    decreases j,
{
    if j < 0 || j >= dims.len() {
        1
    } else if j == 0 {
        capped(dims[dims.len() - 1].length as int)
    } else {
        capped(span_of(dims, j - 1) * dims[dims.len() - 1 - j].length)
    }
}

/// How many of the first `n` dimensions from the last close a brace before
/// element `i`.
pub open spec fn closes(dims: Seq<crate::datum::ArrayDimension>, i: int, n: int) -> nat
    decreases n,
{
    if n <= 0 {
        0
    } else {
        closes(dims, i, n - 1) + if span_of(dims, n - 1) != 0 && i % span_of(dims, n - 1) == 0 {
            1nat
        } else {
            0nat
        }
    }
}

/// What stands between two elements of an array: the braces that close
/// before element `i`, a comma, and as many braces that open.
pub open spec fn array_separator(dims: Seq<crate::datum::ArrayDimension>, i: int) -> Seq<char> {
    let c = closes(dims, i, dims.len() - 1);
    repeated(seq!['}'], c) + seq![','] + repeated(seq!['{'], c)
}

/// The text of an element of an array: `NULL` for one without a text.
pub open spec fn array_element(t: Option<Seq<char>>, nested: bool) -> Seq<char> {
    match t {
        Some(t) => element_text(t, nested, false),
        None => "NULL"@,
    }
}

/// The texts of the first `n` elements of an array with what stands
/// between them.
pub open spec fn array_body(
    dims: Seq<crate::datum::ArrayDimension>,
    texts: Seq<Option<Seq<char>>>,
    nested: bool,
    n: int,
) -> Seq<char>
    decreases n,
{
    if n <= 0 || n > texts.len() {
        Seq::empty()
    } else if n == 1 {
        array_element(texts[0], nested)
    } else {
        array_body(dims, texts, nested, n - 1) + array_separator(dims, n - 1) + array_element(texts[n - 1], nested)
    }
}

/// The text of an array from the texts of its elements: `{}` for an array
/// without dimensions; else a brace for each dimension, the elements with
/// commas between them, a dimension closing and opening its brace each
/// time it is full, and a closing brace for each dimension.
pub open spec fn array_text_spec(
    dims: Seq<crate::datum::ArrayDimension>,
    texts: Seq<Option<Seq<char>>>,
    nested: bool,
) -> Seq<char> {
    if dims.len() == 0 {
        "{}"@
    } else {
        repeated(seq!['{'], dims.len()) + array_body(dims, texts, nested, texts.len() as int) + repeated(
            seq!['}'],
            dims.len(),
        )
    }
}

/// Appends a character a number of times.
fn push_repeated(out: &mut String, c: char, n: usize)
    ensures
        final(out)@ == old(out)@ + repeated(seq![c], n as nat),
{
    let ghost before = out@;
    let mut i: usize = 0;
    assert(before + repeated(seq![c], 0) =~= before);
    while i < n
        invariant
            i <= n,
            out@ == before + repeated(seq![c], i as nat),
        decreases n - i,
    {
        out.push(c);
        assert(out@ =~= before + repeated(seq![c], (i + 1) as nat));
        i += 1;
    }
}

/// The number of elements after which each dimension closes its brace,
/// from the last dimension to the first.
fn spans_of(dims: &Vec<crate::datum::ArrayDimension>) -> (r: Vec<usize>)
    ensures
        r@.len() == dims@.len(),
        forall|j: int| 0 <= j < r@.len() ==> (#[trigger] r@[j]) as int == span_of(dims@, j),
{
    let mut spans: Vec<usize> = Vec::new();
    let mut k: usize = dims.len();
    let mut span: usize = 1;
    while k > 0
        invariant
            k <= dims@.len(),
            spans@.len() == dims@.len() - k,
            spans@.len() > 0 ==> span as int == span_of(dims@, spans@.len() - 1),
            spans@.len() == 0 ==> span == 1,
            forall|j: int| 0 <= j < spans@.len() ==> (#[trigger] spans@[j]) as int == span_of(dims@, j),
        decreases k,
    {
        k -= 1;
        span = match span.checked_mul(dims[k].length) {
            Some(s) => s,
            None => usize::MAX,
        };
        spans.push(span);
    }
    spans
}

/// How many dimensions but the first close a brace before element `i`.
fn count_closes(dims: &Vec<crate::datum::ArrayDimension>, spans: &Vec<usize>, i: usize) -> (r: usize)
    requires
        spans@.len() == dims@.len(),
        forall|j: int| 0 <= j < spans@.len() ==> (#[trigger] spans@[j]) as int == span_of(dims@, j),
    ensures
        r == closes(dims@, i as int, dims@.len() - 1),
{
    let last: usize = if spans.len() == 0 {
        0
    } else {
        spans.len() - 1
    };
    let mut closed: usize = 0;
    let mut j: usize = 0;
    while j < last
        invariant
            j <= last < spans@.len() || (last == 0 && j == 0),
            spans@.len() == dims@.len(),
            closed <= j,
            closed == closes(dims@, i as int, j as int),
            forall|k: int| 0 <= k < spans@.len() ==> (#[trigger] spans@[k]) as int == span_of(dims@, k),
        decreases last - j,
    {
        if spans[j] != 0 && i % spans[j] == 0 {
            closed += 1;
        }
        j += 1;
    }
    closed
}

/// The text of an array from the texts of its elements.
fn array_text(dims: &Vec<crate::datum::ArrayDimension>, texts: &Vec<Option<String>>, nested: bool) -> (r: String)
    ensures
        r@ == array_text_spec(dims@, opt_texts_view(texts@), nested),
{
    let ghost tv = opt_texts_view(texts@);
    let mut out = String::new();
    if dims.len() == 0 {
        out.append("{}");
        assert(out@ =~= "{}"@);
        return out;
    }
    let spans = spans_of(dims);
    push_repeated(&mut out, '{', dims.len());
    let ghost open = out@;
    let mut i: usize = 0;
    assert(open + array_body(dims@, tv, nested, 0) =~= open);
    while i < texts.len()
        invariant
            i <= texts@.len(),
            tv == opt_texts_view(texts@),
            spans@.len() == dims@.len(),
            forall|j: int| 0 <= j < spans@.len() ==> (#[trigger] spans@[j]) as int == span_of(dims@, j),
            out@ == open + array_body(dims@, tv, nested, i as int),
        decreases texts.len() - i,
    {
        let ghost before = out@;
        if i > 0 {
            let closed = count_closes(dims, &spans, i);
            push_repeated(&mut out, '}', closed);
            out.push(',');
            push_repeated(&mut out, '{', closed);
            assert(out@ =~= before + array_separator(dims@, i as int));
        }
        let ghost mid = out@;
        match &texts[i] {
            Some(s) => {
                push_element(&mut out, s.as_str(), nested, false);
            },
            None => {
                out.append("NULL");
            },
        }
        assert(out@ =~= mid + array_element(tv[i as int], nested));
        assert(out@ =~= open + array_body(dims@, tv, nested, i + 1));
        i += 1;
    }
    push_repeated(&mut out, '}', dims.len());
    out
}

/// The error for a datum that is no value of the type that it is to be
/// written as.
pub open spec fn not_of_type() -> EvalErrorV {
    EvalErrorV::Internal("datum is no value of the type"@)
}

/// The text of a record, an array, a list or a map.
pub fn cast_collection_to_string<F: FloatUnit>(a: &Datum, ty: &ScalarType, fu: &F) -> (r: Result<Datum, EvalError>)
    ensures
        conforms(a@, ty@) && plain(ty@) ==> res_view(r) == Ok::<DatumV, EvalErrorV>(
            DatumV::String(datum_text(a@, ty@)),
        ),
        conforms(a@, ty@) ==> r is Ok && r->Ok_0@ is String,
        !conforms(a@, ty@) ==> res_view(r) == Err::<DatumV, EvalErrorV>(not_of_type()),
{
    match stringify_datum(a, ty, fu) {
        Some(s) => Ok(Datum::String(s)),
        None => Err(EvalError::internal("datum is no value of the type")),
    }
}

/// The texts of the first `n` elements of an array, each with the
/// delimiter behind it; a null element is written as the text for nulls
/// where there is one, and left out where there is none.
pub open spec fn delimited(v: Seq<DatumV>, ty: ScalarTypeV, delimiter: Seq<char>, null_text: Option<Seq<char>>, n: int) -> Seq<
    char,
>
    decreases n,
{
    if n <= 0 || n > v.len() {
        Seq::empty()
    } else {
        delimited(v, ty, delimiter, null_text, n - 1) + if v[n - 1] is Null {
            match null_text {
                Some(t) => t + delimiter,
                None => Seq::empty(),
            }
        } else {
            datum_text(v[n - 1], ty) + delimiter
        }
    }
}

/// The text of `array_to_string`: the texts of the elements with the
/// delimiter between them.
pub open spec fn array_to_string_text(
    v: Seq<DatumV>,
    ty: ScalarTypeV,
    delimiter: Seq<char>,
    null_text: Option<Seq<char>>,
) -> Seq<char> {
    let all = delimited(v, ty, delimiter, null_text, v.len() as int);
    if all.len() >= delimiter.len() {
        all.take(all.len() - delimiter.len())
    } else {
        all
    }
}

/// The elements of an array as one text, with a delimiter between them. A
/// null element is left out, unless a text for nulls is given. Null where
/// the array or the delimiter is null.
#[verifier::loop_isolation(false)]
pub fn array_to_string<F: FloatUnit>(datums: &Vec<Datum>, elem_type: &ScalarType, fu: &F) -> (r: Result<
    Datum,
    EvalError,
>)
    requires
        2 <= datums@.len() <= 3,
        datums@[0]@ is Null || datums@[0]@ is Array,
        datums@[1]@ is Null || datums@[1]@ is String,
        datums@.len() == 3 ==> datums@[2]@ is Null || datums@[2]@ is String,
    ensures
        datums@[0]@ is Null || datums@[1]@ is Null ==> res_view(r) == Ok::<DatumV, EvalErrorV>(DatumV::Null),
        !(datums@[0]@ is Null || datums@[1]@ is Null) && plain(elem_type@) && conforms(
            datums@[0]@,
            ScalarTypeV::Array(Box::new(elem_type@)),
        ) ==> res_view(r) == Ok::<DatumV, EvalErrorV>(
            DatumV::String(
                array_to_string_text(
                    datums@[0]@->elements,
                    elem_type@,
                    datums@[1]@->String_0,
                    if datums@.len() == 3 && datums@[2]@ is String {
                        Some(datums@[2]@->String_0)
                    } else {
                        None
                    },
                ),
            ),
        ),
        !(datums@[0]@ is Null || datums@[1]@ is Null) && !conforms(
            datums@[0]@,
            ScalarTypeV::Array(Box::new(elem_type@)),
        ) ==> res_view(r) == Err::<DatumV, EvalErrorV>(not_of_type()),
{
    if datums[0].is_null() || datums[1].is_null() {
        return Ok(Datum::Null);
    }
    let elements = datums[0].unwrap_array_elements();
    let delimiter = datums[1].unwrap_str();
    let null_str: Option<&str> = if datums.len() == 3 && !datums[2].is_null() {
        Some(datums[2].unwrap_str())
    } else {
        None
    };
    let ghost v = datums_view(elements@);
    let ghost nt: Option<Seq<char>> = match null_str {
        Some(t) => Some(t@),
        None => None,
    };
    proof {
        lemma_conforms_unfold(datums@[0]@, ScalarTypeV::Array(Box::new(elem_type@)));
    }
    let mut out: Vec<char> = Vec::new();
    let d = to_chars(delimiter);
    let mut i: usize = 0;
    while i < elements.len()
        invariant
            i <= elements.len(),
            forall|j: int| 0 <= j < i ==> (#[trigger] v[j]) is Null || conforms(v[j], elem_type@),
            plain(elem_type@) && conforms(datums@[0]@, ScalarTypeV::Array(Box::new(elem_type@))) ==> out@ == delimited(
                v,
                elem_type@,
                delimiter@,
                nt,
                i as int,
            ),
        decreases elements.len() - i,
    {
        let ghost before = out@;
        if elements[i].is_null() {
            match null_str {
                Some(t) => {
                    crate::text::push_all(&mut out, &to_chars(t));
                    crate::text::push_all(&mut out, &d);
                    assert(out@ =~= before + (t@ + delimiter@));
                },
                None => {
                    assert(before + Seq::<char>::empty() =~= before);
                },
            }
        } else {
            match stringify_datum(&elements[i], elem_type, fu) {
                Some(s) => {
                    crate::text::push_all(&mut out, &to_chars(s.as_str()));
                    crate::text::push_all(&mut out, &d);
                    assert(out@ =~= before + (s@ + delimiter@));
                },
                None => {
                    assert(v[i as int] == datums@[0]@->elements[i as int]);
                    assert(!(v[i as int] is Null || conforms(v[i as int], elem_type@)));
                    return Err(EvalError::internal("datum is no value of the type"));
                },
            }
        }
        i += 1;
    }
    assert(conforms(datums@[0]@, ScalarTypeV::Array(Box::new(elem_type@)))) by {
        assert(v =~= datums@[0]@->elements);
    }
    let end = if out.len() >= d.len() {
        out.len() - d.len()
    } else {
        out.len()
    };
    let r = crate::strings::from_chars_range(&out, 0, end);
    assert(out@.subrange(0, end as int) =~= out@.take(end as int));
    proof {
        if out@.len() < d@.len() {
            assert(out@.take(end as int) =~= out@);
        }
    }
    Ok(Datum::String(r))
}

/// The type modifier of a type as it is shown: precision and scale of a
/// numeric type, and nothing for any other type.
pub open spec fn typemod_text(oid: i32, typmod: i32) -> Seq<char> {
    if oid == 1700 && typmod >= 0 {
        let t = typmod - 4;
        if t < 0 {
            seq!['('] + int_text(65_535) + seq![','] + int_text(65_536 + t) + seq![')']
        } else {
            seq!['('] + int_text(t / 65_536) + seq![','] + int_text(t % 65_536) + seq![')']
        }
    } else {
        Seq::empty()
    }
}

pub fn mz_render_typemod(oid: &Datum, typmod: &Datum) -> (r: Datum)
    requires
        oid@ is Int32,
        typmod@ is Int32,
    ensures
        r@ == DatumV::String(typemod_text(oid@->Int32_0, typmod@->Int32_0)),
{
    let oid = oid.unwrap_int32();
    let typmod = typmod.unwrap_int32() as i64;
    let mut out = String::new();
    if oid == 1700 && typmod >= 0 {
        let t = typmod - 4;
        let (p, s): (i64, i64) = if t < 0 {
            (65_535, 65_536 + t)
        } else {
            (t / 65_536, t % 65_536)
        };
        out.push('(');
        out.append(crate::strings::format_int(p).as_str());
        out.push(',');
        out.append(crate::strings::format_int(s).as_str());
        out.push(')');
        assert(out@ =~= typemod_text(oid, typmod as i32));
    }
    Datum::String(out)
}

} // verus!
