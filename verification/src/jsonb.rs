//! JSON datums: which datums are JSON, and their text.

use vstd::prelude::*;
use vstd::string::StringExecFns;
use crate::datum::{datums_view, pairs_view, Datum, DatumV};
use crate::float::FloatUnit;
use crate::order::{order_text, text_order, Order};
use crate::strings::{format_int, int_text, to_chars};

verus! {

/// Whether a datum is a JSON value: JSON null, a truth value, a 64-bit
/// integer, a double, a text, a list of JSON values or a map of them.
pub open spec fn is_jsonb(d: DatumV) -> bool
    decreases d,
{
    match d {
        DatumV::JsonNull | DatumV::True | DatumV::False | DatumV::Int64(_) | DatumV::Float64(_) | DatumV::String(
            _,
        ) => true,
        DatumV::List(v) => forall|i: int| 0 <= i < v.len() ==> is_jsonb(#[trigger] v[i]),
        DatumV::Dict(v) => forall|i: int| 0 <= i < v.len() ==> is_jsonb((#[trigger] v[i]).1),
        _ => false,
    }
}

/// Whether a JSON value holds a double anywhere.
pub open spec fn has_double(d: DatumV) -> bool
    decreases d,
{
    match d {
        DatumV::Float64(_) => true,
        DatumV::List(v) => exists|i: int| 0 <= i < v.len() && has_double(#[trigger] v[i]),
        DatumV::Dict(v) => exists|i: int| 0 <= i < v.len() && has_double((#[trigger] v[i]).1),
        _ => false,
    }
}

/// A list is a JSON value when its elements are; a map when its values
/// are. A list or map holds a double when an element or value does.
pub proof fn lemma_jsonb_unfold(d: DatumV)
    ensures
        d matches DatumV::List(v) ==> is_jsonb(d) == (forall|i: int| 0 <= i < v.len() ==> is_jsonb(#[trigger] v[i])),
        d matches DatumV::Dict(v) ==> is_jsonb(d) == (forall|i: int|
            0 <= i < v.len() ==> is_jsonb((#[trigger] v[i]).1)),
        d matches DatumV::List(v) ==> has_double(d) == (exists|i: int|
            0 <= i < v.len() && has_double(#[trigger] v[i])),
        d matches DatumV::Dict(v) ==> has_double(d) == (exists|i: int|
            0 <= i < v.len() && has_double((#[trigger] v[i]).1)),
{
    match d {
        DatumV::List(v) => {
            assert(is_jsonb(d) == (forall|i: int| 0 <= i < v.len() ==> is_jsonb(#[trigger] v[i])));
            assert(has_double(d) == (exists|i: int| 0 <= i < v.len() && has_double(#[trigger] v[i])));
        },
        DatumV::Dict(v) => {
            assert(is_jsonb(d) == (forall|i: int| 0 <= i < v.len() ==> is_jsonb((#[trigger] v[i]).1)));
            assert(has_double(d) == (exists|i: int| 0 <= i < v.len() && has_double((#[trigger] v[i]).1)));
        },
        _ => {},
    }
}

/// Whether a datum is a JSON value.
#[verifier::loop_isolation(false)]
pub fn check_jsonb(d: &Datum) -> (r: bool)
    ensures
        r == is_jsonb(d@),
    decreases d,
{
    match d {
        Datum::JsonNull | Datum::True | Datum::False | Datum::Int64(_) | Datum::Float64(_) | Datum::String(_) => true,
        Datum::List(v) => {
            proof {
                crate::datum::lemma_list_view(*d);
            }
            let ghost s = datums_view(v@);
            assert(d@ == DatumV::List(s));
            proof {
                lemma_jsonb_unfold(d@);
            }
            let mut i: usize = 0;
            while i < v.len()
                invariant
                    i <= v.len(),
                    forall|j: int| 0 <= j < i ==> is_jsonb(#[trigger] s[j]),
                decreases v.len() - i,
            {
                if !check_jsonb(&v[i]) {
                    assert(!is_jsonb(s[i as int]));
                    return false;
                }
                i += 1;
            }
            true
        },
        Datum::Dict(v) => {
            proof {
                crate::datum::lemma_dict_view(*d);
            }
            let ghost s = pairs_view(v@);
            assert(d@ == DatumV::Dict(s));
            proof {
                lemma_jsonb_unfold(d@);
            }
            let mut i: usize = 0;
            while i < v.len()
                invariant
                    i <= v.len(),
                    forall|j: int| 0 <= j < i ==> is_jsonb((#[trigger] s[j]).1),
                decreases v.len() - i,
            {
                if !check_jsonb(&v[i].1) {
                    assert(!is_jsonb(s[i as int].1));
                    return false;
                }
                i += 1;
            }
            true
        },
        _ => false,
    }
}

/// Whether the key of pair `i` stands above the key of the pair before
/// it, if there is one.
pub open spec fn key_above(v: Seq<(Seq<char>, DatumV)>, i: int) -> bool {
    0 < i < v.len() ==> text_order(v[i - 1].0, v[i].0, 0) == Order::Less
}

/// Whether the keys of every map in a datum, at whichever depth within
/// lists and maps, ascend from each member to the next, so that no key
/// stands twice.
pub open spec fn keys_ascend(d: DatumV) -> bool
    decreases d,
{
    match d {
        DatumV::List(v) => forall|i: int| 0 <= i < v.len() ==> keys_ascend(#[trigger] v[i]),
        DatumV::Dict(v) => forall|i: int| 0 <= i < v.len() ==> keys_ascend((#[trigger] v[i]).1) && key_above(v, i),
        _ => true,
    }
}

/// What it is for the keys of a list or a map to ascend.
pub proof fn lemma_keys_unfold(d: DatumV)
    ensures
        d matches DatumV::List(v) ==> keys_ascend(d) == (forall|i: int|
            0 <= i < v.len() ==> keys_ascend(#[trigger] v[i])),
        d matches DatumV::Dict(v) ==> keys_ascend(d) == (forall|i: int|
            0 <= i < v.len() ==> keys_ascend((#[trigger] v[i]).1) && key_above(v, i)),
{
    match d {
        DatumV::List(v) => {
            assert(keys_ascend(d) == (forall|i: int| 0 <= i < v.len() ==> keys_ascend(#[trigger] v[i])));
        },
        DatumV::Dict(v) => {
            assert(keys_ascend(d) == (forall|i: int|
                0 <= i < v.len() ==> keys_ascend((#[trigger] v[i]).1) && key_above(v, i)));
        },
        _ => {},
    }
}

/// Whether the key of a pair stands above the key of the pair before it.
pub fn check_key_above(v: &Vec<(String, Datum)>, i: usize) -> (r: bool)
    requires
        i < v@.len(),
    ensures
        r == key_above(pairs_view(v@), i as int),
{
    if i == 0 {
        return true;
    }
    match order_text(v[i - 1].0.as_str(), v[i].0.as_str()) {
        Order::Less => true,
        _ => false,
    }
}

/// Whether the keys of every map in a datum ascend and are unique.
#[verifier::loop_isolation(false)]
pub fn check_keys(d: &Datum) -> (r: bool)
    ensures
        r == keys_ascend(d@),
    decreases d,
{
    match d {
        Datum::List(v) => {
            proof {
                crate::datum::lemma_list_view(*d);
            }
            let ghost s = datums_view(v@);
            assert(d@ == DatumV::List(s));
            proof {
                lemma_keys_unfold(d@);
            }
            let mut i: usize = 0;
            while i < v.len()
                invariant
                    i <= v.len(),
                    forall|j: int| 0 <= j < i ==> keys_ascend(#[trigger] s[j]),
                decreases v.len() - i,
            {
                if !check_keys(&v[i]) {
                    assert(!keys_ascend(s[i as int]));
                    return false;
                }
                i += 1;
            }
            true
        },
        Datum::Dict(v) => {
            proof {
                crate::datum::lemma_dict_view(*d);
            }
            let ghost s = pairs_view(v@);
            assert(d@ == DatumV::Dict(s));
            proof {
                lemma_keys_unfold(d@);
            }
            let mut i: usize = 0;
            while i < v.len()
                invariant
                    i <= v.len(),
                    forall|j: int| 0 <= j < i ==> keys_ascend((#[trigger] s[j]).1) && key_above(s, j),
                decreases v.len() - i,
            {
                if !check_key_above(v, i) || !check_keys(&v[i].1) {
                    assert(!(keys_ascend(s[i as int].1) && key_above(s, i as int)));
                    return false;
                }
                i += 1;
            }
            true
        },
        Datum::JsonNull | Datum::True | Datum::False | Datum::Int64(_) | Datum::Float64(_) | Datum::String(_) => true,
        _ => true,
    }
}

/// The digit of a value below sixteen, in lower case.
pub open spec fn hex_digit(d: int) -> char {
    if d < 10 {
        (48 + d) as u8 as char
    } else {
        (87 + d) as u8 as char
    }
}

/// A character as it stands inside a JSON text: the quote and the
/// backslash behind a backslash, a control character by its short escape
/// or as `\u00` and two hexadecimal digits.
pub open spec fn escaped_char(c: char) -> Seq<char> {
    let u = c as u32;
    if c == '"' {
        seq!['\\', '"']
    } else if c == '\\' {
        seq!['\\', '\\']
    } else if u == 8 {
        seq!['\\', 'b']
    } else if u == 12 {
        seq!['\\', 'f']
    } else if u == 10 {
        seq!['\\', 'n']
    } else if u == 13 {
        seq!['\\', 'r']
    } else if u == 9 {
        seq!['\\', 't']
    } else if u < 32 {
        seq!['\\', 'u', '0', '0', hex_digit((u / 16) as int), hex_digit((u % 16) as int)]
    } else {
        seq![c]
    }
}

/// The characters of a text as they stand inside a JSON text.
pub open spec fn escaped(s: Seq<char>) -> Seq<char>
    decreases s.len(),
{
    if s.len() == 0 {
        Seq::empty()
    } else {
        escaped(s.drop_last()) + escaped_char(s.last())
    }
}

/// A text as a JSON text: between quotes, escaped.
pub open spec fn quoted(s: Seq<char>) -> Seq<char> {
    seq!['"'] + escaped(s) + seq!['"']
}

/// The text of a JSON value without doubles: compact, the members of an
/// object in the order of the map.
pub open spec fn jsonb_text(d: DatumV) -> Seq<char>
    decreases d, 0nat, 0nat,
{
    match d {
        DatumV::JsonNull => "null"@,
        DatumV::True => "true"@,
        DatumV::False => "false"@,
        DatumV::Int64(i) => int_text(i as int),
        DatumV::String(s) => quoted(s),
        DatumV::List(v) => seq!['['] + list_text(v, v.len() as int) + seq![']'],
        DatumV::Dict(v) => seq!['{'] + dict_text(v, v.len() as int) + seq!['}'],
        _ => Seq::empty(),
    }
}

/// The texts of the first `n` elements of a list, with commas between
/// them.
pub open spec fn list_text(v: Seq<DatumV>, n: int) -> Seq<char>
    decreases v, 1nat, n,
{
    if n <= 0 || n > v.len() {
        Seq::empty()
    } else if n == 1 {
        jsonb_text(v[0])
    } else {
        list_text(v, n - 1) + seq![','] + jsonb_text(v[n - 1])
    }
}

/// The texts of the first `n` members of a map, with commas between them.
pub open spec fn dict_text(v: Seq<(Seq<char>, DatumV)>, n: int) -> Seq<char>
    decreases v, 1nat, n,
{
    if n <= 0 || n > v.len() {
        Seq::empty()
    } else if n == 1 {
        quoted(v[0].0) + seq![':'] + jsonb_text(v[0].1)
    } else {
        dict_text(v, n - 1) + seq![','] + quoted(v[n - 1].0) + seq![':'] + jsonb_text(v[n - 1].1)
    }
}

/// Appends a character as it stands inside a JSON text.
fn push_escaped_char(out: &mut String, c: char)
    ensures
        final(out)@ == old(out)@ + escaped_char(c),
{
    let ghost before = out@;
    let u = c as u32;
    if c == '"' {
        out.push('\\');
        out.push('"');
        assert(out@ =~= before + escaped_char(c));
    } else if c == '\\' {
        out.push('\\');
        out.push('\\');
        assert(out@ =~= before + escaped_char(c));
    } else if u == 8 {
        out.push('\\');
        out.push('b');
        assert(out@ =~= before + escaped_char(c));
    } else if u == 12 {
        out.push('\\');
        out.push('f');
        assert(out@ =~= before + escaped_char(c));
    } else if u == 10 {
        out.push('\\');
        out.push('n');
        assert(out@ =~= before + escaped_char(c));
    } else if u == 13 {
        out.push('\\');
        out.push('r');
        assert(out@ =~= before + escaped_char(c));
    } else if u == 9 {
        out.push('\\');
        out.push('t');
        assert(out@ =~= before + escaped_char(c));
    } else if u < 32 {
        let hi = u / 16;
        let lo = u % 16;
        let h = if hi < 10 {
            ((48 + hi) as u8) as char
        } else {
            ((87 + hi) as u8) as char
        };
        let l = if lo < 10 {
            ((48 + lo) as u8) as char
        } else {
            ((87 + lo) as u8) as char
        };
        out.push('\\');
        out.push('u');
        out.push('0');
        out.push('0');
        out.push(h);
        out.push(l);
        assert(out@ =~= before + escaped_char(c));
    } else {
        out.push(c);
        assert(out@ =~= before + escaped_char(c));
    }
}

/// Appends a text as a JSON text.
pub fn push_quoted(out: &mut String, s: &str)
    ensures
        final(out)@ == old(out)@ + quoted(s@),
{
    let ghost before = out@;
    let v = to_chars(s);
    out.push('"');
    let mut i: usize = 0;
    while i < v.len()
        invariant
            i <= v.len(),
            v@ == s@,
            out@ == before + seq!['"'] + escaped(v@.take(i as int)),
        decreases v.len() - i,
    {
        let ghost mid = out@;
        push_escaped_char(out, v[i]);
        proof {
            assert(v@.take(i + 1).drop_last() =~= v@.take(i as int));
            assert(v@.take(i + 1).last() == v@[i as int]);
            assert(out@ =~= before + seq!['"'] + escaped(v@.take(i + 1)));
        }
        i += 1;
    }
    assert(v@.take(v.len() as int) =~= v@);
    out.push('"');
    assert(out@ =~= before + quoted(s@));
}

/// Appends the text of a JSON value. The text of a double is that of the
/// host.
#[verifier::loop_isolation(false)]
pub fn push_jsonb<F: FloatUnit>(out: &mut String, d: &Datum, fu: &F)
    requires
        is_jsonb(d@),
    ensures
        !has_double(d@) ==> final(out)@ == old(out)@ + jsonb_text(d@),
    decreases d,
{
    let ghost before = out@;
    match d {
        Datum::JsonNull => {
            out.append("null");
        },
        Datum::True => {
            out.append("true");
        },
        Datum::False => {
            out.append("false");
        },
        Datum::Int64(i) => {
            let t = format_int(*i);
            out.append(t.as_str());
        },
        Datum::Float64(b) => {
            let t = fu.format64(*b);
            out.append(t.as_str());
        },
        Datum::String(s) => {
            push_quoted(out, s.as_str());
        },
        Datum::List(v) => {
            proof {
                crate::datum::lemma_list_view(*d);
            }
            let ghost s = datums_view(v@);
            assert(d@ == DatumV::List(s));
            proof {
                lemma_jsonb_unfold(d@);
            }
            out.push('[');
            let mut i: usize = 0;
            while i < v.len()
                invariant
                    i <= v.len(),
                    (forall|j: int| 0 <= j < i ==> !has_double(#[trigger] s[j])) ==> out@ == before + seq!['['] + list_text(
                        s,
                        i as int,
                    ),
                decreases v.len() - i,
            {
                let ghost mid = out@;
                if i > 0 {
                    out.push(',');
                }
                let ghost mid2 = out@;
                assert(is_jsonb(s[i as int]));
                push_jsonb(out, &v[i], fu);
                proof {
                    if forall|j: int| 0 <= j < i + 1 ==> !has_double(#[trigger] s[j]) {
                        assert(!has_double(s[i as int]));
                        assert(out@ == mid2 + jsonb_text(s[i as int]));
                        assert(out@ =~= before + seq!['['] + list_text(s, i + 1));
                    }
                }
                i += 1;
            }
            out.push(']');
            proof {
                if !has_double(d@) {
                    assert(forall|j: int| 0 <= j < v.len() ==> !has_double(#[trigger] s[j]));
                    assert(out@ =~= before + jsonb_text(d@));
                }
            }
        },
        Datum::Dict(v) => {
            proof {
                crate::datum::lemma_dict_view(*d);
            }
            let ghost s = pairs_view(v@);
            assert(d@ == DatumV::Dict(s));
            proof {
                lemma_jsonb_unfold(d@);
            }
            out.push('{');
            let mut i: usize = 0;
            while i < v.len()
                invariant
                    i <= v.len(),
                    (forall|j: int| 0 <= j < i ==> !has_double((#[trigger] s[j]).1)) ==> out@ == before + seq!['{']
                        + dict_text(s, i as int),
                decreases v.len() - i,
            {
                if i > 0 {
                    out.push(',');
                }
                push_quoted(out, v[i].0.as_str());
                out.push(':');
                let ghost mid2 = out@;
                assert(is_jsonb(s[i as int].1));
                push_jsonb(out, &v[i].1, fu);
                proof {
                    if forall|j: int| 0 <= j < i + 1 ==> !has_double((#[trigger] s[j]).1) {
                        assert(!has_double(s[i as int].1));
                        assert(out@ == mid2 + jsonb_text(s[i as int].1));
                        assert(out@ =~= before + seq!['{'] + dict_text(s, i + 1));
                    }
                }
                i += 1;
            }
            out.push('}');
            proof {
                if !has_double(d@) {
                    assert(forall|j: int| 0 <= j < v.len() ==> !has_double((#[trigger] s[j]).1));
                    assert(out@ =~= before + jsonb_text(d@));
                }
            }
        },
        _ => {
            assert(false);
        },
    }
}

/// The text of a JSON value.
pub fn format_jsonb<F: FloatUnit>(d: &Datum, fu: &F) -> (r: String)
    requires
        is_jsonb(d@),
    ensures
        !has_double(d@) ==> r@ == jsonb_text(d@),
{
    let mut out = String::new();
    push_jsonb(&mut out, d, fu);
    assert(Seq::<char>::empty() + jsonb_text(d@) =~= jsonb_text(d@));
    out
}

/// What a JSON value becomes when it is turned into a text: SQL null for
/// JSON null, itself for a text, its JSON text for any other value.
pub open spec fn stringify_spec(d: DatumV) -> DatumV {
    match d {
        DatumV::JsonNull => DatumV::Null,
        DatumV::String(_) => d,
        _ => DatumV::String(jsonb_text(d)),
    }
}

/// Turns a JSON value into a text, as the operators `->>` and `#>>` do.
pub fn jsonb_stringify<F: FloatUnit>(a: &Datum, fu: &F) -> (r: Datum)
    requires
        is_jsonb(a@),
    ensures
        !has_double(a@) ==> r@ == stringify_spec(a@),
        a@ is JsonNull ==> r@ is Null,
        !(a@ is JsonNull) ==> r@ is String,
{
    match a {
        Datum::JsonNull => Datum::Null,
        Datum::String(_) => a.clone(),
        _ => Datum::String(format_jsonb(a, fu)),
    }
}

} // verus!
