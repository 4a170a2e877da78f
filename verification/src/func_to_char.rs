//! Timestamps written after a template, and JSON values written on
//! several lines.

use vstd::prelude::*;
use vstd::string::StringExecFns;
use crate::datetime::{civil, civil_of, Civil};
use crate::datum::{datums_view, pairs_view, Datum, DatumV, Time, Timestamp};
use crate::float::FloatUnit;
use crate::func_format::{padded, push_padded, written_year};
use crate::jsonb::{has_double, is_jsonb, jsonb_text, lemma_jsonb_unfold, push_quoted, quoted};
use crate::strings::to_chars;
use crate::text::matches_at;

verus! {

/// The field of a timestamp that a pattern of a template stands for, as a
/// number and the width that it is written in, and the length of the
/// pattern; none where no pattern stands at the place.
pub open spec fn field_at(fmt: Seq<char>, i: int, c: Civil, t: Time) -> Option<(nat, int, int)> {
    let hour = (t.secs / 3600) as nat;
    let hour12 = if hour % 12 == 0 {
        12nat
    } else {
        hour % 12
    };
    if matches_at(fmt, "YYYY"@, i) {
        Some((written_year(c.year as int).0, 4, 4))
    } else if matches_at(fmt, "HH24"@, i) {
        Some((hour, 2, 4))
    } else if matches_at(fmt, "HH12"@, i) {
        Some((hour12, 2, 4))
    } else if matches_at(fmt, "MM"@, i) {
        Some((c.month as nat, 2, 2))
    } else if matches_at(fmt, "DD"@, i) {
        Some((c.day as nat, 2, 2))
    } else if matches_at(fmt, "HH"@, i) {
        Some((hour12, 2, 2))
    } else if matches_at(fmt, "MI"@, i) {
        Some((((t.secs / 60) % 60) as nat, 2, 2))
    } else if matches_at(fmt, "SS"@, i) {
        Some(((t.secs % 60) as nat, 2, 2))
    } else if matches_at(fmt, "MS"@, i) {
        Some(((t.nanos / 1_000_000) as nat, 3, 2))
    } else if matches_at(fmt, "US"@, i) {
        Some(((t.nanos / 1_000) as nat, 6, 2))
    } else {
        None
    }
}

/// A timestamp written after a template from a place of the template on:
/// each pattern gives its field, and any other character itself. The
/// patterns are `YYYY`, `MM`, `DD`, `HH24`, `HH12`, `HH`, `MI`, `SS`, `MS`
/// and `US`.
pub open spec fn rendered(fmt: Seq<char>, i: int, c: Civil, t: Time) -> Seq<char>
    decreases fmt.len() + 4 - i,
{
    if i < 0 || i >= fmt.len() {
        Seq::empty()
    } else {
        match field_at(fmt, i, c, t) {
            Some((n, width, len)) => if 0 < len <= 4 {
                padded(n, width) + rendered(fmt, i + len, c, t)
            } else {
                Seq::empty()
            },
            None => seq![fmt[i]] + rendered(fmt, i + 1, c, t),
        }
    }
}

/// Whether a pattern stands at a place of a template.
fn has_at(v: &Vec<char>, i: usize, pat: &str) -> (r: bool)
    requires
        i <= v@.len(),
    ensures
        r == matches_at(v@, pat@, i as int),
{
    let p = to_chars(pat);
    if p.len() > v.len() - i {
        return false;
    }
    crate::text::check_match(v, &p, i)
}

fn field_of(v: &Vec<char>, i: usize, c: Civil, t: Time) -> (r: Option<(u64, usize, usize)>)
    requires
        i < v@.len(),
        t.wf(),
        -262_143 <= c.year <= 262_142,
        1 <= c.month <= 12,
        1 <= c.day <= 31,
    ensures
        match r {
            Some((n, w, l)) => field_at(v@, i as int, c, t) == Some((n as nat, w as int, l as int)) && 0 < l && i + l
                <= v@.len() && n <= 1_000_000,
            None => field_at(v@, i as int, c, t) is None,
        },
{
    let hour = (t.secs / 3600) as u64;
    let hour12 = if hour % 12 == 0 {
        12
    } else {
        hour % 12
    };
    let year: u64 = if c.year > 0 {
        c.year as u64
    } else {
        (1 - c.year as i64) as u64
    };
    proof {
        reveal_strlit("YYYY");
        reveal_strlit("HH24");
        reveal_strlit("HH12");
        reveal_strlit("MM");
        reveal_strlit("DD");
        reveal_strlit("HH");
        reveal_strlit("MI");
        reveal_strlit("SS");
        reveal_strlit("MS");
        reveal_strlit("US");
    }
    if has_at(v, i, "YYYY") {
        Some((year, 4, 4))
    } else if has_at(v, i, "HH24") {
        Some((hour, 2, 4))
    } else if has_at(v, i, "HH12") {
        Some((hour12, 2, 4))
    } else if has_at(v, i, "MM") {
        Some((c.month as u64, 2, 2))
    } else if has_at(v, i, "DD") {
        Some((c.day as u64, 2, 2))
    } else if has_at(v, i, "HH") {
        Some((hour12, 2, 2))
    } else if has_at(v, i, "MI") {
        Some((((t.secs / 60) % 60) as u64, 2, 2))
    } else if has_at(v, i, "SS") {
        Some(((t.secs % 60) as u64, 2, 2))
    } else if has_at(v, i, "MS") {
        Some(((t.nanos / 1_000_000) as u64, 3, 2))
    } else if has_at(v, i, "US") {
        Some(((t.nanos / 1_000) as u64, 6, 2))
    } else {
        None
    }
}

/// Writes a timestamp after a template.
pub fn render_timestamp(fmt: &str, ts: Timestamp) -> (r: String)
    requires
        ts.wf(),
    ensures
        r@ == rendered(fmt@, 0, civil(ts.date.days), ts.time),
{
    let v = to_chars(fmt);
    let c = civil_of(ts.date.days);
    let mut out = String::new();
    let mut i: usize = 0;
    assert(out@ + rendered(v@, 0, c, ts.time) =~= rendered(v@, 0, c, ts.time));
    while i < v.len()
        invariant
            i <= v.len(),
            v@ == fmt@,
            c == civil(ts.date.days),
            ts.wf(),
            -262_143 <= c.year <= 262_142,
            1 <= c.month <= 12,
            1 <= c.day <= 31,
            out@ + rendered(v@, i as int, c, ts.time) == rendered(v@, 0, c, ts.time),
        decreases v.len() - i,
    {
        let ghost before = out@;
        match field_of(&v, i, c, ts.time) {
            Some((n, w, l)) => {
                push_padded(&mut out, n, w);
                assert(out@ + rendered(v@, i + l, c, ts.time) =~= before + (padded(n as nat, w as int) + rendered(
                    v@,
                    i + l,
                    c,
                    ts.time,
                )));
                i += l;
            },
            None => {
                out.push(v[i]);
                assert(out@ + rendered(v@, i + 1, c, ts.time) =~= before + (seq![v@[i as int]] + rendered(
                    v@,
                    i + 1,
                    c,
                    ts.time,
                )));
                i += 1;
            },
        }
    }
    assert(out@ + Seq::<char>::empty() =~= out@);
    out
}

pub fn to_char_timestamp(a: &Datum, b: &Datum) -> (r: Datum)
    requires
        crate::func_datetime::is_timestamp(a@),
        b@ is String,
    ensures
        r@ == DatumV::String(rendered(b@->String_0, 0, civil(a@->Timestamp_0.date.days), a@->Timestamp_0.time)),
{
    Datum::String(render_timestamp(b.unwrap_str(), a.unwrap_timestamp()))
}

pub fn to_char_timestamptz(a: &Datum, b: &Datum) -> (r: Datum)
    requires
        crate::func_datetime::is_timestamptz(a@),
        b@ is String,
    ensures
        r@ == DatumV::String(rendered(b@->String_0, 0, civil(a@->TimestampTz_0.date.days), a@->TimestampTz_0.time)),
{
    Datum::String(render_timestamp(b.unwrap_str(), a.unwrap_timestamptz()))
}

/// The spaces before a line at a depth: two for each level.
pub open spec fn indent(depth: nat) -> Seq<char> {
    Seq::new(2 * depth, |i: int| ' ')
}

/// The depth from which on a JSON value is written on one line.
pub const PRETTY_MAX_DEPTH: usize = 1_000_000;

/// The text of a JSON value without doubles on several lines: each
/// element of an array and each member of an object on a line of its own,
/// two spaces further in than what holds it. What is nested a million
/// levels deep is written on one line.
pub open spec fn pretty_text(d: DatumV, depth: nat) -> Seq<char>
    decreases d, 0nat, 0nat,
{
    match d {
        DatumV::List(v) => if v.len() == 0 {
            "[]"@
        } else if depth + 1 >= PRETTY_MAX_DEPTH {
            jsonb_text(d)
        } else {
            seq!['[', '\n'] + pretty_list(v, depth + 1, v.len() as int) + seq!['\n'] + indent(depth) + seq![']']
        },
        DatumV::Dict(v) => if v.len() == 0 {
            "{}"@
        } else if depth + 1 >= PRETTY_MAX_DEPTH {
            jsonb_text(d)
        } else {
            seq!['{', '\n'] + pretty_dict(v, depth + 1, v.len() as int) + seq!['\n'] + indent(depth) + seq!['}']
        },
        _ => jsonb_text(d),
    }
}

/// The lines of the first `n` elements of an array.
pub open spec fn pretty_list(v: Seq<DatumV>, depth: nat, n: int) -> Seq<char>
    decreases v, 1nat, n,
{
    if n <= 0 || n > v.len() {
        Seq::empty()
    } else {
        (if n == 1 {
            Seq::empty()
        } else {
            pretty_list(v, depth, n - 1) + seq![',', '\n']
        }) + indent(depth) + pretty_text(v[n - 1], depth)
    }
}

/// The lines of the first `n` members of an object.
pub open spec fn pretty_dict(v: Seq<(Seq<char>, DatumV)>, depth: nat, n: int) -> Seq<char>
    decreases v, 1nat, n,
{
    if n <= 0 || n > v.len() {
        Seq::empty()
    } else {
        (if n == 1 {
            Seq::empty()
        } else {
            pretty_dict(v, depth, n - 1) + seq![',', '\n']
        }) + indent(depth) + quoted(v[n - 1].0) + seq![':', ' '] + pretty_text(v[n - 1].1, depth)
    }
}

fn push_indent(out: &mut String, depth: usize)
    requires
        depth <= PRETTY_MAX_DEPTH,
    ensures
        final(out)@ == old(out)@ + indent(depth as nat),
{
    let ghost before = out@;
    let mut i: usize = 0;
    assert(before + Seq::new(0nat, |k: int| ' ') =~= before);
    while i < 2 * depth
        invariant
            i <= 2 * depth,
            depth <= PRETTY_MAX_DEPTH,
            out@ == before + Seq::new(i as nat, |k: int| ' '),
        decreases 2 * depth - i,
    {
        out.push(' ');
        assert(out@ =~= before + Seq::new((i + 1) as nat, |k: int| ' '));
        i += 1;
    }
}

#[verifier::loop_isolation(false)]
#[verifier::rlimit(100)]
fn push_pretty<F: FloatUnit>(out: &mut String, d: &Datum, depth: usize, fu: &F)
    requires
        is_jsonb(d@),
        depth < PRETTY_MAX_DEPTH,
    ensures
        !has_double(d@) ==> final(out)@ == old(out)@ + pretty_text(d@, depth as nat),
    decreases d,
{
    let ghost before = out@;
    proof {
        lemma_jsonb_unfold(d@);
    }
    match d {
        Datum::List(list) => {
            proof {
                crate::datum::lemma_list_view(*d);
            }
            let ghost v = datums_view(list@);
            if list.len() == 0 {
                out.append("[]");
                return;
            }
            if depth + 1 >= PRETTY_MAX_DEPTH {
                crate::jsonb::push_jsonb(out, d, fu);
                return;
            }
            out.push('[');
            out.push('\n');
            let mut i: usize = 0;
            while i < list.len()
                invariant
                    i <= list.len(),
                    (forall|j: int| 0 <= j < i ==> !has_double(#[trigger] v[j])) ==> out@ == before + seq!['[', '\n']
                        + pretty_list(v, (depth + 1) as nat, i as int),
                decreases list.len() - i,
            {
                if i > 0 {
                    out.push(',');
                    out.push('\n');
                }
                push_indent(out, depth + 1);
                let ghost mid = out@;
                assert(is_jsonb(v[i as int]));
                push_pretty(out, &list[i], depth + 1, fu);
                proof {
                    if forall|j: int| 0 <= j < i + 1 ==> !has_double(#[trigger] v[j]) {
                        assert(!has_double(v[i as int]));
                        assert(out@ == mid + pretty_text(v[i as int], (depth + 1) as nat));
                        assert(out@ =~= before + seq!['[', '\n'] + pretty_list(v, (depth + 1) as nat, i + 1));
                    }
                }
                i += 1;
            }
            out.push('\n');
            push_indent(out, depth);
            out.push(']');
            proof {
                if !has_double(d@) {
                    assert(forall|j: int| 0 <= j < list.len() ==> !has_double(#[trigger] v[j]));
                    assert(out@ =~= before + pretty_text(d@, depth as nat));
                }
            }
        },
        Datum::Dict(pairs) => {
            proof {
                crate::datum::lemma_dict_view(*d);
            }
            let ghost v = pairs_view(pairs@);
            if pairs.len() == 0 {
                out.append("{}");
                return;
            }
            if depth + 1 >= PRETTY_MAX_DEPTH {
                crate::jsonb::push_jsonb(out, d, fu);
                return;
            }
            out.push('{');
            out.push('\n');
            let mut i: usize = 0;
            while i < pairs.len()
                invariant
                    i <= pairs.len(),
                    (forall|j: int| 0 <= j < i ==> !has_double((#[trigger] v[j]).1)) ==> out@ == before + seq![
                        '{',
                        '\n',
                    ] + pretty_dict(v, (depth + 1) as nat, i as int),
                decreases pairs.len() - i,
            {
                if i > 0 {
                    out.push(',');
                    out.push('\n');
                }
                push_indent(out, depth + 1);
                push_quoted(out, pairs[i].0.as_str());
                out.push(':');
                out.push(' ');
                let ghost mid = out@;
                assert(is_jsonb(v[i as int].1));
                push_pretty(out, &pairs[i].1, depth + 1, fu);
                proof {
                    if forall|j: int| 0 <= j < i + 1 ==> !has_double((#[trigger] v[j]).1) {
                        assert(!has_double(v[i as int].1));
                        assert(out@ == mid + pretty_text(v[i as int].1, (depth + 1) as nat));
                        assert(out@ =~= before + seq!['{', '\n'] + pretty_dict(v, (depth + 1) as nat, i + 1));
                    }
                }
                i += 1;
            }
            out.push('\n');
            push_indent(out, depth);
            out.push('}');
            proof {
                if !has_double(d@) {
                    assert(forall|j: int| 0 <= j < pairs.len() ==> !has_double((#[trigger] v[j]).1));
                    assert(out@ =~= before + pretty_text(d@, depth as nat));
                }
            }
        },
        _ => {
            crate::jsonb::push_jsonb(out, d, fu);
        },
    }
}

/// The text of a JSON value on several lines.
pub fn jsonb_pretty<F: FloatUnit>(a: &Datum, fu: &F) -> (r: Datum)
    requires
        is_jsonb(a@),
    ensures
        !has_double(a@) ==> r@ == DatumV::String(pretty_text(a@, 0)),
        r@ is String,
{
    let mut out = String::new();
    push_pretty(&mut out, a, 0, fu);
    assert(Seq::<char>::empty() + pretty_text(a@, 0) =~= pretty_text(a@, 0));
    Datum::String(out)
}

} // verus!
