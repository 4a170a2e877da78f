//! Functions on texts and bytes, and the casts between texts, truth values
//! and integers.

use vstd::prelude::*;
use vstd::string::StringExecFns;
use crate::datum::{datums_view, res_view, Datum, DatumV};
use crate::error::{EvalError, EvalErrorV};
use crate::pairs::same_text;
use crate::strings::{char_is_space, format_int, from_chars, from_chars_range, int_text, is_space, to_chars};
use crate::strings::{parse_int, parse_int_spec, trailing_spaces, trim_bounds, trimmed};
use crate::text::{find_from, first_match, replace_text, replaced, split_nth, split_part_text};
use crate::text::{trim_text, trim_text_end, trim_text_start, trimmed_end_of, trimmed_of, trimmed_start_of};

verus! {

/// The least of two integers.
pub open spec fn min_int(a: int, b: int) -> int {
    if a <= b {
        a
    } else {
        b
    }
}

/// The greatest of two integers.
pub open spec fn max_int(a: int, b: int) -> int {
    if a >= b {
        a
    } else {
        b
    }
}

/// What `std::primitive::str::to_uppercase` makes of a text.
pub uninterp spec fn uppercase(s: Seq<char>) -> Seq<char>;

/// What `std::primitive::str::to_lowercase` makes of a text.
pub uninterp spec fn lowercase(s: Seq<char>) -> Seq<char>;

/// Calls `str::to_uppercase`. The contract claims that the outcome is a
/// function of the text, and names it.
#[verifier::external_body]
fn text_upper(s: &str) -> (r: String)
    ensures
        r@ == uppercase(s@),
{
    s.to_uppercase()
}

/// Calls `str::to_lowercase`. The contract claims that the outcome is a
/// function of the text, and names it.
#[verifier::external_body]
fn text_lower(s: &str) -> (r: String)
    ensures
        r@ == lowercase(s@),
{
    s.to_lowercase()
}

pub fn upper(a: &Datum) -> (r: Datum)
    requires
        a@ is String,
    ensures
        r@ == DatumV::String(uppercase(a@->String_0)),
{
    Datum::String(text_upper(a.unwrap_str()))
}

pub fn lower(a: &Datum) -> (r: Datum)
    requires
        a@ is String,
    ensures
        r@ == DatumV::String(lowercase(a@->String_0)),
{
    Datum::String(text_lower(a.unwrap_str()))
}

pub fn text_concat_binary(a: &Datum, b: &Datum) -> (r: Datum)
    requires
        a@ is String,
        b@ is String,
    ensures
        r@ == DatumV::String(a@->String_0 + b@->String_0),
{
    let mut buf = String::new();
    buf.append(a.unwrap_str());
    buf.append(b.unwrap_str());
    assert(buf@ =~= a@->String_0 + b@->String_0);
    Datum::String(buf)
}

/// The texts among the datums, one behind the other.
pub open spec fn concat_texts(s: Seq<DatumV>) -> Seq<char>
    decreases s.len(),
{
    if s.len() == 0 {
        Seq::empty()
    } else {
        concat_texts(s.drop_last()) + match s.last() {
            DatumV::String(t) => t,
            _ => Seq::empty(),
        }
    }
}

/// Whether each datum is null or a text.
pub open spec fn each_null_or_text(s: Seq<DatumV>) -> bool {
    forall|i: int| 0 <= i < s.len() ==> (#[trigger] s[i]) is Null || s[i] is String
}

/// The texts of the datums, one behind the other; a null adds nothing.
pub fn text_concat_variadic(datums: &Vec<Datum>) -> (r: Datum)
    requires
        each_null_or_text(datums_view(datums@)),
    ensures
        r@ == DatumV::String(concat_texts(datums_view(datums@))),
{
    let ghost s = datums_view(datums@);
    let mut buf = String::new();
    let mut i: usize = 0;
    while i < datums.len()
        invariant
            i <= datums.len(),
            s == datums_view(datums@),
            each_null_or_text(s),
            buf@ == concat_texts(s.take(i as int)),
        decreases datums.len() - i,
    {
        proof {
            assert(s.take(i + 1).drop_last() =~= s.take(i as int));
            assert(s.take(i + 1).last() == s[i as int]);
        }
        if !datums[i].is_null() {
            buf.append(datums[i].unwrap_str());
        } else {
            assert(buf@ + Seq::<char>::empty() =~= buf@);
        }
        i += 1;
    }
    assert(s.take(datums.len() as int) =~= s);
    Datum::String(buf)
}

/// The characters of `pad`, over and over, `n` of them.
pub open spec fn cycled(pad: Seq<char>, n: nat) -> Seq<char> {
    Seq::new(n, |i: int| pad[i % (pad.len() as int)])
}

/// A text brought to a length: cut where it is longer, and padded at its
/// start where it is shorter and there is something to pad with. A negative
/// length is an invalid parameter.
pub open spec fn pad_leading_spec(s: Seq<char>, len: int, pad: Seq<char>) -> Result<DatumV, EvalErrorV> {
    if len < 0 {
        Err(EvalErrorV::InvalidParameterValue("length must be nonnegative"@))
    } else if s.len() >= len {
        Ok(DatumV::String(s.take(len)))
    } else if pad.len() == 0 {
        Ok(DatumV::String(s))
    } else {
        Ok(DatumV::String(cycled(pad, (len - s.len()) as nat) + s))
    }
}

/// The padding of `lpad` where none is given: one space.
pub open spec fn default_pad() -> Seq<char> {
    seq![' ']
}

pub fn pad_leading(datums: &Vec<Datum>) -> (r: Result<Datum, EvalError>)
    requires
        2 <= datums@.len() <= 3,
        datums@[0]@ is String,
        datums@[1]@ is Int64,
        datums@.len() == 3 ==> datums@[2]@ is String,
    ensures
        res_view(r) == pad_leading_spec(
            datums@[0]@->String_0,
            datums@[1]@->Int64_0 as int,
            if datums@.len() == 3 {
                datums@[2]@->String_0
            } else {
                default_pad()
            },
        ),
{
    let v = to_chars(datums[0].unwrap_str());
    let len = datums[1].unwrap_int64();
    if len < 0 {
        return Err(EvalError::InvalidParameterValue("length must be nonnegative".to_owned()));
    }
    let len = len as u64;
    let pad: Vec<char> = if datums.len() == 3 {
        to_chars(datums[2].unwrap_str())
    } else {
        let mut p: Vec<char> = Vec::new();
        p.push(' ');
        assert(p@ =~= default_pad());
        p
    };
    if v.len() as u64 >= len {
        let r = from_chars_range(&v, 0, len as usize);
        assert(v@.subrange(0, len as int) =~= v@.take(len as int));
        Ok(Datum::String(r))
    } else if pad.len() == 0 {
        Ok(Datum::String(from_chars(&v)))
    } else {
        let need: u64 = len - v.len() as u64;
        let plen = pad.len();
        let mut out = String::new();
        let mut i: u64 = 0;
        let mut k: usize = 0;
        while i < need
            invariant
                i <= need,
                plen == pad@.len(),
                pad@.len() > 0,
                k < pad@.len(),
                k == i as int % (pad@.len() as int),
                out@ == cycled(pad@, i as nat),
            decreases need - i,
        {
            out.push(pad[k]);
            assert(out@ =~= cycled(pad@, (i + 1) as nat));
            k = if k + 1 == pad.len() {
                0
            } else {
                k + 1
            };
            proof {
                let m = pad@.len() as int;
                assert((i as int + 1) % m == if (i as int % m) + 1 == m {
                    0
                } else {
                    (i as int % m) + 1
                }) by (nonlinear_arith)
                    requires
                        m > 0,
                        i >= 0,
                ;
            }
            i += 1;
        }
        let mut j: usize = 0;
        let ghost prefix = out@;
        while j < v.len()
            invariant
                j <= v.len(),
                out@ == prefix + v@.take(j as int),
            decreases v.len() - j,
        {
            out.push(v[j]);
            assert(prefix + v@.take(j + 1) =~= (prefix + v@.take(j as int)).push(v@[j as int]));
            j += 1;
        }
        assert(v@.take(v@.len() as int) =~= v@);
        Ok(Datum::String(out))
    }
}

/// The part of a text from a place, counted from 1, of a length if one is
/// given. Places before the text count toward the length. A negative
/// length is an invalid parameter.
pub open spec fn substr_spec(s: Seq<char>, start: int, length: Option<int>) -> Result<DatumV, EvalErrorV> {
    let raw = start - 1;
    let first = max_int(raw, 0);
    let from = min_int(first, s.len() as int);
    match length {
        None => Ok(DatumV::String(s.skip(from))),
        Some(e) => if e < 0 {
            Err(EvalErrorV::InvalidParameterValue("negative substring length not allowed"@))
        } else if e == 0 || e + raw < 1 {
            Ok(DatumV::String(Seq::empty()))
        } else {
            let last = min_int(raw + e - 1, e - 1);
            let to = min_int(first + 1 + last, s.len() as int);
            Ok(DatumV::String(s.subrange(from, to)))
        },
    }
}

pub fn substr(datums: &Vec<Datum>) -> (r: Result<Datum, EvalError>)
    requires
        2 <= datums@.len() <= 3,
        datums@[0]@ is String,
        datums@[1]@ is Int64,
        datums@.len() == 3 ==> datums@[2]@ is Int64,
    ensures
        res_view(r) == substr_spec(
            datums@[0]@->String_0,
            datums@[1]@->Int64_0 as int,
            if datums@.len() == 3 {
                Some(datums@[2]@->Int64_0 as int)
            } else {
                None
            },
        ),
{
    let v = to_chars(datums[0].unwrap_str());
    let n = v.len() as i128;
    let raw: i128 = datums[1].unwrap_int64() as i128 - 1;
    let first: i128 = if raw > 0 {
        raw
    } else {
        0
    };
    let from: i128 = if first < n {
        first
    } else {
        n
    };
    if datums.len() == 3 {
        let e = datums[2].unwrap_int64() as i128;
        if e < 0 {
            return Err(EvalError::InvalidParameterValue("negative substring length not allowed".to_owned()));
        }
        if e == 0 || e + raw < 1 {
            return Ok(Datum::String(String::new()));
        }
        let last: i128 = if raw + e - 1 < e - 1 {
            raw + e - 1
        } else {
            e - 1
        };
        let to: i128 = if first + 1 + last < n {
            first + 1 + last
        } else {
            n
        };
        Ok(Datum::String(from_chars_range(&v, from as usize, to as usize)))
    } else {
        let r = from_chars_range(&v, from as usize, v.len());
        assert(v@.subrange(from as int, v@.len() as int) =~= v@.skip(from as int));
        Ok(Datum::String(r))
    }
}

/// A field of a text split at a delimiter, counted from 1. A text is the
/// one field of itself where the delimiter is empty. A field number below 1
/// is an invalid parameter.
pub open spec fn split_part_spec(s: Seq<char>, delim: Seq<char>, field: int) -> Result<DatumV, EvalErrorV> {
    if field - 1 < 0 {
        Err(EvalErrorV::InvalidParameterValue("field position must be greater than zero"@))
    } else if delim.len() == 0 {
        if field == 1 {
            Ok(DatumV::String(s))
        } else {
            Ok(DatumV::String(Seq::empty()))
        }
    } else {
        Ok(DatumV::String(split_nth(s, delim, field - 1)))
    }
}

pub fn split_part(datums: &Vec<Datum>) -> (r: Result<Datum, EvalError>)
    requires
        datums@.len() == 3,
        datums@[0]@ is String,
        datums@[1]@ is String,
        datums@[2]@ is Int64,
    ensures
        res_view(r) == split_part_spec(datums@[0]@->String_0, datums@[1]@->String_0, datums@[2]@->Int64_0 as int),
{
    let string = datums[0].unwrap_str();
    let delimiter = datums[1].unwrap_str();
    let field = datums[2].unwrap_int64();
    if field < 1 {
        return Err(EvalError::InvalidParameterValue("field position must be greater than zero".to_owned()));
    }
    if delimiter.unicode_len() == 0 {
        if field == 1 {
            return Ok(datums[0].clone());
        } else {
            return Ok(Datum::String(String::new()));
        }
    }
    let index = (field - 1) as u64;
    let chars = string.unicode_len();
    if index > usize::MAX as u64 {
        // A text has fewer parts than that.
        proof {
            lemma_split_nth_short(string@, delimiter@, index as int);
        }
        return Ok(Datum::String(String::new()));
    }
    Ok(Datum::String(split_part_text(string, delimiter, index as usize)))
}

/// A text has no part with a number beyond its length.
pub proof fn lemma_split_nth_short(s: Seq<char>, delim: Seq<char>, n: int)
    requires
        delim.len() > 0,
        n > s.len(),
    ensures
        split_nth(s, delim, n) == Seq::<char>::empty(),
    decreases s.len(),
{
    let k = first_match(s, delim, 0);
    if k < 0 || k + delim.len() > s.len() {
    } else {
        lemma_split_nth_short(s.skip(k + delim.len()), delim, n - 1);
    }
}

/// A text, `count` times over; the empty text for a count below 1.
pub fn repeat_string(string: &Datum, count: &Datum) -> (r: Result<Datum, EvalError>)
    requires
        string@ is String,
        count@ is Int32,
    ensures
        res_view(r) == Ok::<DatumV, EvalErrorV>(
            DatumV::String(
                crate::strings::repeated(
                    string@->String_0,
                    if count@->Int32_0 > 0 {
                        count@->Int32_0 as nat
                    } else {
                        0
                    },
                ),
            ),
        ),
{
    let s = string.unwrap_str();
    let n = count.unwrap_int32();
    let mut out = String::new();
    let mut i: i32 = 0;
    while i < n
        invariant
            0 <= i,
            i <= n || n < 0,
            n < 0 ==> i == 0,
            s@ == string@->String_0,
            out@ == crate::strings::repeated(s@, i as nat),
        decreases n - i,
    {
        out.append(s);
        i += 1;
    }
    Ok(Datum::String(out))
}

pub fn replace(datums: &Vec<Datum>) -> (r: Datum)
    requires
        datums@.len() == 3,
        datums@[0]@ is String,
        datums@[1]@ is String,
        datums@[2]@ is String,
    ensures
        r@ == DatumV::String(replaced(datums@[0]@->String_0, datums@[1]@->String_0, datums@[2]@->String_0)),
{
    Datum::String(replace_text(datums[0].unwrap_str(), datums[1].unwrap_str(), datums[2].unwrap_str()))
}

/// The number of the first character of a text, or zero for the empty
/// text.
pub fn ascii(a: &Datum) -> (r: Datum)
    requires
        a@ is String,
    ensures
        r@ == DatumV::Int32(
            if a@->String_0.len() == 0 {
                0i32
            } else {
                a@->String_0[0] as u32 as i32
            },
        ),
{
    let s = a.unwrap_str();
    if s.unicode_len() == 0 {
        Datum::Int32(0)
    } else {
        let c = s.get_char(0);
        Datum::Int32(c as u32 as i32)
    }
}

/// A length as a 32-bit integer datum, or the error that it does not fit.
pub open spec fn length_datum(n: int) -> Result<DatumV, EvalErrorV> {
    if n <= i32::MAX {
        Ok(DatumV::Int32(n as i32))
    } else {
        Err(EvalErrorV::Int32OutOfRange)
    }
}

/// The bytes of a text or of a byte string.
pub open spec fn bytes_of(d: DatumV) -> Seq<u8> {
    match d {
        DatumV::String(s) => vstd::utf8::encode_utf8(s),
        DatumV::Bytes(b) => b,
        _ => Seq::empty(),
    }
}

/// The number of bytes of a text or of a byte string.
fn byte_count(a: &Datum) -> (r: usize)
    requires
        a@ is String || a@ is Bytes,
    ensures
        r == bytes_of(a@).len(),
{
    match a {
        Datum::String(s) => s.as_str().as_bytes().len(),
        Datum::Bytes(b) => b.len(),
        _ => 0,
    }
}

/// The length of a text or of a byte string in bits.
pub fn bit_length(a: &Datum) -> (r: Result<Datum, EvalError>)
    requires
        a@ is String || a@ is Bytes,
    ensures
        res_view(r) == length_datum(bytes_of(a@).len() as int * 8),
{
    let n = byte_count(a) as u128 * 8;
    if n <= i32::MAX as u128 {
        Ok(Datum::Int32(n as i32))
    } else {
        Err(EvalError::Int32OutOfRange)
    }
}

/// The length of a text or of a byte string in bytes.
pub fn byte_length(a: &Datum) -> (r: Result<Datum, EvalError>)
    requires
        a@ is String || a@ is Bytes,
    ensures
        res_view(r) == length_datum(bytes_of(a@).len() as int),
{
    let n = byte_count(a) as u128;
    if n <= i32::MAX as u128 {
        Ok(Datum::Int32(n as i32))
    } else {
        Err(EvalError::Int32OutOfRange)
    }
}

/// The length of a text in characters.
pub fn char_length(a: &Datum) -> (r: Result<Datum, EvalError>)
    requires
        a@ is String,
    ensures
        res_view(r) == length_datum(a@->String_0.len() as int),
{
    let n = a.unwrap_str().unicode_len() as u128;
    if n <= i32::MAX as u128 {
        Ok(Datum::Int32(n as i32))
    } else {
        Err(EvalError::Int32OutOfRange)
    }
}

/// The one character that the trims of white space remove: the space.
pub open spec fn space() -> Seq<char> {
    seq![' ']
}

fn space_set() -> (r: Vec<char>)
    ensures
        r@ == space(),
{
    let mut p: Vec<char> = Vec::new();
    p.push(' ');
    assert(p@ =~= space());
    p
}

pub fn trim_whitespace(a: &Datum) -> (r: Datum)
    requires
        a@ is String,
    ensures
        r@ == DatumV::String(trimmed_of(a@->String_0, space())),
{
    Datum::String(trim_text(a.unwrap_str(), &space_set()))
}

pub fn trim_leading_whitespace(a: &Datum) -> (r: Datum)
    requires
        a@ is String,
    ensures
        r@ == DatumV::String(trimmed_start_of(a@->String_0, space())),
{
    Datum::String(trim_text_start(a.unwrap_str(), &space_set()))
}

pub fn trim_trailing_whitespace(a: &Datum) -> (r: Datum)
    requires
        a@ is String,
    ensures
        r@ == DatumV::String(trimmed_end_of(a@->String_0, space())),
{
    Datum::String(trim_text_end(a.unwrap_str(), &space_set()))
}

/// The first text without the characters of the second at its ends.
pub fn trim(a: &Datum, b: &Datum) -> (r: Datum)
    requires
        a@ is String,
        b@ is String,
    ensures
        r@ == DatumV::String(trimmed_of(a@->String_0, b@->String_0)),
{
    Datum::String(trim_text(a.unwrap_str(), &to_chars(b.unwrap_str())))
}

pub fn trim_leading(a: &Datum, b: &Datum) -> (r: Datum)
    requires
        a@ is String,
        b@ is String,
    ensures
        r@ == DatumV::String(trimmed_start_of(a@->String_0, b@->String_0)),
{
    Datum::String(trim_text_start(a.unwrap_str(), &to_chars(b.unwrap_str())))
}

pub fn trim_trailing(a: &Datum, b: &Datum) -> (r: Datum)
    requires
        a@ is String,
        b@ is String,
    ensures
        r@ == DatumV::String(trimmed_end_of(a@->String_0, b@->String_0)),
{
    Datum::String(trim_text_end(a.unwrap_str(), &to_chars(b.unwrap_str())))
}

/// The place, counted from 1, of the first occurrence of the first text in
/// the second, or 0 where there is none.
pub fn position(a: &Datum, b: &Datum) -> (r: Result<Datum, EvalError>)
    requires
        a@ is String,
        b@ is String,
    ensures
        res_view(r) == length_datum(first_match(b@->String_0, a@->String_0, 0) + 1),
{
    let sub = to_chars(a.unwrap_str());
    let v = to_chars(b.unwrap_str());
    match find_from(&v, &sub, 0) {
        Some(k) => {
            if (k as u128) < i32::MAX as u128 {
                Ok(Datum::Int32((k + 1) as i32))
            } else {
                Err(EvalError::Int32OutOfRange)
            }
        },
        None => Ok(Datum::Int32(0)),
    }
}

/// The first `n` characters of a text; for a negative `n`, all but the
/// last `-n`.
pub open spec fn left_spec(s: Seq<char>, n: int) -> Seq<char> {
    if n >= 0 {
        s.take(min_int(n, s.len() as int))
    } else {
        s.take(max_int(s.len() + n, 0))
    }
}

pub fn left(a: &Datum, b: &Datum) -> (r: Result<Datum, EvalError>)
    requires
        a@ is String,
        b@ is Int32,
    ensures
        res_view(r) == Ok::<DatumV, EvalErrorV>(DatumV::String(left_spec(a@->String_0, b@->Int32_0 as int))),
{
    let v = to_chars(a.unwrap_str());
    let n = b.unwrap_int32() as i128;
    let len = v.len() as i128;
    let end: i128 = if n >= 0 {
        if n < len {
            n
        } else {
            len
        }
    } else if len + n > 0 {
        len + n
    } else {
        0
    };
    let r = from_chars_range(&v, 0, end as usize);
    assert(v@.subrange(0, end as int) =~= v@.take(end as int));
    Ok(Datum::String(r))
}

/// The last `n` characters of a text; for a negative `n`, all but the
/// first `-n`; for the least integer, the whole text.
pub open spec fn right_spec(s: Seq<char>, n: int) -> Seq<char> {
    if n == 0 {
        Seq::empty()
    } else if n > 0 {
        s.skip(max_int(s.len() - n, 0))
    } else if n == i32::MIN {
        s
    } else {
        s.skip(min_int(-n, s.len() as int))
    }
}

pub fn right(a: &Datum, b: &Datum) -> (r: Result<Datum, EvalError>)
    requires
        a@ is String,
        b@ is Int32,
    ensures
        res_view(r) == Ok::<DatumV, EvalErrorV>(DatumV::String(right_spec(a@->String_0, b@->Int32_0 as int))),
{
    let v = to_chars(a.unwrap_str());
    let n = b.unwrap_int32() as i128;
    let len = v.len() as i128;
    let start: i128 = if n == 0 {
        len
    } else if n > 0 {
        if len - n > 0 {
            len - n
        } else {
            0
        }
    } else if n == i32::MIN as i128 {
        0
    } else if -n < len {
        -n
    } else {
        len
    };
    let r = from_chars_range(&v, start as usize, v.len());
    assert(v@.subrange(start as int, v@.len() as int) =~= v@.skip(start as int));
    proof {
        if n == 0 {
            assert(v@.skip(len as int) =~= Seq::<char>::empty());
        }
        if n == i32::MIN as i128 {
            assert(v@.skip(0) =~= v@);
        }
    }
    Ok(Datum::String(r))
}

pub fn cast_bool_to_string(a: &Datum) -> (r: Datum)
    requires
        a@.is_bool(),
    ensures
        r@ == DatumV::String(
            if a@ is True {
                "true"@
            } else {
                "false"@
            },
        ),
{
    match a.unwrap_bool() {
        true => Datum::from_str("true"),
        false => Datum::from_str("false"),
    }
}

/// The short text of a truth value, as PostgreSQL writes it in some
/// places.
pub fn cast_bool_to_string_nonstandard(a: &Datum) -> (r: Datum)
    requires
        a@.is_bool(),
    ensures
        r@ == DatumV::String(
            if a@ is True {
                "t"@
            } else {
                "f"@
            },
        ),
{
    match a.unwrap_bool() {
        true => Datum::from_str("t"),
        false => Datum::from_str("f"),
    }
}

pub fn cast_int16_to_string(a: &Datum) -> (r: Datum)
    requires
        a@ is Int16,
    ensures
        r@ == DatumV::String(int_text(a@->Int16_0 as int)),
{
    Datum::String(format_int(a.unwrap_int16() as i64))
}

pub fn cast_int32_to_string(a: &Datum) -> (r: Datum)
    requires
        a@ is Int32,
    ensures
        r@ == DatumV::String(int_text(a@->Int32_0 as int)),
{
    Datum::String(format_int(a.unwrap_int32() as i64))
}

pub fn cast_int64_to_string(a: &Datum) -> (r: Datum)
    requires
        a@ is Int64,
    ensures
        r@ == DatumV::String(int_text(a@->Int64_0 as int)),
{
    Datum::String(format_int(a.unwrap_int64()))
}

/// The error for a text that does not denote a value of a type.
pub open spec fn syntax_error(target: Seq<char>, input: Seq<char>) -> EvalErrorV {
    EvalErrorV::InvalidInputSyntax { target, input }
}

/// The error for a text that does not denote a value of a type.
pub fn invalid_input(target: &str, input: &str) -> (r: EvalError)
    ensures
        r@ == syntax_error(target@, input@),
{
    EvalError::InvalidInputSyntax { target: target.to_owned(), input: input.to_owned() }
}

/// The integer of the given width that a text denotes, or a syntax
/// error.
pub open spec fn cast_string_to_int_spec(s: Seq<char>, min: int, max: int, target: Seq<char>) -> Result<
    int,
    EvalErrorV,
> {
    match parse_int_spec(s) {
        Some(n) => if min <= n <= max {
            Ok(n)
        } else {
            Err(syntax_error(target, s))
        },
        None => Err(syntax_error(target, s)),
    }
}

pub fn cast_string_to_int16(a: &Datum) -> (r: Result<Datum, EvalError>)
    requires
        a@ is String,
    ensures
        match cast_string_to_int_spec(a@->String_0, i16::MIN as int, i16::MAX as int, "smallint"@) {
            Ok(n) => res_view(r) == Ok::<DatumV, EvalErrorV>(DatumV::Int16(n as i16)),
            Err(e) => res_view(r) == Err::<DatumV, EvalErrorV>(e),
        },
{
    let s = a.unwrap_str();
    match parse_int(s, i16::MIN as i64, i16::MAX as i64) {
        Some(n) => Ok(Datum::Int16(n as i16)),
        None => Err(invalid_input("smallint", s)),
    }
}

pub fn cast_string_to_int32(a: &Datum) -> (r: Result<Datum, EvalError>)
    requires
        a@ is String,
    ensures
        match cast_string_to_int_spec(a@->String_0, i32::MIN as int, i32::MAX as int, "integer"@) {
            Ok(n) => res_view(r) == Ok::<DatumV, EvalErrorV>(DatumV::Int32(n as i32)),
            Err(e) => res_view(r) == Err::<DatumV, EvalErrorV>(e),
        },
{
    let s = a.unwrap_str();
    match parse_int(s, i32::MIN as i64, i32::MAX as i64) {
        Some(n) => Ok(Datum::Int32(n as i32)),
        None => Err(invalid_input("integer", s)),
    }
}

pub fn cast_string_to_int64(a: &Datum) -> (r: Result<Datum, EvalError>)
    requires
        a@ is String,
    ensures
        match cast_string_to_int_spec(a@->String_0, i64::MIN as int, i64::MAX as int, "bigint"@) {
            Ok(n) => res_view(r) == Ok::<DatumV, EvalErrorV>(DatumV::Int64(n as i64)),
            Err(e) => res_view(r) == Err::<DatumV, EvalErrorV>(e),
        },
{
    let s = a.unwrap_str();
    match parse_int(s, i64::MIN, i64::MAX) {
        Some(n) => Ok(Datum::Int64(n)),
        None => Err(invalid_input("bigint", s)),
    }
}

/// An integer that is cast to a text and back is the integer it was.
pub proof fn lemma_int_text_round_trip(n: int)
    ensures
        i16::MIN <= n <= i16::MAX ==> cast_string_to_int_spec(int_text(n), i16::MIN as int, i16::MAX as int, "smallint"@)
            == Ok::<int, EvalErrorV>(n),
        i32::MIN <= n <= i32::MAX ==> cast_string_to_int_spec(int_text(n), i32::MIN as int, i32::MAX as int, "integer"@)
            == Ok::<int, EvalErrorV>(n),
        i64::MIN <= n <= i64::MAX ==> cast_string_to_int_spec(int_text(n), i64::MIN as int, i64::MAX as int, "bigint"@)
            == Ok::<int, EvalErrorV>(n),
{
    crate::strings::lemma_parse_format(n);
}

/// A letter of the Latin alphabet in lower case; any other character as it
/// is.
pub open spec fn ascii_lower(c: char) -> char {
    if 65 <= c as u32 <= 90 {
        (c as u32 + 32) as u8 as char
    } else {
        c
    }
}

/// A text with its Latin capital letters in lower case.
pub open spec fn ascii_lowered(s: Seq<char>) -> Seq<char> {
    Seq::new(s.len(), |i: int| ascii_lower(s[i]))
}

/// The truth value that a word denotes, if it denotes one.
pub open spec fn bool_word(t: Seq<char>) -> Option<bool> {
    if t == "t"@ || t == "tr"@ || t == "tru"@ || t == "true"@ || t == "y"@ || t == "ye"@ || t == "yes"@ || t == "on"@
        || t == "1"@ {
        Some(true)
    } else if t == "f"@ || t == "fa"@ || t == "fal"@ || t == "fals"@ || t == "false"@ || t == "n"@ || t == "no"@ || t
        == "of"@ || t == "off"@ || t == "0"@ {
        Some(false)
    } else {
        None
    }
}

/// The truth value that a text denotes: that of its word, in any case,
/// without the white space around it.
pub open spec fn cast_string_to_bool_spec(s: Seq<char>) -> Result<DatumV, EvalErrorV> {
    match bool_word(ascii_lowered(trimmed(s))) {
        Some(b) => Ok(DatumV::from_bool(b)),
        None => Err(syntax_error("boolean"@, s)),
    }
}

pub fn cast_string_to_bool(a: &Datum) -> (r: Result<Datum, EvalError>)
    requires
        a@ is String,
    ensures
        res_view(r) == cast_string_to_bool_spec(a@->String_0),
{
    let s = a.unwrap_str();
    let v = to_chars(s);
    let (x, y) = trim_bounds(&v);
    let mut word = String::new();
    let mut i: usize = x;
    while i < y
        invariant
            x <= i <= y,
            y <= v@.len(),
            word@ == ascii_lowered(v@.subrange(x as int, i as int)),
        decreases y - i,
    {
        let c = v[i];
        let u = c as u32;
        let l = if 65 <= u && u <= 90 {
            ((u + 32) as u8) as char
        } else {
            c
        };
        word.push(l);
        assert(word@ =~= ascii_lowered(v@.subrange(x as int, i + 1)));
        i += 1;
    }
    let w = word.as_str();
    if same_text(w, "t") || same_text(w, "tr") || same_text(w, "tru") || same_text(w, "true") || same_text(w, "y")
        || same_text(w, "ye") || same_text(w, "yes") || same_text(w, "on") || same_text(w, "1") {
        Ok(Datum::True)
    } else if same_text(w, "f") || same_text(w, "fa") || same_text(w, "fal") || same_text(w, "fals") || same_text(
        w,
        "false",
    ) || same_text(w, "n") || same_text(w, "no") || same_text(w, "of") || same_text(w, "off") || same_text(w, "0") {
        Ok(Datum::False)
    } else {
        Err(invalid_input("boolean", s))
    }
}

/// A text without the white space at its end.
pub open spec fn trimmed_end(s: Seq<char>) -> Seq<char> {
    s.take(s.len() - trailing_spaces(s))
}

/// Whether every character of a text is white space.
pub open spec fn all_space(s: Seq<char>) -> bool {
    forall|i: int| 0 <= i < s.len() ==> is_space(#[trigger] s[i])
}

/// The error for a text that is too long for its type.
pub open spec fn too_long(target_type: Seq<char>, length: usize) -> EvalErrorV {
    EvalErrorV::StringValueTooLong { target_type, length }
}

/// A text as a value of a character type of a length: cut to the length,
/// unless that cuts more than white space and the cast is to fail then; and
/// without the white space at its end.
pub open spec fn cast_str_to_char_spec(s: Seq<char>, length: Option<usize>, fail_on_len: bool) -> Result<
    DatumV,
    EvalErrorV,
> {
    match length {
        None => Ok(DatumV::String(trimmed_end(s))),
        Some(l) => if s.len() <= l {
            Ok(DatumV::String(trimmed_end(s)))
        } else if !fail_on_len || all_space(s.skip(l as int)) {
            Ok(DatumV::String(trimmed_end(s.take(l as int))))
        } else {
            Err(too_long("character"@, l))
        },
    }
}

/// A text as a value of a character varying type of a length: cut to the
/// length, unless that cuts more than white space and the cast is to fail
/// then.
pub open spec fn cast_string_to_varchar_spec(s: Seq<char>, length: Option<usize>, fail_on_len: bool) -> Result<
    DatumV,
    EvalErrorV,
> {
    match length {
        None => Ok(DatumV::String(s)),
        Some(l) => if s.len() <= l {
            Ok(DatumV::String(s))
        } else if !fail_on_len || all_space(s.skip(l as int)) {
            Ok(DatumV::String(s.take(l as int)))
        } else {
            Err(too_long("character varying"@, l))
        },
    }
}

/// Whether the characters from `from` on are all white space.
fn rest_is_space(v: &Vec<char>, from: usize) -> (r: bool)
    requires
        from <= v@.len(),
    ensures
        r == all_space(v@.skip(from as int)),
{
    let mut i: usize = from;
    while i < v.len()
        invariant
            from <= i <= v.len(),
            forall|j: int| from <= j < i ==> is_space(#[trigger] v@[j]),
        decreases v.len() - i,
    {
        if !char_is_space(v[i]) {
            assert(!is_space(v@.skip(from as int)[i - from]));
            return false;
        }
        i += 1;
    }
    assert forall|j: int| 0 <= j < v@.skip(from as int).len() implies is_space(#[trigger] v@.skip(from as int)[j]) by {
        assert(v@.skip(from as int)[j] == v@[j + from]);
    }
    true
}

/// The text of the first `to` characters without the white space at their
/// end.
fn take_trimmed_end(v: &Vec<char>, to: usize) -> (r: String)
    requires
        to <= v@.len(),
    ensures
        r@ == trimmed_end(v@.take(to as int)),
{
    let ghost t = v@.take(to as int);
    let mut b: usize = to;
    while b > 0 && char_is_space(v[b - 1])
        invariant
            b <= to,
            to <= v@.len(),
            t == v@.take(to as int),
            forall|j: int| b <= j < to ==> is_space(#[trigger] t[j]),
        decreases b,
    {
        b -= 1;
    }
    proof {
        lemma_trailing(t, (to - b) as int);
    }
    let r = from_chars_range(v, 0, b);
    assert(v@.subrange(0, b as int) =~= t.take(b as int));
    r
}

proof fn lemma_trailing(s: Seq<char>, k: int)
    requires
        0 <= k <= s.len(),
        forall|j: int| s.len() - k <= j < s.len() ==> is_space(#[trigger] s[j]),
        k < s.len() ==> !is_space(s[s.len() - k - 1]),
    ensures
        trailing_spaces(s) == k,
    decreases k,
{
    if k > 0 {
        let t = s.drop_last();
        assert forall|j: int| t.len() - (k - 1) <= j < t.len() implies is_space(#[trigger] t[j]) by {
            assert(t[j] == s[j]);
        }
        lemma_trailing(t, k - 1);
    }
}

pub fn cast_str_to_char(a: &Datum, length: Option<usize>, fail_on_len: bool) -> (r: Result<Datum, EvalError>)
    requires
        a@ is String,
    ensures
        res_view(r) == cast_str_to_char_spec(a@->String_0, length, fail_on_len),
{
    let v = to_chars(a.unwrap_str());
    assert(v@.take(v@.len() as int) =~= v@);
    match length {
        None => Ok(Datum::String(take_trimmed_end(&v, v.len()))),
        Some(l) => {
            if v.len() <= l {
                Ok(Datum::String(take_trimmed_end(&v, v.len())))
            } else if !fail_on_len || rest_is_space(&v, l) {
                Ok(Datum::String(take_trimmed_end(&v, l)))
            } else {
                Err(EvalError::StringValueTooLong { target_type: "character".to_owned(), length: l })
            }
        },
    }
}

/// A text padded with spaces at its end to the length.
pub open spec fn pad_char_spec(s: Seq<char>, length: Option<usize>) -> Seq<char> {
    match length {
        Some(l) => if s.len() < l {
            s + Seq::new((l - s.len()) as nat, |i: int| ' ')
        } else {
            s
        },
        None => s,
    }
}

/// Restores the spaces at the end of a value of a character type, which
/// is stored without them.
pub fn pad_char(a: &Datum, length: Option<usize>) -> (r: Result<Datum, EvalError>)
    requires
        a@ is String,
    ensures
        res_view(r) == Ok::<DatumV, EvalErrorV>(DatumV::String(pad_char_spec(a@->String_0, length))),
{
    let s = a.unwrap_str();
    let n = s.unicode_len();
    let mut out = s.to_owned();
    assert(out@ =~= s@ + Seq::new(0nat, |k: int| ' '));
    match length {
        Some(l) => {
            let mut i: usize = n;
            while i < l
                invariant
                    n == s@.len(),
                    n <= i,
                    i <= l || l < n,
                    l <= n ==> i == n,
                    out@ == s@ + Seq::new((i - n) as nat, |k: int| ' '),
                decreases l - i,
            {
                out.push(' ');
                assert(out@ =~= s@ + Seq::new((i + 1 - n) as nat, |k: int| ' '));
                i += 1;
            }
            proof {
                if n >= l {
                    assert(out@ =~= s@);
                }
            }
        },
        None => {},
    }
    Ok(Datum::String(out))
}

pub fn cast_string_to_varchar(a: &Datum, length: Option<usize>, fail_on_len: bool) -> (r: Result<Datum, EvalError>)
    requires
        a@ is String,
    ensures
        res_view(r) == cast_string_to_varchar_spec(a@->String_0, length, fail_on_len),
{
    match length {
        None => Ok(a.clone()),
        Some(l) => {
            let v = to_chars(a.unwrap_str());
            if v.len() <= l {
                Ok(a.clone())
            } else if !fail_on_len || rest_is_space(&v, l) {
                let r = from_chars_range(&v, 0, l);
                assert(v@.subrange(0, l as int) =~= v@.take(l as int));
                Ok(Datum::String(r))
            } else {
                Err(EvalError::StringValueTooLong { target_type: "character varying".to_owned(), length: l })
            }
        },
    }
}

/// A text that is cast to a character varying type without a length is
/// the text it was.
pub proof fn lemma_varchar_round_trip(s: Seq<char>, fail_on_len: bool)
    ensures
        cast_string_to_varchar_spec(s, None, fail_on_len) == Ok::<DatumV, EvalErrorV>(DatumV::String(s)),
{
}

} // verus!
