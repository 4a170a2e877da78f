//! The encodings of bytes as texts: base64, hexadecimal digits, and the
//! escape format.

use vstd::prelude::*;
use vstd::string::StringExecFns;
use crate::datum::{res_view, Datum, DatumV};
use crate::error::{EvalError, EvalErrorV};
use crate::func_format::{hex_bytes, hex_text, parse_hex, push_hex, unescaped};
use crate::func_string::{ascii_lowered, syntax_error};
use crate::pairs::same_text;
use crate::strings::{is_space, to_chars};

verus! {

/// A way to write bytes as a text.
#[derive(Clone, Copy, Debug, PartialEq, Eq, Structural)]
pub enum Format {
    Base64,
    Escape,
    Hex,
}

/// The format that a name denotes, in any case, if it denotes one.
pub open spec fn format_of_name(name: Seq<char>) -> Option<Format> {
    let t = ascii_lowered(name);
    if t == "base64"@ {
        Some(Format::Base64)
    } else if t == "escape"@ {
        Some(Format::Escape)
    } else if t == "hex"@ {
        Some(Format::Hex)
    } else {
        None
    }
}

/// The format that a name denotes. A name of no format is an invalid
/// encoding name.
pub fn lookup_format(name: &str) -> (r: Result<Format, EvalError>)
    ensures
        match r {
            Ok(f) => format_of_name(name@) == Some(f),
            Err(e) => format_of_name(name@) is None && e@ == EvalErrorV::InvalidEncodingName(name@),
        },
{
    let v = to_chars(name);
    let mut word = String::new();
    let mut i: usize = 0;
    while i < v.len()
        invariant
            i <= v.len(),
            word@ == ascii_lowered(v@.take(i as int)),
        decreases v.len() - i,
    {
        let c = v[i];
        let u = c as u32;
        let l = if 65 <= u && u <= 90 {
            ((u + 32) as u8) as char
        } else {
            c
        };
        word.push(l);
        assert(word@ =~= ascii_lowered(v@.take(i + 1)));
        i += 1;
    }
    assert(v@.take(v@.len() as int) =~= v@);
    let t = word.as_str();
    if same_text(t, "base64") {
        Ok(Format::Base64)
    } else if same_text(t, "escape") {
        Ok(Format::Escape)
    } else if same_text(t, "hex") {
        Ok(Format::Hex)
    } else {
        Err(EvalError::InvalidEncodingName(name.to_owned()))
    }
}

/// The base64 digit of a value below 64.
pub open spec fn b64_char(v: int) -> char {
    if v < 26 {
        (65 + v) as u8 as char
    } else if v < 52 {
        (71 + v) as u8 as char
    } else if v < 62 {
        (v - 4) as u8 as char
    } else if v == 62 {
        '+'
    } else {
        '/'
    }
}

/// The four base64 digits of up to three bytes from a place on, with `=`
/// for the digits of bytes that are not there.
pub open spec fn b64_group(b: Seq<u8>, i: int) -> Seq<char> {
    let b0 = b[i] as int;
    let b1 = if i + 1 < b.len() {
        b[i + 1] as int
    } else {
        0
    };
    let b2 = if i + 2 < b.len() {
        b[i + 2] as int
    } else {
        0
    };
    seq![
        b64_char(b0 / 4),
        b64_char((b0 % 4) * 16 + b1 / 16),
        if i + 1 < b.len() {
            b64_char((b1 % 16) * 4 + b2 / 64)
        } else {
            '='
        },
        if i + 2 < b.len() {
            b64_char(b2 % 64)
        } else {
            '='
        },
    ]
}

/// The base64 text of bytes from a place on: four digits for each three
/// bytes, and a line break behind each 76 digits that are not the last.
pub open spec fn base64_text(b: Seq<u8>, i: int) -> Seq<char>
    decreases b.len() + 3 - i,
{
    if i < 0 || i >= b.len() {
        Seq::empty()
    } else {
        b64_group(b, i) + (if (i / 3 + 1) % 19 == 0 && i + 3 < b.len() {
            seq!['\n']
        } else {
            Seq::empty()
        }) + base64_text(b, i + 3)
    }
}

/// The base64 digit of a value below 64.
fn b64_digit(v: u8) -> (r: char)
    requires
        v < 64,
    ensures
        r == b64_char(v as int),
{
    if v < 26 {
        (65 + v) as char
    } else if v < 52 {
        (71 + v) as char
    } else if v < 62 {
        (v - 4) as char
    } else if v == 62 {
        '+'
    } else {
        '/'
    }
}

/// The base64 text of bytes.
pub fn encode_base64(b: &Vec<u8>) -> (r: String)
    ensures
        r@ == base64_text(b@, 0),
{
    let mut out = String::new();
    let n = b.len();
    let mut i: usize = 0;
    assert(out@ + base64_text(b@, 0) =~= base64_text(b@, 0));
    while i < n
        invariant
            i <= n + 2,
            n == b@.len(),
            i % 3 == 0,
            out@ + base64_text(b@, i as int) == base64_text(b@, 0),
        decreases n + 2 - i,
    {
        let ghost before = out@;
        let b0 = b[i];
        let b1 = if n - i > 1 {
            b[i + 1]
        } else {
            0
        };
        let b2 = if n - i > 2 {
            b[i + 2]
        } else {
            0
        };
        out.push(b64_digit(b0 / 4));
        out.push(b64_digit((b0 % 4) * 16 + b1 / 16));
        if n - i > 1 {
            out.push(b64_digit((b1 % 16) * 4 + b2 / 64));
        } else {
            out.push('=');
        }
        if n - i > 2 {
            out.push(b64_digit(b2 % 64));
        } else {
            out.push('=');
        }
        let ghost grouped = out@;
        assert(grouped =~= before + b64_group(b@, i as int));
        if (i / 3 + 1) % 19 == 0 && n - i > 3 {
            out.push('\n');
        }
        proof {
            let brk: Seq<char> = if (i as int / 3 + 1) % 19 == 0 && i + 3 < n {
                seq!['\n']
            } else {
                Seq::empty()
            };
            assert(out@ =~= grouped + brk);
            assert(out@ + base64_text(b@, i + 3) =~= before + (b64_group(b@, i as int) + brk + base64_text(b@, i + 3)));
        }
        i += 3;
    }
    assert(out@ + Seq::<char>::empty() =~= out@);
    out
}

/// The text of a byte in the escape format: two backslashes for a
/// backslash, a backslash and three octal digits for a byte that is no
/// printable character, and the character of any other byte.
pub open spec fn escaped_byte(b: u8) -> Seq<char> {
    if b == 92 {
        seq!['\\', '\\']
    } else if b < 32 || b > 126 {
        seq!['\\', (48 + b / 64) as char, (48 + (b / 8) % 8) as char, (48 + b % 8) as char]
    } else {
        seq![b as char]
    }
}

/// The text of bytes in the escape format.
pub open spec fn escape_text(b: Seq<u8>) -> Seq<char>
    decreases b.len(),
{
    if b.len() == 0 {
        Seq::empty()
    } else {
        escape_text(b.drop_last()) + escaped_byte(b.last())
    }
}

/// The text of bytes in the escape format.
pub fn encode_escape(b: &Vec<u8>) -> (r: String)
    ensures
        r@ == escape_text(b@),
{
    let mut out = String::new();
    let mut i: usize = 0;
    assert(b@.take(0) =~= Seq::<u8>::empty());
    while i < b.len()
        invariant
            i <= b.len(),
            out@ == escape_text(b@.take(i as int)),
        decreases b.len() - i,
    {
        let x = b[i];
        let ghost before = out@;
        if x == 92 {
            out.push('\\');
            out.push('\\');
        } else if x < 32 || x > 126 {
            out.push('\\');
            out.push((48 + x / 64) as char);
            out.push((48 + (x / 8) % 8) as char);
            out.push((48 + x % 8) as char);
        } else {
            out.push(x as char);
        }
        proof {
            assert(b@.take(i + 1).drop_last() =~= b@.take(i as int));
            assert(b@.take(i + 1).last() == x);
            assert(out@ =~= before + escaped_byte(x));
        }
        i += 1;
    }
    assert(b@.take(b@.len() as int) =~= b@);
    out
}

/// The text of bytes in a format.
pub open spec fn encode_spec(bytes: Seq<u8>, format: Seq<char>) -> Result<DatumV, EvalErrorV> {
    match format_of_name(format) {
        None => Err(EvalErrorV::InvalidEncodingName(format)),
        Some(Format::Base64) => Ok(DatumV::String(base64_text(bytes, 0))),
        Some(Format::Escape) => Ok(DatumV::String(escape_text(bytes))),
        Some(Format::Hex) => Ok(DatumV::String(hex_text(bytes))),
    }
}

pub fn encode(bytes: &Datum, format: &Datum) -> (r: Result<Datum, EvalError>)
    requires
        bytes@ is Bytes,
        format@ is String,
    ensures
        res_view(r) == encode_spec(bytes@->Bytes_0, format@->String_0),
{
    let b = bytes.unwrap_bytes();
    match lookup_format(format.unwrap_str()) {
        Err(e) => Err(e),
        Ok(Format::Base64) => Ok(Datum::String(encode_base64(b))),
        Ok(Format::Escape) => Ok(Datum::String(encode_escape(b))),
        Ok(Format::Hex) => {
            let mut out = String::new();
            push_hex(&mut out, b);
            assert(out@ =~= hex_text(b@));
            Ok(Datum::String(out))
        },
    }
}

/// The value of a base64 digit, if the character is one.
pub open spec fn b64_value(c: char) -> Option<u8> {
    let u = c as u32;
    if 65 <= u <= 90 {
        Some((u - 65) as u8)
    } else if 97 <= u <= 122 {
        Some((u - 71) as u8)
    } else if 48 <= u <= 57 {
        Some((u + 4) as u8)
    } else if c == '+' {
        Some(62u8)
    } else if c == '/' {
        Some(63u8)
    } else {
        None
    }
}

fn b64_value_of(c: char) -> (r: Option<u8>)
    ensures
        r == b64_value(c),
        r is Some ==> r->0 < 64,
{
    let u = c as u32;
    if 65 <= u && u <= 90 {
        Some((u - 65) as u8)
    } else if 97 <= u && u <= 122 {
        Some((u - 71) as u8)
    } else if 48 <= u && u <= 57 {
        Some((u + 4) as u8)
    } else if c == '+' {
        Some(62)
    } else if c == '/' {
        Some(63)
    } else {
        None
    }
}

/// The characters of a text that are no white space.
pub open spec fn without_space(s: Seq<char>) -> Seq<char>
    decreases s.len(),
{
    if s.len() == 0 {
        Seq::empty()
    } else if is_space(s.last()) {
        without_space(s.drop_last())
    } else {
        without_space(s.drop_last()).push(s.last())
    }
}

/// The bytes that base64 digits denote from a place on, four digits for
/// up to three bytes; the last four can end in one or two `=`. None where
/// the digits are not such.
pub open spec fn base64_bytes(s: Seq<char>, i: int) -> Option<Seq<u8>>
    decreases s.len() + 4 - i,
{
    if i < 0 || i >= s.len() {
        Some(Seq::empty())
    } else if i + 4 > s.len() {
        None
    } else {
        match (b64_value(s[i]), b64_value(s[i + 1])) {
            (Some(a), Some(b)) => {
                let first = (a * 4 + b / 16) as u8;
                if s[i + 2] == '=' && s[i + 3] == '=' && i + 4 == s.len() {
                    Some(seq![first])
                } else {
                    match b64_value(s[i + 2]) {
                        None => None,
                        Some(c) => {
                            let second = ((b % 16) * 16 + c / 4) as u8;
                            if s[i + 3] == '=' && i + 4 == s.len() {
                                Some(seq![first, second])
                            } else {
                                match (b64_value(s[i + 3]), base64_bytes(s, i + 4)) {
                                    (Some(d), Some(rest)) => Some(
                                        seq![first, second, ((c % 4) * 64 + d) as u8] + rest,
                                    ),
                                    _ => None,
                                }
                            }
                        },
                    }
                }
            },
            _ => None,
        }
    }
}

/// Reads bytes from base64 digits.
#[verifier::rlimit(80)]
fn decode_base64(s: &Vec<char>) -> (r: Option<Vec<u8>>)
    ensures
        match r {
            Some(b) => base64_bytes(s@, 0) == Some(b@),
            None => base64_bytes(s@, 0) is None,
        },
{
    let n = s.len();
    let mut out: Vec<u8> = Vec::new();
    let mut i: usize = 0;
    while i < n
        invariant
            i <= n,
            n == s@.len(),
            match base64_bytes(s@, i as int) {
                Some(rest) => base64_bytes(s@, 0) == Some(out@ + rest),
                None => base64_bytes(s@, 0) is None,
            },
        decreases n - i,
    {
        if n - i < 4 {
            return None;
        }
        let ghost before = out@;
        let (a, b) = match (b64_value_of(s[i]), b64_value_of(s[i + 1])) {
            (Some(a), Some(b)) => (a, b),
            _ => {
                return None;
            },
        };
        let first = a * 4 + b / 16;
        out.push(first);
        if s[i + 2] == '=' && s[i + 3] == '=' && n - i == 4 {
            assert(before + seq![first] =~= out@);
            return Some(out);
        }
        let c = match b64_value_of(s[i + 2]) {
            Some(c) => c,
            None => {
                return None;
            },
        };
        let second = (b % 16) * 16 + c / 4;
        out.push(second);
        if s[i + 3] == '=' && n - i == 4 {
            assert(before + seq![first, second] =~= out@);
            return Some(out);
        }
        let d = match b64_value_of(s[i + 3]) {
            Some(d) => d,
            None => {
                return None;
            },
        };
        let third = (c % 4) * 64 + d;
        out.push(third);
        proof {
            if base64_bytes(s@, i + 4) is Some {
                assert(before + (seq![first, second, third] + base64_bytes(s@, i + 4)->0) =~= out@ + base64_bytes(
                    s@,
                    i + 4,
                )->0);
            }
        }
        i += 4;
    }
    assert(out@ + Seq::<u8>::empty() =~= out@);
    Some(out)
}

/// The bytes that a text denotes in a format.
pub open spec fn decode_spec(s: Seq<char>, format: Seq<char>) -> Result<DatumV, EvalErrorV> {
    match format_of_name(format) {
        None => Err(EvalErrorV::InvalidEncodingName(format)),
        Some(f) => {
            let bytes = match f {
                Format::Base64 => base64_bytes(without_space(s), 0),
                Format::Escape => unescaped(vstd::utf8::encode_utf8(s), 0),
                Format::Hex => hex_bytes(s),
            };
            match bytes {
                Some(b) => Ok(DatumV::Bytes(b)),
                None => Err(syntax_error(ascii_lowered(format), s)),
            }
        },
    }
}

pub fn decode(string: &Datum, format: &Datum) -> (r: Result<Datum, EvalError>)
    requires
        string@ is String,
        format@ is String,
    ensures
        res_view(r) == decode_spec(string@->String_0, format@->String_0),
{
    let s = string.unwrap_str();
    let f = match lookup_format(format.unwrap_str()) {
        Err(e) => {
            return Err(e);
        },
        Ok(f) => f,
    };
    let v = to_chars(s);
    let (bytes, name): (Option<Vec<u8>>, &str) = match f {
        Format::Base64 => {
            let mut digits: Vec<char> = Vec::new();
            let mut i: usize = 0;
            assert(v@.take(0) =~= Seq::<char>::empty());
            while i < v.len()
                invariant
                    i <= v.len(),
                    digits@ == without_space(v@.take(i as int)),
                decreases v.len() - i,
            {
                proof {
                    assert(v@.take(i + 1).drop_last() =~= v@.take(i as int));
                    assert(v@.take(i + 1).last() == v@[i as int]);
                }
                if !crate::strings::char_is_space(v[i]) {
                    digits.push(v[i]);
                }
                i += 1;
            }
            assert(v@.take(v@.len() as int) =~= v@);
            (decode_base64(&digits), "base64")
        },
        Format::Escape => (crate::func_format::parse_escape_bytes(&s.as_bytes_vec()), "escape"),
        Format::Hex => {
            assert(v@.skip(0) =~= v@);
            (parse_hex(&v, 0), "hex")
        },
    };
    match bytes {
        Some(b) => Ok(Datum::Bytes(b)),
        None => Err(crate::func_string::invalid_input(name, s)),
    }
}

} // verus!
