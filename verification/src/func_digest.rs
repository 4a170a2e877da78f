//! Digests and keyed digests, which the hash crates compute, and the
//! encodings of texts.

use vstd::prelude::*;
use hmac::{Mac, NewMac};
use md5::Digest;
use crate::datum::{res_view, Datum, DatumV};
use crate::error::{EvalError, EvalErrorV};
use crate::func_string::{length_datum, lowercase};
use crate::pairs::same_text;
use crate::text::replaced;

verus! {

/// The MD5 digest of bytes.
pub uninterp spec fn md5_digest(bytes: Seq<u8>) -> Seq<u8>;

/// Calls `Digest::digest` of `md5::Md5`. The contract claims that the
/// digest is a function of the bytes, names it, and claims its length,
/// which the type of the hash fixes.
#[verifier::external_body]
fn md5_of(bytes: &Vec<u8>) -> (r: Vec<u8>)
    ensures
        r@ == md5_digest(bytes@),
        r@.len() == 16,
{
    md5::Md5::digest(bytes).to_vec()
}

/// The MD5 digest of bytes under a key.
pub uninterp spec fn md5_hmac(bytes: Seq<u8>, key: Seq<u8>) -> Seq<u8>;

/// Computes an `hmac::Hmac` over `md5::Md5`: makes it of the key with
/// `new_from_slice`, which takes a key of any size, feeds it the bytes and
/// takes the outcome. The contract claims that the outcome is a function of
/// the bytes and the key, names it, and claims its length, which the type
/// of the hash fixes.
#[verifier::external_body]
fn md5_hmac_of(bytes: &Vec<u8>, key: &Vec<u8>) -> (r: Vec<u8>)
    ensures
        r@ == md5_hmac(bytes@, key@),
        r@.len() == 16,
{
    let mut mac = hmac::Hmac::<md5::Md5>::new_from_slice(key).unwrap();
    mac.update(bytes);
    mac.finalize().into_bytes().to_vec()
}

/// The SHA-1 digest of bytes.
pub uninterp spec fn sha1_digest(bytes: Seq<u8>) -> Seq<u8>;

/// Calls `Digest::digest` of `sha1::Sha1`. The contract claims that the
/// digest is a function of the bytes, names it, and claims its length,
/// which the type of the hash fixes.
#[verifier::external_body]
fn sha1_of(bytes: &Vec<u8>) -> (r: Vec<u8>)
    ensures
        r@ == sha1_digest(bytes@),
        r@.len() == 20,
{
    sha1::Sha1::digest(bytes).to_vec()
}

/// The SHA-1 digest of bytes under a key.
pub uninterp spec fn sha1_hmac(bytes: Seq<u8>, key: Seq<u8>) -> Seq<u8>;

/// Computes an `hmac::Hmac` over `sha1::Sha1`: makes it of the key with
/// `new_from_slice`, which takes a key of any size, feeds it the bytes and
/// takes the outcome. The contract claims that the outcome is a function of
/// the bytes and the key, names it, and claims its length, which the type
/// of the hash fixes.
#[verifier::external_body]
fn sha1_hmac_of(bytes: &Vec<u8>, key: &Vec<u8>) -> (r: Vec<u8>)
    ensures
        r@ == sha1_hmac(bytes@, key@),
        r@.len() == 20,
{
    let mut mac = hmac::Hmac::<sha1::Sha1>::new_from_slice(key).unwrap();
    mac.update(bytes);
    mac.finalize().into_bytes().to_vec()
}

/// The SHA-224 digest of bytes.
pub uninterp spec fn sha224_digest(bytes: Seq<u8>) -> Seq<u8>;

/// Calls `Digest::digest` of `sha2::Sha224`. The contract claims that the
/// digest is a function of the bytes, names it, and claims its length,
/// which the type of the hash fixes.
#[verifier::external_body]
fn sha224_of(bytes: &Vec<u8>) -> (r: Vec<u8>)
    ensures
        r@ == sha224_digest(bytes@),
        r@.len() == 28,
{
    sha2::Sha224::digest(bytes).to_vec()
}

/// The SHA-224 digest of bytes under a key.
pub uninterp spec fn sha224_hmac(bytes: Seq<u8>, key: Seq<u8>) -> Seq<u8>;

/// Computes an `hmac::Hmac` over `sha2::Sha224`: makes it of the key with
/// `new_from_slice`, which takes a key of any size, feeds it the bytes and
/// takes the outcome. The contract claims that the outcome is a function of
/// the bytes and the key, names it, and claims its length, which the type
/// of the hash fixes.
#[verifier::external_body]
fn sha224_hmac_of(bytes: &Vec<u8>, key: &Vec<u8>) -> (r: Vec<u8>)
    ensures
        r@ == sha224_hmac(bytes@, key@),
        r@.len() == 28,
{
    let mut mac = hmac::Hmac::<sha2::Sha224>::new_from_slice(key).unwrap();
    mac.update(bytes);
    mac.finalize().into_bytes().to_vec()
}

/// The SHA-256 digest of bytes.
pub uninterp spec fn sha256_digest(bytes: Seq<u8>) -> Seq<u8>;

/// Calls `Digest::digest` of `sha2::Sha256`. The contract claims that the
/// digest is a function of the bytes, names it, and claims its length,
/// which the type of the hash fixes.
#[verifier::external_body]
fn sha256_of(bytes: &Vec<u8>) -> (r: Vec<u8>)
    ensures
        r@ == sha256_digest(bytes@),
        r@.len() == 32,
{
    sha2::Sha256::digest(bytes).to_vec()
}

/// The SHA-256 digest of bytes under a key.
pub uninterp spec fn sha256_hmac(bytes: Seq<u8>, key: Seq<u8>) -> Seq<u8>;

/// Computes an `hmac::Hmac` over `sha2::Sha256`: makes it of the key with
/// `new_from_slice`, which takes a key of any size, feeds it the bytes and
/// takes the outcome. The contract claims that the outcome is a function of
/// the bytes and the key, names it, and claims its length, which the type
/// of the hash fixes.
#[verifier::external_body]
fn sha256_hmac_of(bytes: &Vec<u8>, key: &Vec<u8>) -> (r: Vec<u8>)
    ensures
        r@ == sha256_hmac(bytes@, key@),
        r@.len() == 32,
{
    let mut mac = hmac::Hmac::<sha2::Sha256>::new_from_slice(key).unwrap();
    mac.update(bytes);
    mac.finalize().into_bytes().to_vec()
}

/// The SHA-384 digest of bytes.
pub uninterp spec fn sha384_digest(bytes: Seq<u8>) -> Seq<u8>;

/// Calls `Digest::digest` of `sha2::Sha384`. The contract claims that the
/// digest is a function of the bytes, names it, and claims its length,
/// which the type of the hash fixes.
#[verifier::external_body]
fn sha384_of(bytes: &Vec<u8>) -> (r: Vec<u8>)
    ensures
        r@ == sha384_digest(bytes@),
        r@.len() == 48,
{
    sha2::Sha384::digest(bytes).to_vec()
}

/// The SHA-384 digest of bytes under a key.
pub uninterp spec fn sha384_hmac(bytes: Seq<u8>, key: Seq<u8>) -> Seq<u8>;

/// Computes an `hmac::Hmac` over `sha2::Sha384`: makes it of the key with
/// `new_from_slice`, which takes a key of any size, feeds it the bytes and
/// takes the outcome. The contract claims that the outcome is a function of
/// the bytes and the key, names it, and claims its length, which the type
/// of the hash fixes.
#[verifier::external_body]
fn sha384_hmac_of(bytes: &Vec<u8>, key: &Vec<u8>) -> (r: Vec<u8>)
    ensures
        r@ == sha384_hmac(bytes@, key@),
        r@.len() == 48,
{
    let mut mac = hmac::Hmac::<sha2::Sha384>::new_from_slice(key).unwrap();
    mac.update(bytes);
    mac.finalize().into_bytes().to_vec()
}

/// The SHA-512 digest of bytes.
pub uninterp spec fn sha512_digest(bytes: Seq<u8>) -> Seq<u8>;

/// Calls `Digest::digest` of `sha2::Sha512`. The contract claims that the
/// digest is a function of the bytes, names it, and claims its length,
/// which the type of the hash fixes.
#[verifier::external_body]
fn sha512_of(bytes: &Vec<u8>) -> (r: Vec<u8>)
    ensures
        r@ == sha512_digest(bytes@),
        r@.len() == 64,
{
    sha2::Sha512::digest(bytes).to_vec()
}

/// The SHA-512 digest of bytes under a key.
pub uninterp spec fn sha512_hmac(bytes: Seq<u8>, key: Seq<u8>) -> Seq<u8>;

/// Computes an `hmac::Hmac` over `sha2::Sha512`: makes it of the key with
/// `new_from_slice`, which takes a key of any size, feeds it the bytes and
/// takes the outcome. The contract claims that the outcome is a function of
/// the bytes and the key, names it, and claims its length, which the type
/// of the hash fixes.
#[verifier::external_body]
fn sha512_hmac_of(bytes: &Vec<u8>, key: &Vec<u8>) -> (r: Vec<u8>)
    ensures
        r@ == sha512_hmac(bytes@, key@),
        r@.len() == 64,
{
    let mut mac = hmac::Hmac::<sha2::Sha512>::new_from_slice(key).unwrap();
    mac.update(bytes);
    mac.finalize().into_bytes().to_vec()
}

/// The number of bytes of the digests of the algorithm of a name.
pub open spec fn digest_length(algorithm: Seq<char>) -> nat {
    if algorithm == "md5"@ {
        16
    } else if algorithm == "sha1"@ {
        20
    } else if algorithm == "sha224"@ {
        28
    } else if algorithm == "sha256"@ {
        32
    } else if algorithm == "sha384"@ {
        48
    } else {
        64
    }
}

/// The digest of bytes by the algorithm of a name, if the name is that of
/// an algorithm.
pub open spec fn digest_spec(bytes: Seq<u8>, algorithm: Seq<char>) -> Result<DatumV, EvalErrorV> {
    if algorithm == "md5"@ {
        Ok(DatumV::Bytes(md5_digest(bytes)))
    } else if algorithm == "sha1"@ {
        Ok(DatumV::Bytes(sha1_digest(bytes)))
    } else if algorithm == "sha224"@ {
        Ok(DatumV::Bytes(sha224_digest(bytes)))
    } else if algorithm == "sha256"@ {
        Ok(DatumV::Bytes(sha256_digest(bytes)))
    } else if algorithm == "sha384"@ {
        Ok(DatumV::Bytes(sha384_digest(bytes)))
    } else if algorithm == "sha512"@ {
        Ok(DatumV::Bytes(sha512_digest(bytes)))
    } else {
        Err(EvalErrorV::InvalidHashAlgorithm(algorithm))
    }
}

/// The digest of bytes by the algorithm of a name.
pub fn digest_inner(bytes: &Vec<u8>, digest_fn: &Datum) -> (r: Result<Datum, EvalError>)
    requires
        digest_fn@ is String,
    ensures
        res_view(r) == digest_spec(bytes@, digest_fn@->String_0),
        r is Ok ==> r->Ok_0@ is Bytes && r->Ok_0@->Bytes_0.len() == digest_length(digest_fn@->String_0),
{
    let name = digest_fn.unwrap_str();
    let out = if same_text(name, "md5") {
        md5_of(bytes)
    } else if same_text(name, "sha1") {
        sha1_of(bytes)
    } else if same_text(name, "sha224") {
        sha224_of(bytes)
    } else if same_text(name, "sha256") {
        sha256_of(bytes)
    } else if same_text(name, "sha384") {
        sha384_of(bytes)
    } else if same_text(name, "sha512") {
        sha512_of(bytes)
    } else {
        return Err(EvalError::InvalidHashAlgorithm(name.to_owned()));
    };
    Ok(Datum::Bytes(out))
}

/// The bytes of a text.
pub fn text_bytes(s: &str) -> (r: Vec<u8>)
    ensures
        r@ == vstd::utf8::encode_utf8(s@),
{
    s.as_bytes_vec()
}

pub fn digest_string(a: &Datum, b: &Datum) -> (r: Result<Datum, EvalError>)
    requires
        a@ is String,
        b@ is String,
    ensures
        res_view(r) == digest_spec(vstd::utf8::encode_utf8(a@->String_0), b@->String_0),
        r is Ok ==> r->Ok_0@ is Bytes && r->Ok_0@->Bytes_0.len() == digest_length(b@->String_0),
{
    digest_inner(&text_bytes(a.unwrap_str()), b)
}

pub fn digest_bytes(a: &Datum, b: &Datum) -> (r: Result<Datum, EvalError>)
    requires
        a@ is Bytes,
        b@ is String,
    ensures
        res_view(r) == digest_spec(a@->Bytes_0, b@->String_0),
        r is Ok ==> r->Ok_0@ is Bytes && r->Ok_0@->Bytes_0.len() == digest_length(b@->String_0),
{
    digest_inner(a.unwrap_bytes(), b)
}

/// The digest of bytes under a key by the algorithm of a name, if the name
/// is that of an algorithm.
pub open spec fn hmac_spec(bytes: Seq<u8>, key: Seq<u8>, algorithm: Seq<char>) -> Result<DatumV, EvalErrorV> {
    if algorithm == "md5"@ {
        Ok(DatumV::Bytes(md5_hmac(bytes, key)))
    } else if algorithm == "sha1"@ {
        Ok(DatumV::Bytes(sha1_hmac(bytes, key)))
    } else if algorithm == "sha224"@ {
        Ok(DatumV::Bytes(sha224_hmac(bytes, key)))
    } else if algorithm == "sha256"@ {
        Ok(DatumV::Bytes(sha256_hmac(bytes, key)))
    } else if algorithm == "sha384"@ {
        Ok(DatumV::Bytes(sha384_hmac(bytes, key)))
    } else if algorithm == "sha512"@ {
        Ok(DatumV::Bytes(sha512_hmac(bytes, key)))
    } else {
        Err(EvalErrorV::InvalidHashAlgorithm(algorithm))
    }
}

/// The digest of bytes under a key by the algorithm of a name.
pub fn hmac_inner(to_digest: &Vec<u8>, key: &Vec<u8>, typ: &str) -> (r: Result<Datum, EvalError>)
    ensures
        res_view(r) == hmac_spec(to_digest@, key@, typ@),
        r is Ok ==> r->Ok_0@ is Bytes && r->Ok_0@->Bytes_0.len() == digest_length(typ@),
{
    let out = if same_text(typ, "md5") {
        md5_hmac_of(to_digest, key)
    } else if same_text(typ, "sha1") {
        sha1_hmac_of(to_digest, key)
    } else if same_text(typ, "sha224") {
        sha224_hmac_of(to_digest, key)
    } else if same_text(typ, "sha256") {
        sha256_hmac_of(to_digest, key)
    } else if same_text(typ, "sha384") {
        sha384_hmac_of(to_digest, key)
    } else if same_text(typ, "sha512") {
        sha512_hmac_of(to_digest, key)
    } else {
        return Err(EvalError::InvalidHashAlgorithm(typ.to_owned()));
    };
    Ok(Datum::Bytes(out))
}

pub fn hmac_string(datums: &Vec<Datum>) -> (r: Result<Datum, EvalError>)
    requires
        datums@.len() == 3,
        datums@[0]@ is String,
        datums@[1]@ is String,
        datums@[2]@ is String,
    ensures
        res_view(r) == hmac_spec(
            vstd::utf8::encode_utf8(datums@[0]@->String_0),
            vstd::utf8::encode_utf8(datums@[1]@->String_0),
            datums@[2]@->String_0,
        ),
        r is Ok ==> r->Ok_0@ is Bytes && r->Ok_0@->Bytes_0.len() == digest_length(datums@[2]@->String_0),
{
    let to_digest = text_bytes(datums[0].unwrap_str());
    let key = text_bytes(datums[1].unwrap_str());
    hmac_inner(&to_digest, &key, datums[2].unwrap_str())
}

pub fn hmac_bytes(datums: &Vec<Datum>) -> (r: Result<Datum, EvalError>)
    requires
        datums@.len() == 3,
        datums@[0]@ is Bytes,
        datums@[1]@ is Bytes,
        datums@[2]@ is String,
    ensures
        res_view(r) == hmac_spec(datums@[0]@->Bytes_0, datums@[1]@->Bytes_0, datums@[2]@->String_0),
        r is Ok ==> r->Ok_0@ is Bytes && r->Ok_0@->Bytes_0.len() == digest_length(datums@[2]@->String_0),
{
    hmac_inner(datums[0].unwrap_bytes(), datums[1].unwrap_bytes(), datums[2].unwrap_str())
}

/// The name that the `encoding` crate gives the encoding of a label, if it
/// knows the label.
pub uninterp spec fn whatwg_name(label: Seq<char>) -> Option<Seq<char>>;

/// The text that the encoding of a label makes of bytes, or the message of
/// the error, if the `encoding` crate knows the label.
pub uninterp spec fn decoded(label: Seq<char>, bytes: Seq<u8>) -> Option<Result<Seq<char>, Seq<char>>>;

/// `std::str::Utf8Error`, declared so that the library can carry one
/// from the call that gives it to the call that writes it.
#[verifier::external_type_specification]
#[verifier::external_body]
pub struct ExUtf8Error(std::str::Utf8Error);

/// The error of `std::str::from_utf8` for bytes that are no text in
/// UTF-8.
pub uninterp spec fn utf8_fault(bytes: Seq<u8>) -> std::str::Utf8Error;

/// The message that an error of `std::str::from_utf8` writes.
pub uninterp spec fn utf8_message(e: std::str::Utf8Error) -> Seq<char>;

/// The message of the error of `std::str::from_utf8` for bytes that are no
/// text in UTF-8.
pub open spec fn utf8_error(bytes: Seq<u8>) -> Seq<char> {
    utf8_message(utf8_fault(bytes))
}

/// The text that bytes are in UTF-8, or the message of the error that they
/// are none.
pub open spec fn utf8_decoded(bytes: Seq<u8>) -> Result<Seq<char>, Seq<char>> {
    if vstd::utf8::valid_utf8(bytes) {
        Ok(vstd::utf8::decode_utf8(bytes))
    } else {
        Err(utf8_error(bytes))
    }
}

/// The view of an optional text.
pub open spec fn opt_view(s: Option<String>) -> Option<Seq<char>> {
    match s {
        Some(s) => Some(s@),
        None => None,
    }
}

/// The view of a text or a message.
pub open spec fn text_result_view(r: Result<String, String>) -> Result<Seq<char>, Seq<char>> {
    match r {
        Ok(s) => Ok(s@),
        Err(e) => Err(e@),
    }
}

/// Asks `encoding::label::encoding_from_whatwg_label` for the encoding of
/// the label and gives its name. The contract claims that the name is a
/// function of the label, and names it.
#[verifier::external_body]
fn encoding_name(label: &str) -> (r: Option<String>)
    ensures
        opt_view(r) == whatwg_name(label@),
{
    encoding::label::encoding_from_whatwg_label(label).map(|e| e.name().to_owned())
}

/// Asks `encoding::label::encoding_from_whatwg_label` for the encoding of
/// the label and decodes the bytes with it, strictly. The contract claims
/// that the outcome is a function of the label and the bytes, names it,
/// and claims that there is an outcome exactly where the label has a
/// name.
#[verifier::external_body]
fn decode_with(label: &str, bytes: &Vec<u8>) -> (r: Option<Result<String, String>>)
    ensures
        match r {
            Some(x) => decoded(label@, bytes@) == Some(text_result_view(x)),
            None => decoded(label@, bytes@) is None,
        },
        r is Some <==> whatwg_name(label@) is Some,
{
    let enc = encoding::label::encoding_from_whatwg_label(label)?;
    Some(enc.decode(bytes, encoding::DecoderTrap::Strict).map_err(|e| e.into_owned()))
}

/// Calls `std::str::from_utf8` on the bytes and copies the text. The
/// contract claims that the call succeeds exactly on bytes that are valid
/// UTF-8, that the text is then the one that the bytes encode, and that
/// the error is a function of the bytes, which it names.
#[verifier::external_body]
fn decode_utf8(bytes: &Vec<u8>) -> (r: Result<String, std::str::Utf8Error>)
    ensures
        r is Ok <==> vstd::utf8::valid_utf8(bytes@),
        r is Ok ==> r->Ok_0@ == vstd::utf8::decode_utf8(bytes@),
        r is Err ==> r->Err_0 == utf8_fault(bytes@),
{
    std::str::from_utf8(bytes).map(|s| s.to_owned())
}

/// Calls `to_string` on an error of `std::str::from_utf8`. The contract
/// claims that the message is a function of the error, and names it.
#[verifier::external_body]
fn utf8_error_text(e: &std::str::Utf8Error) -> (r: String)
    ensures
        r@ == utf8_message(*e),
{
    e.to_string()
}

/// The name of an encoding as the `encoding` crate knows it: in small
/// letters, with hyphens for underscores.
pub open spec fn normalized_label(name: Seq<char>) -> Seq<char> {
    replaced(lowercase(name), "_"@, "-"@)
}

fn normalize_label(name: &str) -> (r: String)
    ensures
        r@ == normalized_label(name@),
{
    let lower = crate::func_string::lower(&Datum::from_str(name));
    crate::text::replace_text(lower.unwrap_str(), "_", "-")
}

pub open spec fn convert_from_spec(bytes: Seq<u8>, encoding_name: Seq<char>) -> Result<DatumV, EvalErrorV> {
    let label = normalized_label(encoding_name);
    if whatwg_name(label) != Some("utf-8"@) {
        Err(EvalErrorV::InvalidEncodingName(label))
    } else {
        match utf8_decoded(bytes) {
            Ok(s) => Ok(DatumV::String(s)),
            Err(e) => Err(EvalErrorV::InvalidByteSequence { byte_sequence: e, encoding_name: label }),
        }
    }
}

/// The text that bytes are in an encoding, which must be UTF-8.
pub fn convert_from(a: &Datum, b: &Datum) -> (r: Result<Datum, EvalError>)
    requires
        a@ is Bytes,
        b@ is String,
    ensures
        res_view(r) == convert_from_spec(a@->Bytes_0, b@->String_0),
{
    let label = normalize_label(b.unwrap_str());
    let known = match encoding_name(label.as_str()) {
        Some(n) => same_text(n.as_str(), "utf-8"),
        None => false,
    };
    if !known {
        return Err(EvalError::InvalidEncodingName(label));
    }
    match decode_utf8(a.unwrap_bytes()) {
        Ok(s) => Ok(Datum::String(s)),
        Err(e) => Err(EvalError::InvalidByteSequence { byte_sequence: utf8_error_text(&e), encoding_name: label }),
    }
}

pub open spec fn encoded_bytes_char_length_spec(bytes: Seq<u8>, encoding_name: Seq<char>) -> Result<
    DatumV,
    EvalErrorV,
> {
    let label = normalized_label(encoding_name);
    match decoded(label, bytes) {
        None => Err(EvalErrorV::InvalidEncodingName(label)),
        Some(Err(e)) => Err(EvalErrorV::InvalidByteSequence { byte_sequence: e, encoding_name: label }),
        Some(Ok(s)) => length_datum(s.len() as int),
    }
}

/// The number of characters that bytes are in an encoding.
pub fn encoded_bytes_char_length(a: &Datum, b: &Datum) -> (r: Result<Datum, EvalError>)
    requires
        a@ is Bytes,
        b@ is String,
    ensures
        res_view(r) == encoded_bytes_char_length_spec(a@->Bytes_0, b@->String_0),
{
    let label = normalize_label(b.unwrap_str());
    match decode_with(label.as_str(), a.unwrap_bytes()) {
        None => Err(EvalError::InvalidEncodingName(label)),
        Some(Err(e)) => Err(EvalError::InvalidByteSequence { byte_sequence: e, encoding_name: label }),
        Some(Ok(s)) => {
            let n = s.as_str().unicode_len() as u128;
            if n <= i32::MAX as u128 {
                Ok(Datum::Int32(n as i32))
            } else {
                Err(EvalError::Int32OutOfRange)
            }
        },
    }
}

} // verus!
