use expr::datum::{ArrayDimension, Datum};
use expr::error::EvalError;
use expr::func_digest::{convert_from, digest_bytes, digest_string, hmac_bytes, hmac_string};
use expr::func_encoding::{decode, encode};
use expr::func_format::{cast_bytes_to_string, cast_string_to_bytes, cast_string_to_uuid, cast_uuid_to_string};
use expr::func_int::{
    add_int16, add_int32, add_int64, bit_shift_left_int32, cast_int64_to_int32, mod_int32, mul_int64, neg_int32,
    sub_int64,
};
use expr::func_jsonb::{
    jsonb_array_length, jsonb_build_object, jsonb_concat, jsonb_delete_string, jsonb_strip_nulls, jsonb_typeof,
    map_contains_key, map_get_value,
};
use expr::func_list::{array_create_scalar, array_index, list_index, list_length, list_slice};
use expr::func_numeric::{
    add_numeric, cast_int64_to_numeric, cast_numeric_to_int32, cast_numeric_to_string, cast_string_to_numeric,
    div_numeric, ln_numeric, mul_numeric, sqrt_numeric, sub_numeric,
};
use expr::func_regex::{is_like_pattern_match_dynamic, is_regexp_match_dynamic, regexp_match_dynamic};
use expr::func_string::{
    ascii, cast_int16_to_string, cast_int32_to_string, cast_int64_to_string, cast_str_to_char, cast_string_to_bool,
    cast_string_to_int16, cast_string_to_int32, cast_string_to_int64, cast_string_to_varchar, char_length, left,
    lower, pad_leading, position, repeat_string, replace, right, split_part, substr, trim, upper,
};
use expr::order::Order;
use ordered_float::OrderedFloat;

fn text(s: &str) -> Datum {
    Datum::String(s.to_string())
}

fn numeric(s: &str) -> Datum {
    cast_string_to_numeric(&text(s), None).unwrap()
}

fn hex(s: &str) -> Vec<u8> {
    (0..s.len() / 2).map(|i| u8::from_str_radix(&s[2 * i..2 * i + 2], 16).unwrap()).collect()
}

#[test]
fn integers_come_back_from_their_texts() {
    for x in [0i32, 1, -1, 42, -2_147_483_648, 2_147_483_647] {
        let t = cast_int32_to_string(&Datum::Int32(x));
        assert_eq!(t, text(&x.to_string()));
        assert_eq!(cast_string_to_int32(&t), Ok(Datum::Int32(x)));
    }
    for x in [i16::MIN, -7, 0, i16::MAX] {
        assert_eq!(cast_string_to_int16(&cast_int16_to_string(&Datum::Int16(x))), Ok(Datum::Int16(x)));
    }
    for x in [i64::MIN, -7, 0, i64::MAX] {
        assert_eq!(cast_string_to_int64(&cast_int64_to_string(&Datum::Int64(x))), Ok(Datum::Int64(x)));
    }
    assert_eq!(cast_string_to_int32(&text("  17 ")), Ok(Datum::Int32(17)));
}

#[test]
fn texts_come_back_from_their_texts() {
    assert_eq!(cast_string_to_varchar(&text("héllo"), None, false), Ok(text("héllo")));
    assert_eq!(cast_string_to_varchar(&text("hello"), Some(5), true), Ok(text("hello")));
    assert_eq!(cast_string_to_varchar(&text("hello"), Some(3), false), Ok(text("hel")));
    assert_eq!(cast_string_to_varchar(&text("hello"), Some(3), true), Err(EvalError::StringValueTooLong {
        target_type: "character varying".to_string(),
        length: 3,
    }));
    assert_eq!(cast_str_to_char(&text("ab"), Some(2), true), Ok(text("ab")));
}

#[test]
fn texts_that_are_no_integers() {
    assert!(matches!(cast_string_to_int32(&text("12x")), Err(EvalError::InvalidInputSyntax { .. })));
    assert!(matches!(cast_string_to_int32(&text("")), Err(EvalError::InvalidInputSyntax { .. })));
    assert!(matches!(cast_string_to_int16(&text("40000")), Err(EvalError::InvalidInputSyntax { .. })));
    assert!(matches!(cast_string_to_int32(&text("2147483648")), Err(EvalError::InvalidInputSyntax { .. })));
    assert_eq!(cast_string_to_bool(&text("true")), Ok(Datum::True));
    assert_eq!(cast_string_to_bool(&text(" NO ")), Ok(Datum::False));
    assert!(matches!(cast_string_to_bool(&text("maybe")), Err(EvalError::InvalidInputSyntax { .. })));
}

#[test]
fn overflow_is_an_error() {
    assert_eq!(add_int16(&Datum::Int16(i16::MAX), &Datum::Int16(1)), Err(EvalError::NumericFieldOverflow));
    assert_eq!(add_int32(&Datum::Int32(i32::MAX), &Datum::Int32(1)), Err(EvalError::NumericFieldOverflow));
    assert_eq!(add_int32(&Datum::Int32(i32::MAX - 1), &Datum::Int32(1)), Ok(Datum::Int32(i32::MAX)));
    assert_eq!(add_int64(&Datum::Int64(i64::MIN), &Datum::Int64(-1)), Err(EvalError::NumericFieldOverflow));
    assert_eq!(sub_int64(&Datum::Int64(i64::MIN), &Datum::Int64(1)), Err(EvalError::NumericFieldOverflow));
    assert_eq!(mul_int64(&Datum::Int64(i64::MAX), &Datum::Int64(2)), Err(EvalError::NumericFieldOverflow));
    assert_eq!(neg_int32(&Datum::Int32(i32::MIN)), Err(EvalError::Int32OutOfRange));
    assert_eq!(neg_int32(&Datum::Int32(5)), Ok(Datum::Int32(-5)));
    assert_eq!(cast_int64_to_int32(&Datum::Int64(1 << 40)), Err(EvalError::Int32OutOfRange));
    assert_eq!(mod_int32(&Datum::Int32(7), &Datum::Int32(0)), Err(EvalError::DivisionByZero));
    assert_eq!(mod_int32(&Datum::Int32(-7), &Datum::Int32(2)), Ok(Datum::Int32(-1)));
    assert_eq!(mod_int32(&Datum::Int32(i32::MIN), &Datum::Int32(-1)), Ok(Datum::Int32(0)));
    let big = numeric("1e38");
    assert_eq!(mul_numeric(&big, &big), Err(EvalError::FloatOverflow));
    assert_eq!(add_numeric(&numeric("9e38"), &numeric("9e38")), Err(EvalError::FloatOverflow));
    assert_eq!(cast_int64_to_numeric(&Datum::Int64(12_345), Some(38)), Err(EvalError::NumericFieldOverflow));
}

#[test]
fn shifts_wrap() {
    assert_eq!(bit_shift_left_int32(&Datum::Int32(1), &Datum::Int32(33)), Datum::Int32(2));
    assert_eq!(bit_shift_left_int32(&Datum::Int32(1), &Datum::Int32(31)), Datum::Int32(i32::MIN));
}

#[test]
fn decimals() {
    assert_eq!(cast_numeric_to_string(&add_numeric(&numeric("1.5"), &numeric("2.25")).unwrap()), text("3.75"));
    assert_eq!(cast_numeric_to_string(&sub_numeric(&numeric("1.5"), &numeric("2.25")).unwrap()), text("-0.75"));
    assert_eq!(cast_numeric_to_string(&mul_numeric(&numeric("1.5"), &numeric("4")).unwrap()), text("6.0"));
    assert_eq!(cast_numeric_to_string(&div_numeric(&numeric("1"), &numeric("8")).unwrap()), text("0.125"));
    assert_eq!(div_numeric(&numeric("1"), &numeric("0")), Err(EvalError::DivisionByZero));
    assert_eq!(sqrt_numeric(&numeric("-1")), Err(EvalError::NegSqrt));
    assert_eq!(cast_numeric_to_string(&sqrt_numeric(&numeric("9")).unwrap()), text("3"));
    assert_eq!(ln_numeric(&numeric("0")), Err(EvalError::ZeroOutOfDomain("ln".to_string())));
    assert_eq!(ln_numeric(&numeric("-1")), Err(EvalError::NegativeOutOfDomain("ln".to_string())));
    assert_eq!(cast_numeric_to_int32(&numeric("2.5")), Ok(Datum::Int32(3)));
    assert_eq!(cast_numeric_to_int32(&numeric("1e12")), Err(EvalError::Int32OutOfRange));
    assert_eq!(cast_int64_to_numeric(&Datum::Int64(-12), None), Ok(numeric("-12")));
    assert_eq!(cast_numeric_to_string(&cast_int64_to_numeric(&Datum::Int64(5), Some(2)).unwrap()), text("5.00"));
    assert!(matches!(cast_string_to_numeric(&text("x"), None), Err(EvalError::InvalidInputSyntax { .. })));
    assert_eq!(numeric("1.0").compare(&numeric("1.00")), Order::Equal);
    assert_eq!(numeric("-3").compare(&numeric("2.5")), Order::Less);
    assert_eq!(numeric("NaN").compare(&numeric("1e30")), Order::Greater);
}

#[test]
fn texts() {
    assert_eq!(upper(&text("aBc1")), text("ABC1"));
    assert_eq!(lower(&text("aBc1")), text("abc1"));
    assert_eq!(ascii(&text("A")), Datum::Int32(65));
    assert_eq!(ascii(&text("")), Datum::Int32(0));
    assert_eq!(char_length(&text("héllo")), Ok(Datum::Int32(5)));
    assert_eq!(left(&text("hello"), &Datum::Int32(2)), Ok(text("he")));
    assert_eq!(left(&text("hello"), &Datum::Int32(-2)), Ok(text("hel")));
    assert_eq!(right(&text("hello"), &Datum::Int32(2)), Ok(text("lo")));
    assert_eq!(position(&text("l"), &text("hello")), Ok(Datum::Int32(3)));
    assert_eq!(position(&text("z"), &text("hello")), Ok(Datum::Int32(0)));
    assert_eq!(repeat_string(&text("ab"), &Datum::Int32(3)), Ok(text("ababab")));
    assert_eq!(repeat_string(&text("ab"), &Datum::Int32(-1)), Ok(text("")));
    assert_eq!(trim(&text("xxhixx"), &text("x")), text("hi"));
    assert_eq!(replace(&vec![text("banana"), text("an"), text("-")]), text("b--a"));
    assert_eq!(split_part(&vec![text("a,b,c"), text(","), Datum::Int64(2)]), Ok(text("b")));
    assert_eq!(split_part(&vec![text("a,b,c"), text(","), Datum::Int64(5)]), Ok(text("")));
    assert!(matches!(
        split_part(&vec![text("a,b,c"), text(","), Datum::Int64(0)]),
        Err(EvalError::InvalidParameterValue(_))
    ));
    assert_eq!(substr(&vec![text("hello"), Datum::Int64(2), Datum::Int64(3)]), Ok(text("ell")));
    assert_eq!(substr(&vec![text("hello"), Datum::Int64(2)]), Ok(text("ello")));
    assert!(matches!(
        substr(&vec![text("hello"), Datum::Int64(2), Datum::Int64(-1)]),
        Err(EvalError::InvalidParameterValue(_))
    ));
    assert_eq!(pad_leading(&vec![text("7"), Datum::Int64(3), text("0")]), Ok(text("007")));
    assert_eq!(pad_leading(&vec![text("hello"), Datum::Int64(2)]), Ok(text("he")));
}

#[test]
fn digests() {
    assert_eq!(
        digest_string(&text("abc"), &text("md5")),
        Ok(Datum::Bytes(hex("900150983cd24fb0d6963f7d28e17f72")))
    );
    assert_eq!(
        digest_bytes(&Datum::Bytes(b"abc".to_vec()), &text("sha256")),
        Ok(Datum::Bytes(hex("ba7816bf8f01cfea414140de5dae2223b00361a396177a9cb410ff61f20015ad")))
    );
    assert_eq!(
        digest_string(&text("abc"), &text("sha1")),
        Ok(Datum::Bytes(hex("a9993e364706816aba3e25717850c26c9cd0d89d")))
    );
    assert_eq!(
        digest_string(&text("abc"), &text("crc")),
        Err(EvalError::InvalidHashAlgorithm("crc".to_string()))
    );
    let fox = "The quick brown fox jumps over the lazy dog";
    assert_eq!(
        hmac_string(&vec![text(fox), text("key"), text("md5")]),
        Ok(Datum::Bytes(hex("80070713463e7749b90c2dc24911e275")))
    );
    assert_eq!(
        hmac_bytes(&vec![Datum::Bytes(fox.as_bytes().to_vec()), Datum::Bytes(b"key".to_vec()), text("sha256")]),
        Ok(Datum::Bytes(hex("f7bc83f430538424b13298e6aa6fb143ef4d59a14946175997479dbc2d1a3cd8")))
    );
    assert_eq!(
        hmac_string(&vec![text(fox), text("key"), text("crc")]),
        Err(EvalError::InvalidHashAlgorithm("crc".to_string()))
    );
}

#[test]
fn encodings() {
    let hello = Datum::Bytes(b"hello".to_vec());
    assert_eq!(encode(&hello, &text("base64")), Ok(text("aGVsbG8=")));
    assert_eq!(encode(&hello, &text("hex")), Ok(text("68656c6c6f")));
    assert_eq!(decode(&text("aGVsbG8="), &text("base64")), Ok(Datum::Bytes(b"hello".to_vec())));
    assert_eq!(decode(&text("68656C6c6f"), &text("HEX")), Ok(Datum::Bytes(b"hello".to_vec())));
    assert_eq!(encode(&hello, &text("rot13")), Err(EvalError::InvalidEncodingName("rot13".to_string())));
    assert_eq!(convert_from(&hello, &text("UTF8")), Ok(text("hello")));
    assert!(matches!(convert_from(&hello, &text("latin1")), Err(EvalError::InvalidEncodingName(_))));
    assert!(matches!(
        convert_from(&Datum::Bytes(vec![0xff, 0xfe]), &text("utf-8")),
        Err(EvalError::InvalidByteSequence { .. })
    ));
    assert_eq!(cast_bytes_to_string(&Datum::Bytes(vec![0, 255])), text("\\x00ff"));
    assert_eq!(cast_string_to_bytes(&text("\\x00ff")), Ok(Datum::Bytes(vec![0, 255])));
}

#[test]
fn uuids() {
    let t = "a0eebc99-9c0b-4ef8-bb6d-6bb9bd380a11";
    let u = Datum::Uuid(0xa0eebc99_9c0b_4ef8_bb6d_6bb9bd380a11);
    assert_eq!(cast_string_to_uuid(&text(t)), Ok(u.clone()));
    assert_eq!(cast_uuid_to_string(&u), text(t));
    assert!(matches!(cast_string_to_uuid(&text("a0ee")), Err(EvalError::InvalidInputSyntax { .. })));
    assert_eq!(cast_uuid_to_string(&Datum::Uuid(0)), text("00000000-0000-0000-0000-000000000000"));
    assert_eq!(cast_uuid_to_string(&Datum::Uuid(0x1f)), text("00000000-0000-0000-0000-00000000001f"));
    assert_eq!(cast_uuid_to_string(&Datum::Uuid(u128::MAX)), text("ffffffff-ffff-ffff-ffff-ffffffffffff"));
    assert_eq!(
        cast_uuid_to_string(&Datum::Uuid(0x0123_4567_89ab_cdef_0123_4567_89ab_cdef)),
        text("01234567-89ab-cdef-0123-456789abcdef")
    );
}

#[test]
fn bytes_that_are_no_text() {
    assert_eq!(
        convert_from(&Datum::Bytes(vec![b'a', 0xff, b'b']), &text("utf8")),
        Err(EvalError::InvalidByteSequence {
            byte_sequence: "invalid utf-8 sequence of 1 bytes from index 1".to_string(),
            encoding_name: "utf8".to_string(),
        })
    );
    assert_eq!(
        convert_from(&Datum::Bytes(vec![b'a', 0xe2, 0x82]), &text("UTF-8")),
        Err(EvalError::InvalidByteSequence {
            byte_sequence: "incomplete utf-8 byte sequence from index 1".to_string(),
            encoding_name: "utf-8".to_string(),
        })
    );
    assert_eq!(convert_from(&Datum::Bytes(vec![0xe2, 0x82, 0xac]), &text("utf8")), Ok(text("\u{20ac}")));
}

#[test]
fn patterns() {
    assert_eq!(is_regexp_match_dynamic(&text("foobar"), &text("o+b"), false), Ok(Datum::True));
    assert_eq!(is_regexp_match_dynamic(&text("foobar"), &text("O+B"), false), Ok(Datum::False));
    assert_eq!(is_regexp_match_dynamic(&text("foobar"), &text("O+B"), true), Ok(Datum::True));
    assert!(matches!(is_regexp_match_dynamic(&text("foobar"), &text("("), false), Err(EvalError::InvalidRegex(_))));
    assert_eq!(
        regexp_match_dynamic(&vec![text("foobar"), text("(o+)(b)")]),
        Ok(Datum::Array {
            dims: vec![ArrayDimension { lower_bound: 1, length: 2 }],
            elements: vec![text("oo"), text("b")],
        })
    );
    assert_eq!(
        regexp_match_dynamic(&vec![text("foobar"), text("o+")]),
        Ok(Datum::Array { dims: vec![ArrayDimension { lower_bound: 1, length: 1 }], elements: vec![text("oo")] })
    );
    assert_eq!(regexp_match_dynamic(&vec![text("foobar"), text("z")]), Ok(Datum::Null));
    assert!(matches!(
        regexp_match_dynamic(&vec![text("foobar"), text("o"), text("x")]),
        Err(EvalError::InvalidRegexFlag('x'))
    ));
    assert_eq!(is_like_pattern_match_dynamic(&text("hello"), &text("h%o"), false), Ok(Datum::True));
    assert_eq!(is_like_pattern_match_dynamic(&text("hello"), &text("h_llo"), false), Ok(Datum::True));
    assert_eq!(is_like_pattern_match_dynamic(&text("hello"), &text("H%"), false), Ok(Datum::False));
    assert_eq!(is_like_pattern_match_dynamic(&text("hello"), &text("H%"), true), Ok(Datum::True));
    assert_eq!(is_like_pattern_match_dynamic(&text("a.c"), &text("a.c"), false), Ok(Datum::True));
    assert_eq!(is_like_pattern_match_dynamic(&text("abc"), &text("a.c"), false), Ok(Datum::False));
    assert_eq!(
        is_like_pattern_match_dynamic(&text("abc"), &text("abc\\"), false),
        Err(EvalError::UnterminatedLikeEscapeSequence)
    );
}

#[test]
fn lists_and_arrays() {
    let l = Datum::List(vec![Datum::Int32(10), Datum::Int32(20), Datum::Int32(30)]);
    assert_eq!(list_index(&l, &Datum::Int64(2)), Datum::Int32(20));
    assert_eq!(list_index(&l, &Datum::Int64(0)), Datum::Null);
    assert_eq!(list_index(&l, &Datum::Int64(4)), Datum::Null);
    assert_eq!(list_length(&l), Datum::Int64(3));
    assert_eq!(
        list_slice(&vec![l.clone(), Datum::Int64(2), Datum::Int64(3)]),
        Datum::List(vec![Datum::Int32(20), Datum::Int32(30)])
    );
    assert_eq!(list_slice(&vec![l.clone(), Datum::Int64(3), Datum::Int64(2)]), Datum::Null);
    let a = array_create_scalar(&vec![Datum::Int32(1), Datum::Int32(2)]).unwrap();
    assert_eq!(
        a,
        Datum::Array {
            dims: vec![ArrayDimension { lower_bound: 1, length: 2 }],
            elements: vec![Datum::Int32(1), Datum::Int32(2)],
        }
    );
    assert_eq!(array_index(&a, &Datum::Int64(2)), Datum::Int32(2));
    assert_eq!(array_index(&a, &Datum::Int64(3)), Datum::Null);
}

#[test]
fn json_values() {
    let obj = Datum::Dict(vec![("a".to_string(), Datum::Int64(1)), ("b".to_string(), Datum::JsonNull)]);
    assert_eq!(map_contains_key(&obj, &text("a")), Datum::True);
    assert_eq!(map_contains_key(&obj, &text("z")), Datum::False);
    assert_eq!(map_get_value(&obj, &text("a")), Datum::Int64(1));
    assert_eq!(map_get_value(&obj, &text("z")), Datum::Null);
    assert_eq!(jsonb_strip_nulls(&obj), Datum::Dict(vec![("a".to_string(), Datum::Int64(1))]));
    assert_eq!(jsonb_delete_string(&obj, &text("a")), Datum::Dict(vec![("b".to_string(), Datum::JsonNull)]));
    assert_eq!(jsonb_typeof(&obj), text("object"));
    assert_eq!(jsonb_typeof(&Datum::JsonNull), text("null"));
    assert_eq!(jsonb_array_length(&Datum::List(vec![Datum::True, Datum::False])), Datum::Int64(2));
    assert_eq!(jsonb_array_length(&obj), Datum::Null);
    assert_eq!(
        jsonb_concat(&obj, &Datum::Dict(vec![("b".to_string(), Datum::True), ("c".to_string(), Datum::False)])),
        Datum::Dict(vec![
            ("a".to_string(), Datum::Int64(1)),
            ("b".to_string(), Datum::True),
            ("c".to_string(), Datum::False),
        ])
    );
    assert_eq!(
        jsonb_build_object(&vec![text("b"), Datum::Int64(1), text("a"), Datum::Int64(2), text("b"), Datum::Int64(3)]),
        Datum::Dict(vec![("a".to_string(), Datum::Int64(2)), ("b".to_string(), Datum::Int64(1))])
    );
}

#[test]
fn doubles_are_ordered_as_numbers_with_nan_last() {
    let values = [
        f64::NEG_INFINITY,
        -1e300,
        -2.5,
        -f64::MIN_POSITIVE,
        -0.0,
        0.0,
        f64::MIN_POSITIVE,
        1.0,
        2.5,
        1e300,
        f64::INFINITY,
        f64::NAN,
    ];
    for a in values {
        for b in values {
            let expected = match OrderedFloat(a).cmp(&OrderedFloat(b)) {
                std::cmp::Ordering::Less => Order::Less,
                std::cmp::Ordering::Equal => Order::Equal,
                std::cmp::Ordering::Greater => Order::Greater,
            };
            assert_eq!(Datum::Float64(a.to_bits()).compare(&Datum::Float64(b.to_bits())), expected, "{} {}", a, b);
            let (x, y) = (a as f32, b as f32);
            let expected32 = match OrderedFloat(x).cmp(&OrderedFloat(y)) {
                std::cmp::Ordering::Less => Order::Less,
                std::cmp::Ordering::Equal => Order::Equal,
                std::cmp::Ordering::Greater => Order::Greater,
            };
            assert_eq!(Datum::Float32(x.to_bits()).compare(&Datum::Float32(y.to_bits())), expected32);
        }
    }
}

#[test]
fn datums_of_different_kinds_are_ordered_by_kind() {
    assert_eq!(Datum::False.compare(&Datum::True), Order::Less);
    assert_eq!(Datum::Int32(5).compare(&Datum::Int32(5)), Order::Equal);
    assert_eq!(Datum::Int32(-5).compare(&Datum::Int32(5)), Order::Less);
    assert_eq!(text("b").compare(&text("ab")), Order::Greater);
    assert_eq!(Datum::Null.compare(&Datum::Int32(5)), Order::Greater);
    assert_eq!(Datum::Int16(9).compare(&Datum::Int32(1)), Order::Less);
    assert_eq!(
        Datum::List(vec![Datum::Int32(1)]).compare(&Datum::List(vec![Datum::Int32(1), Datum::Int32(0)])),
        Order::Less
    );
    assert!(Datum::JsonNull.equals(&Datum::JsonNull));
    assert!(!Datum::JsonNull.equals(&Datum::Null));
}
