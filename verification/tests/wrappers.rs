use expr::datum::{ArrayDimension, Date, Datum, Time, Timestamp};
use expr::error::EvalError;
use expr::func_datetime::date_trunc_inner;
use expr::func_digest::{digest_bytes, digest_string, encoded_bytes_char_length, hmac_bytes, hmac_string};
use expr::func_numeric::{
    abs_numeric, cast_numeric_to_int64, cast_string_to_numeric, ceil_numeric, exp_numeric, floor_numeric,
    ln_numeric, log10_numeric, log_base_numeric, mod_numeric, neg_numeric, power_numeric, rescale_numeric,
    round_numeric_binary, round_numeric_unary,
};
use expr::func_int::cast_int32_to_int16;
use expr::func_jsonb::cast_jsonb_to_bool;
use expr::func_list::{list_length_max, try_array};
use expr::order::Order;
use expr::units::DateTimeUnits;

fn text(s: &str) -> Datum {
    Datum::String(s.to_string())
}

fn numeric(s: &str) -> Datum {
    cast_string_to_numeric(&text(s), None).unwrap()
}

fn same(a: &Datum, expected: &str) -> bool {
    a.compare(&numeric(expected)) == Order::Equal
}

fn hex(s: &str) -> Vec<u8> {
    (0..s.len() / 2).map(|i| u8::from_str_radix(&s[2 * i..2 * i + 2], 16).unwrap()).collect()
}

const FOX: &str = "The quick brown fox jumps over the lazy dog";

#[test]
fn every_digest() {
    let cases = [
        ("md5", "900150983cd24fb0d6963f7d28e17f72"),
        ("sha1", "a9993e364706816aba3e25717850c26c9cd0d89d"),
        ("sha224", "23097d223405d8228642a477bda255b32aadbce4bda0b3f7e36c9da7"),
        ("sha256", "ba7816bf8f01cfea414140de5dae2223b00361a396177a9cb410ff61f20015ad"),
        ("sha384", "cb00753f45a35e8bb5a03d699ac65007272c32ab0eded1631a8b605a43ff5bed8086072ba1e7cc2358baeca134c825a7"),
        (
            "sha512",
            "ddaf35a193617abacc417349ae20413112e6fa4e89a97ea20a9eeee64b55d39a2192992a274fc1a836ba3c23a3feebbd454d4423643ce80e2a9ac94fa54ca49f",
        ),
    ];
    for (name, digest) in cases {
        assert_eq!(digest.len() / 2, [16, 20, 28, 32, 48, 64][cases.iter().position(|c| c.0 == name).unwrap()]);
        assert_eq!(digest_string(&text("abc"), &text(name)), Ok(Datum::Bytes(hex(digest))), "{}", name);
        assert_eq!(digest_bytes(&Datum::Bytes(b"abc".to_vec()), &text(name)), Ok(Datum::Bytes(hex(digest))));
    }
}

#[test]
fn every_keyed_digest() {
    let cases = [
        ("md5", "80070713463e7749b90c2dc24911e275"),
        ("sha1", "de7c9b85b8b78aa6bc8a7a36f70a90701c9db4d9"),
        ("sha224", "88ff8b54675d39b8f72322e65ff945c52d96379988ada25639747e69"),
        ("sha256", "f7bc83f430538424b13298e6aa6fb143ef4d59a14946175997479dbc2d1a3cd8"),
        ("sha384", "d7f4727e2c0b39ae0f1e40cc96f60242d5b7801841cea6fc592c5d3e1ae50700582a96cf35e1e554995fe4e03381c237"),
        (
            "sha512",
            "b42af09057bac1e2d41708e48a902e09b5ff7f12ab428a4fe86653c73dd248fb82f948a549f7b791a5b41915ee4d1ec3935357e4e2317250d0372afa2ebeeb3a",
        ),
    ];
    for (name, digest) in cases {
        assert_eq!(
            hmac_string(&vec![text(FOX), text("key"), text(name)]),
            Ok(Datum::Bytes(hex(digest))),
            "{}",
            name
        );
        assert_eq!(
            hmac_bytes(&vec![Datum::Bytes(FOX.as_bytes().to_vec()), Datum::Bytes(b"key".to_vec()), text(name)]),
            Ok(Datum::Bytes(hex(digest)))
        );
    }
}

#[test]
fn lengths_in_an_encoding() {
    assert_eq!(encoded_bytes_char_length(&Datum::Bytes("héllo".as_bytes().to_vec()), &text("utf8")), Ok(Datum::Int32(5)));
    assert!(matches!(
        encoded_bytes_char_length(&Datum::Bytes(vec![0xff]), &text("utf8")),
        Err(EvalError::InvalidByteSequence { .. })
    ));
    assert!(matches!(
        encoded_bytes_char_length(&Datum::Bytes(vec![0x41]), &text("no-such-encoding")),
        Err(EvalError::InvalidEncodingName(_))
    ));
}

#[test]
fn decimal_functions() {
    assert!(same(&mod_numeric(&numeric("7"), &numeric("3")).unwrap(), "1"));
    assert!(same(&mod_numeric(&numeric("-7"), &numeric("3")).unwrap(), "-1"));
    assert_eq!(mod_numeric(&numeric("7"), &numeric("0")), Err(EvalError::DivisionByZero));
    assert!(same(&power_numeric(&numeric("2"), &numeric("10")).unwrap(), "1024"));
    assert!(same(&power_numeric(&numeric("0"), &numeric("0")).unwrap(), "1"));
    assert_eq!(
        power_numeric(&numeric("0"), &numeric("-1")),
        Err(EvalError::Undefined("zero raised to a negative power".to_string()))
    );
    assert_eq!(
        power_numeric(&numeric("-8"), &numeric("0.5")),
        Err(EvalError::ComplexOutOfRange("pow".to_string()))
    );
    assert!(same(&neg_numeric(&numeric("1.5")).unwrap(), "-1.5"));
    assert!(same(&abs_numeric(&numeric("-1.5")), "1.5"));
    assert!(same(&ln_numeric(&numeric("1")).unwrap(), "0"));
    assert!(same(&log10_numeric(&numeric("1000")).unwrap(), "3"));
    assert_eq!(cast_numeric_to_int64(&log_base_numeric(&numeric("2"), &numeric("8")).unwrap()), Ok(Datum::Int64(3)));
    assert!(same(&exp_numeric(&numeric("0")).unwrap(), "1"));
    assert!(same(&round_numeric_binary(&numeric("1.2345"), &Datum::Int32(2)).unwrap(), "1.23"));
    assert!(same(&round_numeric_binary(&numeric("1250"), &Datum::Int32(-2)).unwrap(), "1300"));
    assert!(same(&round_numeric_unary(&numeric("2.5")), "3"));
    assert!(same(&round_numeric_unary(&numeric("-2.5")), "-3"));
    assert!(same(&ceil_numeric(&numeric("1.2")).unwrap(), "2"));
    assert!(same(&floor_numeric(&numeric("-1.2")).unwrap(), "-2"));
    assert!(same(&rescale_numeric(&numeric("1.006"), 2).unwrap(), "1.01"));
    assert_eq!(cast_numeric_to_int64(&numeric("-7.4")), Ok(Datum::Int64(-7)));
    assert_eq!(cast_numeric_to_int64(&numeric("1e30")), Err(EvalError::Int64OutOfRange));
}

#[test]
fn errors_of_every_kind() {
    assert_eq!(cast_int32_to_int16(&Datum::Int32(40_000)), Err(EvalError::Int16OutOfRange));
    assert_eq!(cast_int32_to_int16(&Datum::Int32(-40)), Ok(Datum::Int16(-40)));
    let lists = Datum::List(vec![Datum::List(vec![Datum::Int32(1), Datum::Int32(2)]), Datum::List(vec![])]);
    assert_eq!(list_length_max(&lists, &Datum::Int64(1), 2), Ok(Datum::Int64(2)));
    assert_eq!(list_length_max(&lists, &Datum::Int64(2), 2), Ok(Datum::Int64(2)));
    assert_eq!(
        list_length_max(&lists, &Datum::Int64(3), 2),
        Err(EvalError::InvalidDimension { max_dim: 2, val: 3 })
    );
    assert_eq!(
        list_length_max(&lists, &Datum::Int64(0), 2),
        Err(EvalError::InvalidDimension { max_dim: 2, val: 0 })
    );
    assert_eq!(
        cast_jsonb_to_bool(&text("x")),
        Err(EvalError::InvalidJsonbCast { from: "string".to_string(), to: "boolean".to_string() })
    );
    assert_eq!(cast_jsonb_to_bool(&Datum::True), Ok(Datum::True));
    let dim = ArrayDimension { lower_bound: 1, length: 1 };
    assert_eq!(try_array(vec![dim; 7], vec![Datum::Int32(1)]), Err(EvalError::TooManyArrayDimensions(7)));
    assert_eq!(
        try_array(vec![ArrayDimension { lower_bound: 1, length: 2 }], vec![Datum::Int32(1); 3]),
        Err(EvalError::WrongArrayCardinality { actual: 3, expected: 2 })
    );
    assert!(try_array(vec![ArrayDimension { lower_bound: 1, length: 2 }], vec![Datum::Int32(1); 2]).is_ok());
    let t = Timestamp { date: Date::from_ymd(2021, 1, 4).unwrap(), time: Time { secs: 0, nanos: 0 } };
    assert_eq!(
        date_trunc_inner(DateTimeUnits::Timezone, t),
        Err(EvalError::UnsupportedDateTimeUnits(DateTimeUnits::Timezone))
    );
    assert_eq!(
        cast_string_to_numeric(&text("1e100"), None),
        Err(EvalError::ValueOutOfRange { target: "numeric".to_string(), input: "1e100".to_string() })
    );
    assert_eq!(exp_numeric(&numeric("-1000")), Err(EvalError::FloatUnderflow));
    assert_eq!(exp_numeric(&numeric("1000")), Err(EvalError::FloatOverflow));
}
