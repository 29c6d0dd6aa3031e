//! Scalar constructors, readers, conversions and null handling.

use rayforce::types::{RAY_DATE, RAY_F64, RAY_I32, RAY_I64, RAY_SYM};
use rayforce::{ErrorCode, FromValue, Guid, Host, Runtime, Str, ToValue, Value};

#[test]
fn integer_roundtrips() {
    let mut host = Host::new();
    Runtime::scope(&mut host, |_h, _rt| {
        assert_eq!(Value::i16(-12345).as_i16().unwrap(), -12345);
        assert_eq!(Value::i32(2_000_000_000).as_i32().unwrap(), 2_000_000_000);
        assert_eq!(Value::i64(i64::MAX).as_i64().unwrap(), i64::MAX);
        assert_eq!(Value::u8(255).as_u8().unwrap(), 255);
        assert!(Value::bool(true).as_bool().unwrap());
        assert!(!Value::bool(false).as_bool().unwrap());
        Ok(())
    })
    .unwrap();
}

#[test]
fn float_roundtrips() {
    let f = Value::f64_from_bits(3.5f64.to_bits());
    assert_eq!(f64::from_bits(f.as_f64_bits().unwrap()), 3.5);
    let g = Value::f32_from_bits(1.25f32.to_bits());
    assert_eq!(f32::from_bits(g.as_f32_bits().unwrap()), 1.25);
    assert!(Value::f64_from_bits(f64::NAN.to_bits()).is_atom_null());
    assert!(Value::f32_from_bits(f32::NAN.to_bits()).is_atom_null());
    assert!(!Value::f64_from_bits(0.0f64.to_bits()).is_atom_null());
}

#[test]
fn symbol_and_string() {
    assert_eq!(Value::sym("hello").as_sym().unwrap(), "hello");
    assert_eq!(
        Value::string("a longer string value").as_string().unwrap(),
        "a longer string value"
    );
    assert_eq!(Value::string("hi").as_string().unwrap(), "hi");
    assert_eq!(Value::string("").as_string().unwrap(), "");
    assert!(Value::string("").is_atom_null());
    assert!(Value::sym("").is_atom_null());
    assert!(!Value::sym("x").is_atom_null());
}

#[test]
fn guid_roundtrip() {
    let bytes = [
        0x01, 0x23, 0x45, 0x67, 0x89, 0xab, 0xcd, 0xef, 0xfe, 0xdc, 0xba, 0x98, 0x76, 0x54, 0x32,
        0x10,
    ];
    assert_eq!(Value::guid(&bytes).as_guid().unwrap(), bytes);
    assert!(Value::guid(&[0u8; 16]).is_atom_null());
    assert!(!Value::guid(&bytes).is_atom_null());
}

#[test]
fn typed_nulls() {
    assert!(Value::i64(i64::MIN).is_atom_null());
    assert!(Value::i32(i32::MIN).is_atom_null());
    assert!(Value::i16(i16::MIN).is_atom_null());
    assert!(!Value::i64(0).is_atom_null());
    assert!(!Value::u8(0).is_atom_null());
    assert!(!Value::bool(false).is_atom_null());
}

#[test]
fn typed_null_constructor() {
    let n = Value::typed_null(RAY_I64);
    assert!(n.is_atom_null());
    assert_eq!(n.as_i64().unwrap(), i64::MIN);
    assert_eq!(n.type_code(), -RAY_I64);
    let s = Value::typed_null(RAY_SYM);
    assert!(s.is_atom_null());
    assert_eq!(s.as_sym().unwrap(), "");
    let d = Value::typed_null(RAY_DATE);
    assert_eq!(d.as_date_days().unwrap(), i32::MIN);
    let f = Value::typed_null(RAY_F64);
    assert!(f.is_atom_null());
}

#[test]
fn temporal_raw_roundtrips() {
    assert_eq!(Value::date_days(9000).as_date_days().unwrap(), 9000);
    assert_eq!(
        Value::time_millis(3_600_000).as_time_millis().unwrap(),
        3_600_000
    );
    assert_eq!(
        Value::timestamp_nanos(1_000_000_000)
            .as_timestamp_nanos()
            .unwrap(),
        1_000_000_000
    );
    // A date is not an i32 atom, nor the other way round.
    assert!(Value::date_days(1).as_i32().is_err());
    assert!(Value::i32(1).as_date_days().is_err());
}

#[test]
fn type_mismatch_errors() {
    let e = Value::i64(5).as_f64_bits().unwrap_err();
    assert_eq!(e.code, ErrorCode::Type);
    assert_eq!(e.code_str, "type");
    assert!(Value::sym("x").as_i64().is_err());
    assert!(Value::string("x").as_sym().is_err());
    assert!(Value::vec(&[1i64]).as_i64().is_err());
    assert!(Value::null().as_bool().is_err());
}

#[test]
fn type_codes_of_atoms() {
    assert_eq!(Value::i64(1).type_code(), -RAY_I64);
    assert_eq!(Value::i32(1).abs_type(), RAY_I32);
    assert!(Value::i64(1).is_atom());
    assert!(!Value::i64(1).is_vec());
    assert!(Value::null().is_null());
    assert!(!Value::i64(1).is_null());
    assert_eq!(Value::null().type_code(), rayforce::types::RAY_NULL);
}

#[test]
fn name_ref_is_an_unquoted_symbol() {
    let r = Value::name_ref("price");
    assert_eq!(r.as_sym().unwrap(), "price");
    assert_eq!(r.attrs() & rayforce::types::ATTR_QUOTED, 0);
    let s = Value::sym("price");
    assert_ne!(s.attrs() & rayforce::types::ATTR_QUOTED, 0);
    assert!(!r.equals(&s));
}

#[test]
fn to_from_value_traits() {
    assert_eq!(42i64.to_value().extract::<i64>().unwrap(), 42);
    assert!(true.to_value().extract::<bool>().unwrap());
    assert_eq!("sym".to_value().as_sym().unwrap(), "sym");
    assert_eq!(Str("str").to_value().as_string().unwrap(), "str");
    let none: Option<i64> = None;
    assert!(none.to_value().is_null());
    assert_eq!(Value::i64(7).extract::<Option<i64>>().unwrap(), Some(7));
    assert_eq!(Value::i64(i64::MIN).extract::<Option<i64>>().unwrap(), None);
    let g = Guid([7u8; 16]);
    assert_eq!(g.to_value().extract::<Guid>().unwrap(), g);
}

#[test]
fn round_trip_law_on_values() {
    for x in [0i64, -1, 1, i64::MAX, i64::MIN + 1] {
        assert_eq!(Value::new(x).extract::<i64>().unwrap(), x);
    }
    for x in [0i32, i32::MAX, -7] {
        assert_eq!(Value::new(x).extract::<i32>().unwrap(), x);
    }
    for x in [0i16, i16::MAX, -7] {
        assert_eq!(Value::new(x).extract::<i16>().unwrap(), x);
    }
    for x in [0u8, 255] {
        assert_eq!(Value::new(x).extract::<u8>().unwrap(), x);
    }
    let s = String::from("text");
    assert_eq!(Value::new(s.clone()).extract::<String>().unwrap(), s);
    assert_eq!(Value::new(Str(s.clone())).extract::<String>().unwrap(), s);
    // The null sentinel of i64 comes back as None.
    assert_eq!(Value::new(Some(i64::MIN)).extract::<Option<i64>>().unwrap(), None);
    assert_eq!(Value::new(Some(3i64)).extract::<Option<i64>>().unwrap(), Some(3));
    assert_eq!(Value::new(None::<i64>).extract::<Option<i64>>().unwrap(), None);
}

#[test]
fn extract_rejects_other_kinds() {
    assert!(Value::i32(1).extract::<i64>().is_err());
    assert!(Value::i64(1).extract::<Guid>().is_err());
    assert!(Value::bool(true).extract::<String>().is_err());
    assert!(<u8 as FromValue>::from_value(&Value::i16(1)).is_err());
    // Value extracts as itself.
    let v = Value::sym("a").extract::<Value>().unwrap();
    assert!(v.equals(&Value::sym("a")));
}

#[test]
fn expect_atom_checks_the_kind() {
    assert!(Value::i64(1).expect_atom(RAY_I64).is_ok());
    assert_eq!(Value::i64(1).expect_atom(RAY_I32).unwrap_err().code, ErrorCode::Type);
    assert!(Value::vec(&[1i64]).expect_atom(RAY_I64).is_err());
}
