//! Vectors, lists and dictionaries.

use rayforce::types::{ATTR_HAS_NULLS, RAY_DATE, RAY_I64, RAY_LIST};
use rayforce::{ErrorCode, Host, Runtime, Value};

#[test]
fn vector_zero_copy_slice() {
    let mut host = Host::new();
    Runtime::scope(&mut host, |_h, _rt| {
        let data = [1i64, 2, 3, 4, 5];
        let v = Value::vec(&data);
        assert_eq!(v.len(), 5);
        assert_eq!(v.as_slice::<i64>().unwrap(), &data);
        assert!(v.as_slice::<i32>().is_err());
        Ok(())
    })
    .unwrap();
}

#[test]
fn vector_all_numeric_types() {
    assert_eq!(
        Value::vec(&[1u8, 2, 3]).as_slice::<u8>().unwrap(),
        &[1, 2, 3]
    );
    assert_eq!(
        Value::vec(&[-1i16, 0, 1]).as_slice::<i16>().unwrap(),
        &[-1, 0, 1]
    );
    assert_eq!(
        Value::vec(&[10i32, 20]).as_slice::<i32>().unwrap(),
        &[10, 20]
    );
    let f32s = Value::f32_bits_vec(&[1.5f32.to_bits(), 2.5f32.to_bits()]);
    let back: Vec<f32> = f32s.f32_bits_slice().unwrap().iter().map(|b| f32::from_bits(*b)).collect();
    assert_eq!(back, vec![1.5, 2.5]);
    let f64s = Value::f64_bits_vec(&[1.0f64.to_bits(), 2.0f64.to_bits()]);
    let back: Vec<f64> = f64s.f64_bits_slice().unwrap().iter().map(|b| f64::from_bits(*b)).collect();
    assert_eq!(back, vec![1.0, 2.0]);
    assert_eq!(Value::bool_vec(&[true, false, true]).len(), 3);
}

#[test]
fn vector_get_and_iter() {
    let v = Value::vec(&[10i64, 20, 30]);
    assert_eq!(v.get(0).unwrap().as_i64().unwrap(), 10);
    assert_eq!(v.get(2).unwrap().as_i64().unwrap(), 30);
    let e = v.get(3).unwrap_err();
    assert_eq!(e.code, ErrorCode::Range);
    let collected: Vec<i64> = v.to_vec().unwrap();
    assert_eq!(collected, vec![10, 20, 30]);
    let mut it = v.iter();
    let mut via_iter: Vec<i64> = Vec::new();
    while let Some(r) = it.next() {
        via_iter.push(r.unwrap().as_i64().unwrap());
    }
    assert_eq!(via_iter, vec![10, 20, 30]);
    assert!(it.next().is_none());
}

#[test]
fn vector_mutation() {
    let mut v = Value::vec(&[1i64, 2, 3]);
    v.set(1, 99i64).unwrap();
    assert_eq!(v.as_slice::<i64>().unwrap(), &[1, 99, 3]);
    v.push(4i64).unwrap();
    assert_eq!(v.as_slice::<i64>().unwrap(), &[1, 99, 3, 4]);
    // An element of another type is rejected and leaves the vector as it was.
    assert_eq!(v.set(0, 1i32).unwrap_err().code, ErrorCode::Type);
    assert!(v.push(1u8).is_err());
    assert_eq!(v.as_slice::<i64>().unwrap(), &[1, 99, 3, 4]);
}

#[test]
fn vector_slice_and_concat() {
    let v = Value::vec(&[1i64, 2, 3, 4, 5]);
    let s = v.slice(1, 3).unwrap();
    assert_eq!(s.as_slice::<i64>().unwrap(), &[2, 3, 4]);
    let a = Value::vec(&[1i64, 2]);
    let b = Value::vec(&[3i64, 4]);
    let c = a.concat(&b).unwrap();
    assert_eq!(c.as_slice::<i64>().unwrap(), &[1, 2, 3, 4]);
}

#[test]
fn slice_bounds_and_concat_kinds() {
    let v = Value::vec(&[1i64, 2, 3]);
    assert!(v.slice(2, 2).is_err());
    assert!(v.slice(-1, 1).is_err());
    assert!(v.slice(0, -1).is_err());
    assert_eq!(v.slice(3, 0).unwrap().len(), 0);
    assert!(v.concat(&Value::vec(&[1i32])).is_err());
    assert!(Value::i64(1).slice(0, 0).is_err());
    let l = Value::list(&[Value::i64(1)]);
    let both = l.concat(&Value::list(&[Value::sym("a")])).unwrap();
    assert!(both.is_list());
    assert_eq!(both.len(), 2);
}

#[test]
fn vector_nulls() {
    let raw = Value::vec(&[1i64, i64::MIN, 3]);
    assert!(!raw.is_null_at(1));
    assert_eq!(raw.attrs() & ATTR_HAS_NULLS, 0);

    let mut v = Value::vec(&[1i64, 2, 3]);
    v.set_null(1, true).unwrap();
    assert!(v.is_null_at(1));
    assert!(v.get(1).unwrap().is_null());
    assert_eq!(v.get(0).unwrap().as_i64().unwrap(), 1);
    assert_ne!(v.attrs() & ATTR_HAS_NULLS, 0);
    v.set_null(1, false).unwrap();
    assert!(!v.is_null_at(1));
    assert_eq!(v.get(1).unwrap().as_i64().unwrap(), 2);
    assert!(v.set_null(3, true).is_err());
}

#[test]
fn symbol_and_string_vectors() {
    let syms = Value::sym_vec(&["aaa", "bbb", "ccc"]);
    assert_eq!(syms.len(), 3);
    assert_eq!(syms.get(1).unwrap().as_sym().unwrap(), "bbb");

    let strs = Value::str_vec(&["hello", "a longer value here", ""]);
    assert_eq!(strs.len(), 3);
    assert_eq!(strs.get(0).unwrap().as_string().unwrap(), "hello");
    assert_eq!(
        strs.get(1).unwrap().as_string().unwrap(),
        "a longer value here"
    );
}

#[test]
fn list_heterogeneous() {
    let items = [Value::i64(42), Value::sym("x"), Value::f64_from_bits(3.5f64.to_bits())];
    let l = Value::list(&items);
    assert!(l.is_list());
    assert_eq!(l.len(), 3);
    assert_eq!(l.type_code(), RAY_LIST);
    assert_eq!(l.get(0).unwrap().as_i64().unwrap(), 42);
    assert_eq!(l.get(1).unwrap().as_sym().unwrap(), "x");
    assert_eq!(f64::from_bits(l.get(2).unwrap().as_f64_bits().unwrap()), 3.5);
    assert_eq!(items[0].as_i64().unwrap(), 42);
}

#[test]
fn list_push() {
    let mut l = Value::empty_list(2);
    l.list_push(&Value::i64(1)).unwrap();
    l.list_push(&Value::sym("two")).unwrap();
    assert_eq!(l.len(), 2);
    assert_eq!(l.get(1).unwrap().as_sym().unwrap(), "two");
    let mut not_a_list = Value::vec(&[1i64]);
    assert_eq!(not_a_list.list_push(&Value::i64(2)).unwrap_err().code, ErrorCode::Type);
}

#[test]
fn dict_construction_and_lookup() {
    let keys = Value::sym_vec(&["a", "b", "c"]);
    let vals = Value::vec(&[1i64, 2, 3]);
    let d = Value::dict(keys, vals);
    assert!(d.is_dict());
    assert_eq!(d.dict_len().unwrap(), 3);
    assert_eq!(
        d.dict_keys().unwrap().get(0).unwrap().as_sym().unwrap(),
        "a"
    );
    assert_eq!(
        d.dict_values().unwrap().as_slice::<i64>().unwrap(),
        &[1, 2, 3]
    );

    let got = d.dict_get(&Value::sym("b")).unwrap();
    assert_eq!(got.unwrap().as_i64().unwrap(), 2);
    assert!(d.dict_get(&Value::sym("missing")).unwrap().is_none());
}

#[test]
fn dict_errors_on_non_dicts() {
    let v = Value::i64(1);
    assert!(!v.is_dict());
    assert_eq!(v.dict_keys().unwrap_err().code, ErrorCode::Type);
    assert!(v.dict_values().is_err());
    assert!(v.dict_len().is_err());
    assert!(v.dict_get(&Value::sym("a")).is_err());
}

#[test]
fn dict_lookup_finds_the_first_matching_key() {
    let d = Value::dict(Value::vec(&[5i64, 5, 7]), Value::sym_vec(&["first", "second", "third"]));
    assert_eq!(d.dict_get(&Value::i64(5)).unwrap().unwrap().as_sym().unwrap(), "first");
    assert_eq!(d.dict_get(&Value::i64(7)).unwrap().unwrap().as_sym().unwrap(), "third");
    assert!(d.dict_get(&Value::i32(5)).unwrap().is_none());
}

#[test]
fn bool_and_temporal_slices() {
    let b = Value::bool_vec(&[true, false, true]);
    assert_eq!(b.bool_slice().unwrap(), &[1u8, 0, 1]);

    let dates = Value::empty_vec(RAY_DATE, 0);
    assert_eq!(dates.date_days_slice().unwrap(), &[] as &[i32]);
    assert_eq!(dates.type_code(), RAY_DATE);
    let v = Value::vec(&[1i64, 2, 3]);
    assert!(v.date_days_slice().is_err());
    assert!(v.timestamp_nanos_slice().is_err());
    assert!(v.time_millis_slice().is_err());
    assert!(v.bool_slice().is_err());
}

#[test]
fn sym_get_is_lossless() {
    let syms = Value::sym_vec(&["alpha", "beta"]);
    assert_eq!(syms.get(0).unwrap().as_sym().unwrap(), "alpha");
    assert_eq!(syms.get(1).unwrap().as_sym().unwrap(), "beta");
}

#[test]
fn set_out_of_range_errors_no_leak() {
    let mut v = Value::vec(&[1i64, 2, 3]);
    assert_eq!(v.set(5, 9i64).unwrap_err().code, ErrorCode::Range);
    assert_eq!(v.as_slice::<i64>().unwrap(), &[1, 2, 3]);
}

#[test]
fn vector_type_codes() {
    let v = Value::vec(&[1i64]);
    assert_eq!(v.type_code(), RAY_I64);
    assert!(v.is_vec());
    assert!(!v.is_atom());
    assert!(!v.is_empty());
    assert!(Value::vec::<i64>(&[]).is_empty());
    assert_eq!(v.len_raw(), 1);
}

#[test]
fn deep_equality() {
    let a = Value::list(&[Value::vec(&[1i64, 2]), Value::sym("x")]);
    let b = Value::list(&[Value::vec(&[1i64, 2]), Value::sym("x")]);
    let c = Value::list(&[Value::vec(&[1i64, 3]), Value::sym("x")]);
    assert!(a.equals(&b));
    assert!(!a.equals(&c));
    assert!(a.clone().equals(&a));
}

#[test]
fn a_write_is_read_back() {
    let mut v = Value::vec(&[5i16, 6, 7]);
    v.set_null(2, true).unwrap();
    v.set(2, 70i16).unwrap();
    assert!(!v.is_null_at(2));
    assert_eq!(v.get(2).unwrap().as_i16().unwrap(), 70);
    assert_eq!(v.get(0).unwrap().as_i16().unwrap(), 5);
    assert_eq!(v.get(1).unwrap().as_i16().unwrap(), 6);
}

#[test]
fn split_then_concat_gives_the_vector_back() {
    let v = Value::vec(&[1i32, 2, 3, 4]);
    for k in 0..=4i64 {
        let a = v.slice(0, k).unwrap();
        let b = v.slice(k, 4 - k).unwrap();
        assert!(a.concat(&b).unwrap().equals(&v));
    }
    let l = Value::list(&[Value::i64(1), Value::sym("a"), Value::null()]);
    let joined = l.slice(0, 1).unwrap().concat(&l.slice(1, 2).unwrap()).unwrap();
    assert!(joined.equals(&l));
}
