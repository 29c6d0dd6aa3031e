//! Table construction and accessors, and the CSV schema rules.

use rayforce::types::RAY_TABLE;
use rayforce::{canonical_type, csv_schema, normalize_type_token, ErrorCode, Host, Runtime, Table, Value};

fn f64s(xs: &[f64]) -> Value {
    let bits: Vec<u64> = xs.iter().map(|x| x.to_bits()).collect();
    Value::f64_bits_vec(&bits)
}

fn as_f64s(v: &Value) -> Vec<f64> {
    v.f64_bits_slice().unwrap().iter().map(|b| f64::from_bits(*b)).collect()
}

fn sample_table() -> Table {
    let sym = Value::sym_vec(&["AAPL", "MSFT", "GOOG"]);
    let price = f64s(&[101.5, 202.0, 303.25]);
    let size = Value::vec(&[10i64, 20, 30]);
    Table::new(&["sym", "price", "size"], &[sym, price, size]).unwrap()
}

#[test]
fn construct_and_shape() {
    let mut host = Host::new();
    Runtime::scope(&mut host, |_h, _rt| {
        let t = sample_table();
        assert_eq!(t.ncols(), 3);
        assert_eq!(t.nrows(), 3);
        assert_eq!(t.shape(), (3, 3));
        assert_eq!(t.column_names(), vec!["sym", "price", "size"]);
        Ok(())
    })
    .unwrap();
}

#[test]
fn column_access() {
    let t = sample_table();

    let price = t.column("price").unwrap();
    assert_eq!(as_f64s(&price), vec![101.5, 202.0, 303.25]);

    let size = t.column_at(2).unwrap();
    assert_eq!(size.as_slice::<i64>().unwrap(), &[10, 20, 30]);

    let sym0 = t.column("sym").unwrap().get(0).unwrap().as_sym().unwrap();
    assert_eq!(sym0, "AAPL");

    assert_eq!(t.column("nonexistent").unwrap_err().code, ErrorCode::NotFound);
    assert_eq!(t.column_at(9).unwrap_err().code, ErrorCode::Range);
}

#[test]
fn all_columns() {
    let t = sample_table();
    let cols = t.columns().unwrap();
    assert_eq!(cols.len(), 3);
    assert_eq!(as_f64s(&cols[1]), vec![101.5, 202.0, 303.25]);
}

#[test]
fn value_table_interop() {
    let t = sample_table();
    let v = t.clone().into_value();
    assert!(v.is_table());
    assert_eq!(v.type_code(), RAY_TABLE);
    let back = v.as_table().unwrap();
    assert_eq!(back.shape(), (3, 3));
    assert!(back.as_value().equals(t.as_value()));

    assert!(Value::i64(5).as_table().is_err());
    assert!(Table::from_value(Value::i64(5)).is_err());
    assert!(Table::from_value(v).is_ok());
}

#[test]
fn table_new_rejects_bad_shapes() {
    let e = Table::new(&["a", "b"], &[Value::vec(&[1i64])]).unwrap_err();
    assert_eq!(e.code, ErrorCode::Length);
    let e = Table::new(&["a", "b"], &[Value::vec(&[1i64]), Value::vec(&[1i64, 2])]).unwrap_err();
    assert_eq!(e.code, ErrorCode::Length);
    let e = Table::new(&["a"], &[Value::i64(1)]).unwrap_err();
    assert_eq!(e.code, ErrorCode::Type);
    let t = Table::new(&[], &[]).unwrap();
    assert_eq!(t.shape(), (0, 0));
    let mixed = Table::new(&["l"], &[Value::list(&[Value::i64(1), Value::sym("x")])]).unwrap();
    assert_eq!(mixed.shape(), (2, 1));
}

#[test]
fn duplicate_names_resolve_to_the_first_column() {
    let t = Table::new(&["a", "a"], &[Value::vec(&[1i64]), Value::vec(&[2i64])]).unwrap();
    assert_eq!(t.column("a").unwrap().as_slice::<i64>().unwrap(), &[1]);
    assert_eq!(t.column_at(1).unwrap().as_slice::<i64>().unwrap(), &[2]);
}

#[test]
fn csv_type_tokens_are_normalized() {
    assert_eq!(normalize_type_token("sym"), "SYMBOL");
    assert_eq!(normalize_type_token("String"), "STR");
    assert_eq!(normalize_type_token("bool"), "B8");
    assert_eq!(normalize_type_token("boolean"), "B8");
    assert_eq!(normalize_type_token("f64"), "F64");
    assert_eq!(normalize_type_token("I64"), "I64");
    assert_eq!(canonical_type(String::from("SYM")), "SYMBOL");
    assert_eq!(canonical_type(String::from("sym")), "sym");
    let schema = csv_schema(&["symbol", "f64", "bool"]);
    assert_eq!(schema.len(), 3);
    assert_eq!(schema.get(0).unwrap().as_sym().unwrap(), "SYMBOL");
    assert_eq!(schema.get(1).unwrap().as_sym().unwrap(), "F64");
    assert_eq!(schema.get(2).unwrap().as_sym().unwrap(), "B8");
}
