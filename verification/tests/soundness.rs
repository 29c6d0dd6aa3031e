//! Values are single handles, and a scope tears down on every way out.

use rayforce::{is_live, Host, Runtime, Value};

#[test]
fn values_built_in_a_scope_are_dropped_with_it() {
    let mut host = Host::new();
    Runtime::scope(&mut host, |_h, _rt| {
        let vals: Vec<Value> = (0..64).map(Value::i64).collect();
        let list = Value::list(&vals);
        let vec = Value::vec(&[1i64, 2, 3]);
        let cloned = vec.clone();
        assert_eq!(list.len(), 64);
        assert_eq!(cloned.as_slice::<i64>().unwrap(), &[1, 2, 3]);
        Ok(())
    })
    .unwrap();
    assert!(!is_live(&host));
}

#[test]
fn value_is_one_pointer_wide() {
    assert_eq!(
        std::mem::size_of::<Value>(),
        std::mem::size_of::<usize>(),
        "Value grew a field — did a liveness tag creep back?"
    );
}
