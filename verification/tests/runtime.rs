//! The runtime lifecycle and the global environment.

use rayforce::{get_global, is_live, set_global, ErrorCode, Host, Runtime, Value};

#[test]
fn recreate_runtime_after_scope() {
    let mut host = Host::new();
    assert!(!is_live(&host));
    Runtime::scope(&mut host, |h, _rt| {
        assert!(is_live(h));
        Ok(())
    })
    .unwrap();
    assert!(!is_live(&host));
    Runtime::scope(&mut host, |h, _rt| {
        assert!(is_live(h));
        Ok(())
    })
    .unwrap();
    assert!(!is_live(&host));
}

#[test]
fn only_one_live_runtime() {
    let mut host = Host::new();
    let err = Runtime::scope(&mut host, |h, _rt| match Runtime::scope(h, |_h, _inner| Ok(())) {
        Ok(()) => panic!("a nested scope must not start a second runtime"),
        Err(e) => Ok(e),
    })
    .unwrap();
    assert!(
        err.message.contains("cannot be nested"),
        "expected a nesting error, got: {}",
        err.message
    );
}

#[test]
fn the_error_path_still_tears_down() {
    let mut host = Host::new();
    let r: rayforce::Result<()> = Runtime::scope(&mut host, |_h, rt| {
        Err(get_global(rt, "undefined_name_xyz").unwrap_err())
    });
    assert_eq!(r.unwrap_err().code, ErrorCode::NotFound);
    assert!(!is_live(&host));
    let two = Runtime::scope(&mut host, |_h, rt| {
        set_global(rt, "two", &Value::i64(2))?;
        get_global(rt, "two")?.as_i64()
    })
    .unwrap();
    assert_eq!(two, 2);
}

#[test]
fn a_second_runtime_is_refused_while_one_is_live() {
    let mut host = Host::new();
    let rt = Runtime::new(&mut host).unwrap();
    let e = Runtime::new(&mut host).unwrap_err();
    assert_eq!(e.code, ErrorCode::Runtime);
    assert!(rt.end(&mut host));
    assert!(!is_live(&host));
    let again = Runtime::new(&mut host).unwrap();
    assert!(again.end(&mut host));
}

#[test]
fn handles_defer_the_teardown() {
    let mut host = Host::new();
    let rt = Runtime::new(&mut host).unwrap();
    host.acquire_handle();
    host.acquire_handle();
    assert_eq!(host.handles(), 2);
    // The guard goes first: the heap stays mapped for the handles.
    assert!(!rt.end(&mut host));
    assert!(!is_live(&host));
    let e = Runtime::new(&mut host).unwrap_err();
    assert!(e.message.contains("still mapped"));
    assert!(!host.release_handle());
    // The last handle out unmaps.
    assert!(host.release_handle());
    assert_eq!(host.handles(), 0);
    let rt = Runtime::new(&mut host).unwrap();
    assert!(is_live(&host));
    assert!(rt.end(&mut host));
}

#[test]
fn get_after_set() {
    let mut host = Host::new();
    let mut rt = Runtime::new(&mut host).unwrap();
    assert_eq!(rt.get_global("x").unwrap_err().code, ErrorCode::NotFound);
    rt.set_global("x", &Value::i64(1)).unwrap();
    rt.set_global("y", &Value::sym("why")).unwrap();
    assert_eq!(rt.get_global("x").unwrap().as_i64().unwrap(), 1);
    rt.set_global("x", &Value::i64(2)).unwrap();
    assert_eq!(rt.get_global("x").unwrap().as_i64().unwrap(), 2);
    assert_eq!(get_global(&rt, "y").unwrap().as_sym().unwrap(), "why");
    rt.end(&mut host);
}

#[test]
fn globals_are_copies() {
    let mut host = Host::new();
    let mut rt = Runtime::new(&mut host).unwrap();
    let mut v = Value::vec(&[1i64, 2]);
    rt.set_global("v", &v).unwrap();
    v.push(3i64).unwrap();
    assert_eq!(rt.get_global("v").unwrap().as_slice::<i64>().unwrap(), &[1, 2]);
    rt.end(&mut host);
}

#[test]
fn a_held_value_keeps_the_heap_mapped() {
    let mut host = Host::new();
    let rt = Runtime::new(&mut host).unwrap();
    let v = host.hold(Value::i64(1));
    assert_eq!(host.handles(), 1);
    // Dropping the guard leaves the heap mapped: the value is still readable.
    assert!(!rt.end(&mut host));
    assert!(!is_live(&host));
    assert_eq!(v.value().as_i64().unwrap(), 1);
    let e = Runtime::new(&mut host).unwrap_err();
    assert_eq!(e.message, "the previous runtime's heap is still mapped: handles outlive it");
    // The last handle out unmaps.
    let (back, teardown) = host.release(v);
    assert!(teardown);
    assert_eq!(back.as_i64().unwrap(), 1);
    let rt = Runtime::new(&mut host).unwrap();
    assert!(rt.end(&mut host));
}

#[test]
fn a_live_runtime_refuses_another() {
    let mut host = Host::new();
    let rt = Runtime::new(&mut host).unwrap();
    let e = Runtime::new(&mut host).unwrap_err();
    assert_eq!(e.message, "a rayforce runtime is already live in this process");
    let held = host.hold(Value::sym("x"));
    let (_, teardown) = host.release(held);
    assert!(!teardown);
    assert!(rt.end(&mut host));
}
