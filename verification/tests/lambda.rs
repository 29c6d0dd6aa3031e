//! Lambdas and native-function bindings.

use rayforce::env::{bind_unary, bind_vary, check_bind_name, Args, UnaryFn, VaryFn};
use rayforce::types::RAY_LAMBDA;
use rayforce::{bind_name_for, is_fn_expression, ErrorCode, Fn, Host, Runtime, Value};

struct OnUpd;
impl VaryFn for OnUpd {
    fn call(args: Args<'_>) -> Value {
        Value::i64(args.len() as i64)
    }
}

struct OnEod;
impl UnaryFn for OnEod {
    fn call(arg: Value) -> Value {
        arg
    }
}

#[test]
fn rejects_non_fn_source() {
    let mut host = Host::new();
    Runtime::scope(&mut host, |_h, _rt| {
        assert!(Fn::new("(+ 1 2)").is_err());
        Ok(())
    })
    .unwrap();
}

#[test]
fn accepts_fn_source_after_leading_whitespace() {
    let f = Fn::new("  \n(fn [x] (* x x))").unwrap();
    assert_eq!(f.source(), Some("  \n(fn [x] (* x x))"));
    assert_eq!(f.as_value().type_code(), RAY_LAMBDA);
    let e = Fn::new("").unwrap_err();
    assert_eq!(e.code, ErrorCode::Domain);
    assert!(Fn::new("fn [x] x").is_err());
    assert!(Fn::new("(f").is_err());
    assert!(is_fn_expression("(fn"));
    assert!(!is_fn_expression(" (fn"));
}

#[test]
fn introspection_without_the_engine() {
    let square = Fn::new("(fn [x] (* x x))").unwrap();
    assert_eq!(square.source(), Some("(fn [x] (* x x))"));
    assert_eq!(square.display_string(), "(fn [x] (* x x))");
    let bare = Fn::from_value(square.as_value().clone()).unwrap();
    assert_eq!(bare.source(), None);
    assert_eq!(bare.display_string(), "lambda");
    assert!(Fn::from_value(Value::i64(1)).is_err());
    let copy = square.clone();
    assert_eq!(copy.source(), square.source());
}

#[test]
fn binding_a_lambda_is_done_once() {
    let mut host = Host::new();
    let mut rt = Runtime::new(&mut host).unwrap();
    let mut f = Fn::new("(fn [x] (+ x 1))").unwrap();
    let name = f.bind(&mut rt).unwrap();
    assert_eq!(name, "__rustfn_1");
    assert_eq!(f.bind(&mut rt).unwrap(), name);
    let bound = rt.get_global(&name).unwrap();
    assert!(bound.equals(f.as_value()));
    let mut g = Fn::new("(fn [x] x)").unwrap();
    assert_eq!(g.bind(&mut rt).unwrap(), "__rustfn_2");
    let again = Fn::from_global(&rt, &name).unwrap();
    assert!(again.as_value().equals(f.as_value()));
    rt.end(&mut host);
}

#[test]
fn from_global_errors() {
    let mut host = Host::new();
    let mut rt = Runtime::new(&mut host).unwrap();
    assert_eq!(Fn::from_global(&rt, "nope").unwrap_err().code, ErrorCode::NotFound);
    rt.set_global("n", &Value::i64(1)).unwrap();
    assert_eq!(Fn::from_global(&rt, "n").unwrap_err().code, ErrorCode::Type);
    rt.end(&mut host);
}

#[test]
fn generated_names_are_hexadecimal() {
    assert_eq!(bind_name_for(0), "__rustfn_0");
    assert_eq!(bind_name_for(10), "__rustfn_a");
    assert_eq!(bind_name_for(255), "__rustfn_ff");
    assert_eq!(bind_name_for(4096), "__rustfn_1000");
    assert_eq!(bind_name_for(u64::MAX), "__rustfn_ffffffffffffffff");
}

#[test]
fn an_empty_binding_name_is_rejected() {
    let mut host = Host::new();
    Runtime::scope(&mut host, |_h, rt| {
        assert!(bind_vary::<OnUpd>(rt, "").is_err());
        Ok(())
    })
    .unwrap();
}

#[test]
fn binding_names_with_nul_are_rejected() {
    let mut host = Host::new();
    let mut rt = Runtime::new(&mut host).unwrap();
    let e = bind_unary::<OnEod>(&mut rt, "a\0b").unwrap_err();
    assert_eq!(e.code, ErrorCode::Domain);
    assert!(rt.get_global("a\0b").is_err());
    assert!(check_bind_name("ok").is_ok());
    assert!(check_bind_name("").is_err());
    assert!(check_bind_name("\0").is_err());
    rt.end(&mut host);
}

#[test]
fn bound_handlers_are_in_the_environment() {
    let mut host = Host::new();
    let mut rt = Runtime::new(&mut host).unwrap();
    bind_vary::<OnUpd>(&mut rt, "t_upd").unwrap();
    bind_unary::<OnEod>(&mut rt, "t_eod").unwrap();
    assert!(rt.get_global("t_upd").is_ok());
    assert!(rt.get_global("t_eod").is_ok());
    assert!(Fn::from_global(&rt, "t_upd").is_err());
    rt.end(&mut host);
}

#[test]
fn handler_arguments() {
    let items = [Value::i64(1), Value::sym("x")];
    let args = Args::new(&items);
    assert_eq!(args.len(), 2);
    assert!(!args.is_empty());
    assert_eq!(args.get(1).unwrap().as_sym().unwrap(), "x");
    assert!(args.get(2).is_none());
    assert_eq!(OnUpd::call(Args::new(&items)).as_i64().unwrap(), 2);
    assert!(Args::new(&[]).is_empty());
}

#[test]
fn introspection() {
    let mut host = Host::new();
    Runtime::scope(&mut host, |_h, _rt| {
        let square = Fn::new("(fn [x] (* x x))").unwrap();
        assert_eq!(square.source(), Some("(fn [x] (* x x))"));
        assert_eq!(square.display_string(), "(fn [x] (* x x))");
        // `meta` is evaluated by the engine; the library builds its form.
        let m = square.meta_expr();
        assert!(m.is_list());
        assert_eq!(m.get(0).unwrap().as_sym().unwrap(), "meta");
        Ok(())
    })
    .unwrap();
}

#[test]
fn call_form_lists_the_lambda_then_the_arguments() {
    let square = Fn::new("(fn [x] (* x x))").unwrap();
    let form = square.call_expr(&[Value::i64(5)]);
    assert_eq!(form.len(), 2);
    assert!(form.get(0).unwrap().equals(square.as_value()));
    assert_eq!(form.get(1).unwrap().as_i64().unwrap(), 5);
    assert_eq!(square.call_expr(&[]).len(), 1);
}
