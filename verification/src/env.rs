//! Binding native functions into the global environment.
//!
//! A name bound here is callable from Rayfall source and from a remote peer:
//! a q publisher pushing `` (`upd; payload) `` down an attached subscription is
//! dispatched to whatever `upd` is bound to.

use vstd::prelude::*;
use crate::error::{ErrorCode, RayError, Result};
use crate::runtime::Runtime;
use crate::types::Arity;
use crate::value::{Datum, Obj, Value};

verus! {

/// The arguments of a call, borrowed for its duration.
pub struct Args<'a> {
    items: &'a [Value],
}

impl<'a> Args<'a> {
    /// The arguments.
    pub closed spec fn items(&self) -> Seq<Value> {
        self.items@
    }

    /// Arguments over `items`.
    pub fn new(items: &'a [Value]) -> (a: Args<'a>)
        ensures
            a.items() == items@,
    {
        Args { items }
    }

    /// How many arguments the caller passed.
    pub fn len(&self) -> (n: usize)
        ensures
            n == self.items().len(),
    {
        self.items.len()
    }

    /// True if the call had no arguments.
    pub fn is_empty(&self) -> (b: bool)
        ensures
            b == (self.items().len() == 0),
    {
        self.items.len() == 0
    }

    /// A copy of argument `i`, or `None` if the call had fewer.
    pub fn get(&self, i: usize) -> (r: Option<Value>)
        ensures
            r is Some <==> i < self.items().len(),
            r matches Some(v) ==> v@ == self.items()[i as int]@,
    {
        if i < self.items.len() {
            Some(self.items[i].clone())
        } else {
            None
        }
    }
}

/// A handler of any arity.
pub trait VaryFn {
    fn call(args: Args<'_>) -> Value;
}

/// A handler of exactly one argument.
pub trait UnaryFn {
    fn call(arg: Value) -> Value;
}

/// Does the text contain a NUL character?
pub(crate) fn contains_nul(s: &str) -> (b: bool)
    ensures
        b == s@.contains('\0'),
{
    let n = s.unicode_len();
    let mut i: usize = 0;
    while i < n
        invariant
            i <= n,
            n == s@.len(),
            forall|j: int| 0 <= j < i ==> #[trigger] s@[j] != '\0',
        decreases n - i,
    {
        if s.get_char(i) == '\0' {
            assert(s@[i as int] == '\0');
            return true;
        }
        i += 1;
    }
    false
}

/// A name that can be bound: not empty and free of NUL characters.
pub open spec fn bindable_name(name: Seq<char>) -> bool {
    name.len() > 0 && !name.contains('\0')
}

/// Validate a binding name.
pub fn check_bind_name(name: &str) -> (r: Result<()>)
    ensures
        r is Ok <==> bindable_name(name@),
        r matches Err(e) ==> e.code == ErrorCode::Domain,
{
    if name.is_empty() {
        return Err(RayError::new(ErrorCode::Domain, "function name is empty"));
    }
    if contains_nul(name) {
        return Err(RayError::new(ErrorCode::Domain, "function name contains NUL"));
    }
    Ok(())
}

fn bind_builtin(rt: &mut Runtime, name: &str, arity: Arity) -> (r: Result<()>)
    ensures
        r is Ok <==> bindable_name(name@),
        r is Ok ==> final(rt)@ == old(rt)@.insert(name@, Datum::Builtin(name@, arity)),
        r matches Err(e) ==> final(rt)@ == old(rt)@ && e.code == ErrorCode::Domain,
        final(rt).bind_counter() == old(rt).bind_counter(),
{
    match check_bind_name(name) {
        Ok(()) => {},
        Err(e) => {
            return Err(e);
        },
    }
    let f = Value::from_obj(Obj::Builtin(name.to_string(), arity));
    rt.set_global(name, &f)
}

/// Bind a variadic native function object under `name`: the environment
/// records the name and the arity. Which handler `H` the engine dispatches a
/// call to is the engine's business and is not recorded in this model.
pub fn bind_vary<H: VaryFn>(rt: &mut Runtime, name: &str) -> (r: Result<()>)
    ensures
        r is Ok <==> bindable_name(name@),
        r is Ok ==> final(rt)@ == old(rt)@.insert(name@, Datum::Builtin(name@, Arity::Vary)),
        r matches Err(e) ==> final(rt)@ == old(rt)@ && e.code == ErrorCode::Domain,
{
    bind_builtin(rt, name, Arity::Vary)
}

/// Bind a one-argument native function object under `name`: the environment
/// records the name and the arity. Which handler `H` the engine dispatches a
/// call to is the engine's business and is not recorded in this model.
pub fn bind_unary<H: UnaryFn>(rt: &mut Runtime, name: &str) -> (r: Result<()>)
    ensures
        r is Ok <==> bindable_name(name@),
        r is Ok ==> final(rt)@ == old(rt)@.insert(name@, Datum::Builtin(name@, Arity::Unary)),
        r matches Err(e) ==> final(rt)@ == old(rt)@ && e.code == ErrorCode::Domain,
{
    bind_builtin(rt, name, Arity::Unary)
}

} // verus!
