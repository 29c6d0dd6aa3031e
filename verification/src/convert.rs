//! Conversions between native Rust values and [`Value`].
//!
//! [`ToValue`] builds a `Value` from a Rust value; [`FromValue`] extracts one.
//! Bare `&str`/`String` map to symbols; wrap in [`Str`] for a string atom.
//! [`Guid`] carries 16 raw bytes.

use vstd::prelude::*;
use crate::error::Result;
use crate::scalars::is_atom_of;
use crate::types::{W32Kind, W64Kind, RAY_BOOL, RAY_GUID, RAY_I16, RAY_I32, RAY_I64, RAY_STR, RAY_SYM, RAY_U8};
use crate::value::{atom_is_null, coll_len, item, type_tag, Datum, Scalar, Value};
use crate::vector::get_ok;

verus! {

/// Build a [`Value`] from a Rust value.
pub trait ToValue {
    /// `d` is the content of a value built from `self`.
    spec fn converts_to(&self, d: Datum) -> bool;

    fn to_value(&self) -> (r: Value)
        ensures
            self.converts_to(r@),
    ;
}

/// Extract a Rust value from a [`Value`].
pub trait FromValue: Sized {
    /// Content of the kind that extracts to this type.
    spec fn accepts(d: Datum) -> bool;

    /// An outside conversion, not this library, decides whether accepted
    /// content `d` extracts.
    spec fn may_refuse(d: Datum) -> bool;

    /// `x` is what `d` extracts to.
    spec fn decodes_to(d: Datum, x: Self) -> bool;

    fn from_value(v: &Value) -> (r: Result<Self>)
        ensures
            r is Ok ==> Self::accepts(v@),
            Self::accepts(v@) && !Self::may_refuse(v@) ==> r is Ok,
            r matches Ok(x) ==> Self::decodes_to(v@, x),
    ;
}

/// Wrapper that maps a string to a string atom rather than a symbol.
#[derive(Debug, Clone, PartialEq, Eq)]
pub struct Str<S>(pub S);

/// Wrapper carrying 16 raw GUID bytes.
#[derive(Debug, Clone, Copy, PartialEq, Eq)]
pub struct Guid(pub [u8; 16]);

// ---- ToValue ----

impl ToValue for Value {
    open spec fn converts_to(&self, d: Datum) -> bool {
        d == self@
    }

    fn to_value(&self) -> (r: Value) {
        self.clone()
    }
}

impl ToValue for bool {
    open spec fn converts_to(&self, d: Datum) -> bool {
        d == Datum::Atom(Scalar::Bool(*self))
    }

    fn to_value(&self) -> (r: Value) {
        Value::bool(*self)
    }
}

impl ToValue for u8 {
    open spec fn converts_to(&self, d: Datum) -> bool {
        d == Datum::Atom(Scalar::U8(*self))
    }

    fn to_value(&self) -> (r: Value) {
        Value::u8(*self)
    }
}

impl ToValue for i16 {
    open spec fn converts_to(&self, d: Datum) -> bool {
        d == Datum::Atom(Scalar::I16(*self))
    }

    fn to_value(&self) -> (r: Value) {
        Value::i16(*self)
    }
}

impl ToValue for i32 {
    open spec fn converts_to(&self, d: Datum) -> bool {
        d == Datum::Atom(Scalar::W32(W32Kind::I32, *self))
    }

    fn to_value(&self) -> (r: Value) {
        Value::i32(*self)
    }
}

impl ToValue for i64 {
    open spec fn converts_to(&self, d: Datum) -> bool {
        d == Datum::Atom(Scalar::W64(W64Kind::I64, *self))
    }

    fn to_value(&self) -> (r: Value) {
        Value::i64(*self)
    }
}

impl ToValue for str {
    open spec fn converts_to(&self, d: Datum) -> bool {
        d == Datum::Atom(Scalar::Sym(self@, true))
    }

    fn to_value(&self) -> (r: Value) {
        Value::sym(self)
    }
}

impl ToValue for &str {
    open spec fn converts_to(&self, d: Datum) -> bool {
        d == Datum::Atom(Scalar::Sym((*self)@, true))
    }

    fn to_value(&self) -> (r: Value) {
        Value::sym(*self)
    }
}

impl ToValue for String {
    open spec fn converts_to(&self, d: Datum) -> bool {
        d == Datum::Atom(Scalar::Sym(self@, true))
    }

    fn to_value(&self) -> (r: Value) {
        Value::sym(self.as_str())
    }
}

impl ToValue for Str<&str> {
    open spec fn converts_to(&self, d: Datum) -> bool {
        d == Datum::Atom(Scalar::Str(self.0@))
    }

    fn to_value(&self) -> (r: Value) {
        Value::string(self.0)
    }
}

impl ToValue for Str<String> {
    open spec fn converts_to(&self, d: Datum) -> bool {
        d == Datum::Atom(Scalar::Str(self.0@))
    }

    fn to_value(&self) -> (r: Value) {
        Value::string(self.0.as_str())
    }
}

impl ToValue for Guid {
    open spec fn converts_to(&self, d: Datum) -> bool {
        d == Datum::Atom(Scalar::Guid(self.0@))
    }

    fn to_value(&self) -> (r: Value) {
        Value::guid(&self.0)
    }
}

impl<T: ToValue> ToValue for &T {
    open spec fn converts_to(&self, d: Datum) -> bool {
        (**self).converts_to(d)
    }

    fn to_value(&self) -> (r: Value) {
        (**self).to_value()
    }
}

impl<T: ToValue> ToValue for Option<T> {
    open spec fn converts_to(&self, d: Datum) -> bool {
        match self {
            Some(v) => v.converts_to(d),
            None => d == Datum::Null,
        }
    }

    fn to_value(&self) -> (r: Value) {
        match self {
            Some(v) => v.to_value(),
            None => Value::null(),
        }
    }
}

// ---- FromValue ----

impl FromValue for Value {
    open spec fn accepts(d: Datum) -> bool {
        true
    }

    open spec fn may_refuse(d: Datum) -> bool {
        false
    }

    open spec fn decodes_to(d: Datum, x: Value) -> bool {
        x@ == d
    }

    fn from_value(v: &Value) -> (r: Result<Value>) {
        Ok(v.clone())
    }
}

impl FromValue for bool {
    open spec fn accepts(d: Datum) -> bool {
        is_atom_of(d, RAY_BOOL)
    }

    open spec fn may_refuse(d: Datum) -> bool {
        false
    }

    open spec fn decodes_to(d: Datum, x: bool) -> bool {
        d == Datum::Atom(Scalar::Bool(x))
    }

    fn from_value(v: &Value) -> (r: Result<bool>) {
        v.as_bool()
    }
}

impl FromValue for u8 {
    open spec fn accepts(d: Datum) -> bool {
        is_atom_of(d, RAY_U8)
    }

    open spec fn may_refuse(d: Datum) -> bool {
        false
    }

    open spec fn decodes_to(d: Datum, x: u8) -> bool {
        d == Datum::Atom(Scalar::U8(x))
    }

    fn from_value(v: &Value) -> (r: Result<u8>) {
        v.as_u8()
    }
}

impl FromValue for i16 {
    open spec fn accepts(d: Datum) -> bool {
        is_atom_of(d, RAY_I16)
    }

    open spec fn may_refuse(d: Datum) -> bool {
        false
    }

    open spec fn decodes_to(d: Datum, x: i16) -> bool {
        d == Datum::Atom(Scalar::I16(x))
    }

    fn from_value(v: &Value) -> (r: Result<i16>) {
        v.as_i16()
    }
}

impl FromValue for i32 {
    open spec fn accepts(d: Datum) -> bool {
        is_atom_of(d, RAY_I32)
    }

    open spec fn may_refuse(d: Datum) -> bool {
        false
    }

    open spec fn decodes_to(d: Datum, x: i32) -> bool {
        d == Datum::Atom(Scalar::W32(W32Kind::I32, x))
    }

    fn from_value(v: &Value) -> (r: Result<i32>) {
        v.as_i32()
    }
}

impl FromValue for i64 {
    open spec fn accepts(d: Datum) -> bool {
        is_atom_of(d, RAY_I64)
    }

    open spec fn may_refuse(d: Datum) -> bool {
        false
    }

    open spec fn decodes_to(d: Datum, x: i64) -> bool {
        d == Datum::Atom(Scalar::W64(W64Kind::I64, x))
    }

    fn from_value(v: &Value) -> (r: Result<i64>) {
        v.as_i64()
    }
}

impl FromValue for String {
    /// A symbol or a string atom.
    open spec fn accepts(d: Datum) -> bool {
        is_atom_of(d, RAY_SYM) || is_atom_of(d, RAY_STR)
    }

    open spec fn may_refuse(d: Datum) -> bool {
        false
    }

    open spec fn decodes_to(d: Datum, x: String) -> bool {
        (d is Atom && d->Atom_0 is Sym && d->Atom_0->Sym_0 == x@) || d == Datum::Atom(
            Scalar::Str(x@),
        )
    }

    fn from_value(v: &Value) -> (r: Result<String>) {
        match v.as_sym() {
            Ok(s) => Ok(s),
            Err(_) => v.as_string(),
        }
    }
}

impl FromValue for Guid {
    open spec fn accepts(d: Datum) -> bool {
        is_atom_of(d, RAY_GUID)
    }

    open spec fn may_refuse(d: Datum) -> bool {
        false
    }

    open spec fn decodes_to(d: Datum, x: Guid) -> bool {
        d == Datum::Atom(Scalar::Guid(x.0@))
    }

    fn from_value(v: &Value) -> (r: Result<Guid>) {
        match v.as_guid() {
            Ok(g) => Ok(Guid(g)),
            Err(e) => Err(e),
        }
    }
}

impl<T: FromValue> FromValue for Option<T> {
    /// A null (untyped, or its kind's sentinel) gives `None`; anything `T` accepts gives `Some`.
    open spec fn accepts(d: Datum) -> bool {
        atom_is_null(d) || T::accepts(d)
    }

    open spec fn may_refuse(d: Datum) -> bool {
        !atom_is_null(d) && T::may_refuse(d)
    }

    open spec fn decodes_to(d: Datum, x: Option<T>) -> bool {
        match x {
            None => atom_is_null(d),
            Some(y) => !atom_is_null(d) && T::decodes_to(d, y),
        }
    }

    fn from_value(v: &Value) -> (r: Result<Option<T>>) {
        if v.is_null() || v.is_atom_null() {
            Ok(None)
        } else {
            match T::from_value(v) {
                Ok(x) => Ok(Some(x)),
                Err(e) => Err(e),
            }
        }
    }
}

impl Value {
    /// Build a value from any [`ToValue`].
    pub fn new<T: ToValue>(v: T) -> (r: Value)
        ensures
            v.converts_to(r@),
    {
        v.to_value()
    }

    /// Extract any [`FromValue`] from this value.
    pub fn extract<T: FromValue>(&self) -> (r: Result<T>)
        ensures
            r is Ok ==> T::accepts(self@),
            T::accepts(self@) && !T::may_refuse(self@) ==> r is Ok,
            r matches Ok(x) ==> T::decodes_to(self@, x),
    {
        T::from_value(self)
    }

    /// Extract every element of a vector or list.
    pub fn to_vec<T: FromValue>(&self) -> (r: Result<Vec<T>>)
        ensures
            r is Ok ==> forall|i: int|
                0 <= i < coll_len(self@) ==> get_ok(self@, i) && T::accepts(#[trigger] item(self@, i)),
            (forall|i: int|
                0 <= i < coll_len(self@) ==> get_ok(self@, i) && T::accepts(#[trigger] item(self@, i))
                    && !T::may_refuse(item(self@, i))) ==> r is Ok,
            r matches Ok(v) ==> v@.len() == coll_len(self@) && forall|i: int|
                0 <= i < v@.len() ==> T::decodes_to(item(self@, i), #[trigger] v@[i]),
    {
        let n = self.len();
        let mut out: Vec<T> = Vec::new();
        let mut i: usize = 0;
        while i < n
            invariant
                i <= n,
                n == coll_len(self@),
                out@.len() == i,
                forall|j: int| 0 <= j < i ==> get_ok(self@, j) && T::accepts(#[trigger] item(self@, j)),
                forall|j: int| 0 <= j < i ==> T::decodes_to(item(self@, j), #[trigger] out@[j]),
            decreases n - i,
        {
            let e = match self.get(i) {
                Ok(e) => e,
                Err(err) => {
                    return Err(err);
                },
            };
            let x = match T::from_value(&e) {
                Ok(x) => x,
                Err(err) => {
                    return Err(err);
                },
            };
            out.push(x);
            i += 1;
        }
        Ok(out)
    }
}

// ---- laws ----

/// Extracting what an `i64` was converted to gives the `i64` back.
pub proof fn law_i64_round_trip(x: i64, d: Datum)
    requires
        x.converts_to(d),
    ensures
        <i64 as FromValue>::accepts(d),
        !<i64 as FromValue>::may_refuse(d),
        <i64 as FromValue>::decodes_to(d, x),
{
}

/// Extracting what an `i32` was converted to gives the `i32` back.
pub proof fn law_i32_round_trip(x: i32, d: Datum)
    requires
        x.converts_to(d),
    ensures
        <i32 as FromValue>::accepts(d),
        !<i32 as FromValue>::may_refuse(d),
        <i32 as FromValue>::decodes_to(d, x),
{
}

/// Extracting what an `i16` was converted to gives the `i16` back.
pub proof fn law_i16_round_trip(x: i16, d: Datum)
    requires
        x.converts_to(d),
    ensures
        <i16 as FromValue>::accepts(d),
        !<i16 as FromValue>::may_refuse(d),
        <i16 as FromValue>::decodes_to(d, x),
{
}

/// Extracting what a `u8` was converted to gives the `u8` back.
pub proof fn law_u8_round_trip(x: u8, d: Datum)
    requires
        x.converts_to(d),
    ensures
        <u8 as FromValue>::accepts(d),
        !<u8 as FromValue>::may_refuse(d),
        <u8 as FromValue>::decodes_to(d, x),
{
}

/// Extracting what a `bool` was converted to gives the `bool` back.
pub proof fn law_bool_round_trip(x: bool, d: Datum)
    requires
        x.converts_to(d),
    ensures
        <bool as FromValue>::accepts(d),
        !<bool as FromValue>::may_refuse(d),
        <bool as FromValue>::decodes_to(d, x),
{
}

/// Extracting what a [`Guid`] was converted to gives the same bytes back.
pub proof fn law_guid_round_trip(g: Guid, d: Datum)
    requires
        g.converts_to(d),
    ensures
        <Guid as FromValue>::accepts(d),
        !<Guid as FromValue>::may_refuse(d),
        forall|h: Guid| <Guid as FromValue>::decodes_to(d, h) ==> h.0@ == g.0@,
{
}

/// A string converted to a symbol, or wrapped in [`Str`] to a string atom,
/// extracts back to the same text.
pub proof fn law_string_round_trip(s: String, d: Datum, e: Datum)
    requires
        s.converts_to(d),
        Str(s).converts_to(e),
    ensures
        <String as FromValue>::accepts(d),
        !<String as FromValue>::may_refuse(d),
        forall|t: String| <String as FromValue>::decodes_to(d, t) ==> t@ == s@,
        <String as FromValue>::accepts(e),
        !<String as FromValue>::may_refuse(e),
        forall|t: String| <String as FromValue>::decodes_to(e, t) ==> t@ == s@,
{
}

/// `Option<i64>`: `Some(x)` round-trips unless `x` is the null sentinel `i64::MIN`,
/// which extracts as `None`; `None` round-trips.
pub proof fn law_option_i64_round_trip(x: Option<i64>, d: Datum)
    requires
        x.converts_to(d),
    ensures
        <Option<i64> as FromValue>::accepts(d),
        !<Option<i64> as FromValue>::may_refuse(d),
        x != Some(i64::MIN) ==> <Option<i64> as FromValue>::decodes_to(d, x),
        x == Some(i64::MIN) ==> <Option<i64> as FromValue>::decodes_to(d, None),
{
}

/// Bare text converts to a symbol: a `String` converts exactly as the equal
/// `&str` does, to a quoted symbol atom holding its text (type tag `-RAY_SYM`);
/// only the [`Str`] wrapper gives a string atom.
pub proof fn law_bare_text_is_a_symbol(s: String, t: &str, d: Datum)
    requires
        t@ == s@,
    ensures
        s.converts_to(d) <==> t.converts_to(d),
        s.converts_to(d) ==> d == Datum::Atom(Scalar::Sym(s@, true)) && type_tag(d) == -RAY_SYM,
        Str(s).converts_to(d) ==> d == Datum::Atom(Scalar::Str(s@)) && type_tag(d) == -RAY_STR,
        !(s.converts_to(d) && Str(s).converts_to(d)),
{
}

} // verus!
