//! Dictionaries: a keys collection paired with a values collection.

use vstd::prelude::*;
use crate::error::{ErrorCode, RayError, Result};
use crate::value::{coll_len, item, Datum, Obj, Value};
use crate::vector::get_ok;

verus! {

/// Keys and values are vectors or lists of one length.
pub open spec fn dict_parts_ok(k: Datum, v: Datum) -> bool {
    (k is Vector || k is List) && (v is Vector || v is List) && coll_len(k) == coll_len(v)
}

/// Key `i` of `keys` is `key`.
pub open spec fn key_at(keys: Datum, key: Datum, i: int) -> bool {
    get_ok(keys, i) && item(keys, i) == key
}

/// `i` is the first position holding `key`.
pub open spec fn first_key(keys: Datum, key: Datum, i: int) -> bool {
    key_at(keys, key, i) && forall|j: int| 0 <= j < i ==> !#[trigger] key_at(keys, key, j)
}

impl Value {
    /// A dictionary from a keys collection and a values collection of one length.
    pub fn dict(keys: Value, values: Value) -> (r: Value)
        requires
            dict_parts_ok(keys@, values@),
        ensures
            r@ == Datum::Dict(Box::new(keys@), Box::new(values@)),
    {
        Value::from_obj(Obj::Dict(keys, values))
    }

    /// True if this value is a dictionary.
    pub fn is_dict(&self) -> (b: bool)
        ensures
            b == self@ is Dict,
    {
        match self.obj() {
            Obj::Dict(_, _) => true,
            _ => false,
        }
    }

    /// The keys collection.
    pub fn dict_keys(&self) -> (r: Result<Value>)
        ensures
            r is Ok <==> self@ is Dict,
            r matches Ok(k) ==> k@ == *self@->Dict_0,
            r matches Err(e) ==> e.code == ErrorCode::Type,
    {
        match self.obj() {
            Obj::Dict(k, _) => Ok(k.clone()),
            _ => Err(RayError::new(ErrorCode::Type, "dict_keys: value is not a dict")),
        }
    }

    /// The values collection.
    pub fn dict_values(&self) -> (r: Result<Value>)
        ensures
            r is Ok <==> self@ is Dict,
            r matches Ok(v) ==> v@ == *self@->Dict_1,
            r matches Err(e) ==> e.code == ErrorCode::Type,
    {
        match self.obj() {
            Obj::Dict(_, v) => Ok(v.clone()),
            _ => Err(RayError::new(ErrorCode::Type, "dict_values: value is not a dict")),
        }
    }

    /// Number of key/value pairs.
    pub fn dict_len(&self) -> (r: Result<usize>)
        ensures
            r is Ok <==> self@ is Dict,
            r matches Ok(n) ==> n == coll_len(*self@->Dict_0),
            r matches Err(e) ==> e.code == ErrorCode::Type,
    {
        match self.obj() {
            Obj::Dict(k, _) => Ok(k.len()),
            _ => Err(RayError::new(ErrorCode::Type, "dict_len: value is not a dict")),
        }
    }

    /// The value paired with the first occurrence of `key`, if any.
    pub fn dict_get(&self, key: &Value) -> (r: Result<Option<Value>>)
        ensures
            r is Ok <==> self@ is Dict,
            r matches Ok(Some(v)) ==> exists|i: int|
                first_key(*self@->Dict_0, key@, i) && get_ok(*self@->Dict_1, i) && v@ == item(
                    *self@->Dict_1,
                    i,
                ),
            r matches Ok(None) ==> (forall|i: int| !key_at(*self@->Dict_0, key@, i)) || (exists|
                i: int,
            | first_key(*self@->Dict_0, key@, i) && !get_ok(*self@->Dict_1, i)),
            r matches Err(e) ==> e.code == ErrorCode::Type,
    {
        match self.obj() {
            Obj::Dict(keys, vals) => {
                let n = keys.len();
                let mut i: usize = 0;
                while i < n
                    invariant
                        i <= n,
                        n == coll_len(keys@),
                        self@ is Dict && *self@->Dict_0 == keys@ && *self@->Dict_1 == vals@,
                        forall|j: int| 0 <= j < i ==> !#[trigger] key_at(keys@, key@, j),
                    decreases n - i,
                {
                    match keys.get(i) {
                        Ok(k) => {
                            if k.equals(key) {
                                assert(first_key(keys@, key@, i as int));
                                return match vals.get(i) {
                                    Ok(v) => {
                                        assert(first_key(keys@, key@, i as int) && get_ok(vals@, i as int));
                                        Ok(Some(v))
                                    },
                                    Err(_) => Ok(None),
                                };
                            }
                        },
                        Err(_) => {},
                    }
                    i += 1;
                }
                assert forall|j: int| !key_at(keys@, key@, j) by {
                    if 0 <= j < i {
                    }
                }
                Ok(None)
            },
            _ => Err(RayError::new(ErrorCode::Type, "dict_get: value is not a dict")),
        }
    }
}

} // verus!
