//! Typed scalar (atom) constructors and readers on [`Value`].
//!
//! Temporal encodings: `date` = days since 2000-01-01, `time` = milliseconds
//! since midnight, `timestamp` = nanoseconds since 2000-01-01 UTC. Floats are
//! carried by their IEEE-754 bits.

use vstd::prelude::*;
use crate::error::{ErrorCode, RayError, Result};
use crate::types::{
    W32Kind, W64Kind, RAY_BOOL, RAY_DATE, RAY_F32, RAY_F64, RAY_GUID, RAY_I16, RAY_I32, RAY_I64,
    RAY_STR, RAY_SYM, RAY_TIME, RAY_TIMESTAMP, RAY_U8,
};
use crate::value::{zero_guid, atom_is_null, type_tag, Atom, Datum, Obj, Scalar, Value};

verus! {

/// Canonical type ids that have an atom null sentinel.
pub open spec fn has_null_sentinel(t: i8) -> bool {
    t == RAY_I16 || t == RAY_I32 || t == RAY_I64 || t == RAY_F32 || t == RAY_F64 || t == RAY_DATE
        || t == RAY_TIME || t == RAY_TIMESTAMP || t == RAY_GUID || t == RAY_SYM || t == RAY_STR
}

/// The null atom of a kind: its minimum integer, a quiet NaN, the zero GUID or the empty text.
pub open spec fn null_scalar(t: i8) -> Scalar {
    if t == RAY_I16 {
        Scalar::I16(i16::MIN)
    } else if t == RAY_I32 {
        Scalar::W32(W32Kind::I32, i32::MIN)
    } else if t == RAY_DATE {
        Scalar::W32(W32Kind::Date, i32::MIN)
    } else if t == RAY_TIME {
        Scalar::W32(W32Kind::Time, i32::MIN)
    } else if t == RAY_I64 {
        Scalar::W64(W64Kind::I64, i64::MIN)
    } else if t == RAY_TIMESTAMP {
        Scalar::W64(W64Kind::Timestamp, i64::MIN)
    } else if t == RAY_F32 {
        Scalar::F32(0x7fc0_0000)
    } else if t == RAY_F64 {
        Scalar::F64(0x7ff8_0000_0000_0000)
    } else if t == RAY_GUID {
        Scalar::Guid(zero_guid())
    } else if t == RAY_SYM {
        Scalar::Sym(Seq::empty(), true)
    } else {
        Scalar::Str(Seq::empty())
    }
}

/// The view is an atom of canonical type id `t`.
pub open spec fn is_atom_of(d: Datum, t: i8) -> bool {
    type_tag(d) == -t
}

impl Value {
    // ---- constructors ----

    /// A boolean atom.
    pub fn bool(v: bool) -> (r: Value)
        ensures
            r@ == Datum::Atom(Scalar::Bool(v)),
    {
        Value::from_obj(Obj::Atom(Atom::Bool(v)))
    }

    /// An unsigned byte atom.
    pub fn u8(v: u8) -> (r: Value)
        ensures
            r@ == Datum::Atom(Scalar::U8(v)),
    {
        Value::from_obj(Obj::Atom(Atom::U8(v)))
    }

    /// A 16-bit signed integer atom.
    pub fn i16(v: i16) -> (r: Value)
        ensures
            r@ == Datum::Atom(Scalar::I16(v)),
    {
        Value::from_obj(Obj::Atom(Atom::I16(v)))
    }

    /// A 32-bit signed integer atom.
    pub fn i32(v: i32) -> (r: Value)
        ensures
            r@ == Datum::Atom(Scalar::W32(W32Kind::I32, v)),
    {
        Value::from_obj(Obj::Atom(Atom::W32(W32Kind::I32, v)))
    }

    /// A 64-bit signed integer atom.
    pub fn i64(v: i64) -> (r: Value)
        ensures
            r@ == Datum::Atom(Scalar::W64(W64Kind::I64, v)),
    {
        Value::from_obj(Obj::Atom(Atom::W64(W64Kind::I64, v)))
    }

    /// A 32-bit float atom, from the float's bits.
    pub fn f32_from_bits(bits: u32) -> (r: Value)
        ensures
            r@ == Datum::Atom(Scalar::F32(bits)),
    {
        Value::from_obj(Obj::Atom(Atom::F32(bits)))
    }

    /// A 64-bit float atom, from the float's bits.
    pub fn f64_from_bits(bits: u64) -> (r: Value)
        ensures
            r@ == Datum::Atom(Scalar::F64(bits)),
    {
        Value::from_obj(Obj::Atom(Atom::F64(bits)))
    }

    /// A symbol atom (a quoted literal).
    pub fn sym(s: &str) -> (r: Value)
        ensures
            r@ == Datum::Atom(Scalar::Sym(s@, true)),
    {
        Value::from_obj(Obj::Atom(Atom::Sym(s.to_string(), true)))
    }

    /// A string atom.
    pub fn string(s: &str) -> (r: Value)
        ensures
            r@ == Datum::Atom(Scalar::Str(s@)),
    {
        Value::from_obj(Obj::Atom(Atom::Str(s.to_string())))
    }

    /// A symbol atom used as a name reference (column / global lookup): not quoted.
    pub fn name_ref(name: &str) -> (r: Value)
        ensures
            r@ == Datum::Atom(Scalar::Sym(name@, false)),
    {
        Value::from_obj(Obj::Atom(Atom::Sym(name.to_string(), false)))
    }

    /// A date atom: days since 2000-01-01.
    pub fn date_days(days: i32) -> (r: Value)
        ensures
            r@ == Datum::Atom(Scalar::W32(W32Kind::Date, days)),
    {
        Value::from_obj(Obj::Atom(Atom::W32(W32Kind::Date, days)))
    }

    /// A time atom: milliseconds since midnight.
    pub fn time_millis(ms: i32) -> (r: Value)
        ensures
            r@ == Datum::Atom(Scalar::W32(W32Kind::Time, ms)),
    {
        Value::from_obj(Obj::Atom(Atom::W32(W32Kind::Time, ms)))
    }

    /// A timestamp atom: nanoseconds since 2000-01-01 UTC.
    pub fn timestamp_nanos(ns: i64) -> (r: Value)
        ensures
            r@ == Datum::Atom(Scalar::W64(W64Kind::Timestamp, ns)),
    {
        Value::from_obj(Obj::Atom(Atom::W64(W64Kind::Timestamp, ns)))
    }

    /// A GUID atom from 16 raw bytes.
    pub fn guid(bytes: &[u8; 16]) -> (r: Value)
        ensures
            r@ == Datum::Atom(Scalar::Guid(bytes@)),
    {
        Value::from_obj(Obj::Atom(Atom::Guid(*bytes)))
    }

    /// The null atom of a canonical type id that has one.
    pub fn typed_null(abs_type: i8) -> (r: Value)
        requires
            has_null_sentinel(abs_type),
        ensures
            r@ == Datum::Atom(null_scalar(abs_type)),
            atom_is_null(r@),
    {
        let a = if abs_type == RAY_I16 {
            Atom::I16(i16::MIN)
        } else if abs_type == RAY_I32 {
            Atom::W32(W32Kind::I32, i32::MIN)
        } else if abs_type == RAY_DATE {
            Atom::W32(W32Kind::Date, i32::MIN)
        } else if abs_type == RAY_TIME {
            Atom::W32(W32Kind::Time, i32::MIN)
        } else if abs_type == RAY_I64 {
            Atom::W64(W64Kind::I64, i64::MIN)
        } else if abs_type == RAY_TIMESTAMP {
            Atom::W64(W64Kind::Timestamp, i64::MIN)
        } else if abs_type == RAY_F32 {
            Atom::F32(0x7fc0_0000)
        } else if abs_type == RAY_F64 {
            Atom::F64(0x7ff8_0000_0000_0000)
        } else if abs_type == RAY_GUID {
            Atom::Guid([0u8; 16])
        } else if abs_type == RAY_SYM {
            Atom::Sym(String::new(), true)
        } else {
            Atom::Str(String::new())
        };
        let r = Value::from_obj(Obj::Atom(a));
        proof {
            if abs_type == RAY_GUID {
                broadcast use vstd::array::axiom_spec_array_fill_for_copy_type;
                let z = vstd::array::spec_array_fill_for_copy_type::<u8, 16>(0u8);
                assert(z@ =~= zero_guid());
            }
        }
        assert(r@ == Datum::Atom(null_scalar(abs_type)));
        r
    }

    // ---- readers ----

    /// `Ok` exactly when this is an atom of canonical type id `abs`; else a type error.
    pub fn expect_atom(&self, abs: i8) -> (r: Result<()>)
        ensures
            r is Ok <==> is_atom_of(self@, abs),
            r matches Err(e) ==> e.code == ErrorCode::Type,
    {
        if self.type_code() as i32 == -(abs as i32) {
            Ok(())
        } else {
            Err(RayError::new(ErrorCode::Type, "expected an atom of another type"))
        }
    }

    /// Read a boolean atom.
    pub fn as_bool(&self) -> (r: Result<bool>)
        ensures
            r is Ok <==> is_atom_of(self@, RAY_BOOL),
            r matches Ok(x) ==> self@ == Datum::Atom(Scalar::Bool(x)),
            r matches Err(e) ==> e.code == ErrorCode::Type,
    {
        match self.obj() {
            Obj::Atom(Atom::Bool(b)) => Ok(*b),
            _ => {
                Err(RayError::new(ErrorCode::Type, "expected a boolean atom"))
            },
        }
    }

    /// Read an unsigned-byte atom.
    pub fn as_u8(&self) -> (r: Result<u8>)
        ensures
            r is Ok <==> is_atom_of(self@, RAY_U8),
            r matches Ok(x) ==> self@ == Datum::Atom(Scalar::U8(x)),
            r matches Err(e) ==> e.code == ErrorCode::Type,
    {
        match self.obj() {
            Obj::Atom(Atom::U8(x)) => Ok(*x),
            _ => {
                Err(RayError::new(ErrorCode::Type, "expected a u8 atom"))
            },
        }
    }

    /// Read an `i16` atom.
    pub fn as_i16(&self) -> (r: Result<i16>)
        ensures
            r is Ok <==> is_atom_of(self@, RAY_I16),
            r matches Ok(x) ==> self@ == Datum::Atom(Scalar::I16(x)),
            r matches Err(e) ==> e.code == ErrorCode::Type,
    {
        match self.obj() {
            Obj::Atom(Atom::I16(x)) => Ok(*x),
            _ => {
                Err(RayError::new(ErrorCode::Type, "expected an i16 atom"))
            },
        }
    }

    /// Read an `i32` atom.
    pub fn as_i32(&self) -> (r: Result<i32>)
        ensures
            r is Ok <==> is_atom_of(self@, RAY_I32),
            r matches Ok(x) ==> self@ == Datum::Atom(Scalar::W32(W32Kind::I32, x)),
            r matches Err(e) ==> e.code == ErrorCode::Type,
    {
        match self.obj() {
            Obj::Atom(Atom::W32(W32Kind::I32, x)) => Ok(*x),
            _ => {
                Err(RayError::new(ErrorCode::Type, "expected an i32 atom"))
            },
        }
    }

    /// Read an `i64` atom.
    pub fn as_i64(&self) -> (r: Result<i64>)
        ensures
            r is Ok <==> is_atom_of(self@, RAY_I64),
            r matches Ok(x) ==> self@ == Datum::Atom(Scalar::W64(W64Kind::I64, x)),
            r matches Err(e) ==> e.code == ErrorCode::Type,
    {
        match self.obj() {
            Obj::Atom(Atom::W64(W64Kind::I64, x)) => Ok(*x),
            _ => {
                Err(RayError::new(ErrorCode::Type, "expected an i64 atom"))
            },
        }
    }

    /// Read the bits of an `f32` atom.
    pub fn as_f32_bits(&self) -> (r: Result<u32>)
        ensures
            r is Ok <==> is_atom_of(self@, RAY_F32),
            r matches Ok(x) ==> self@ == Datum::Atom(Scalar::F32(x)),
            r matches Err(e) ==> e.code == ErrorCode::Type,
    {
        match self.obj() {
            Obj::Atom(Atom::F32(x)) => Ok(*x),
            _ => {
                Err(RayError::new(ErrorCode::Type, "expected an f32 atom"))
            },
        }
    }

    /// Read the bits of an `f64` atom.
    pub fn as_f64_bits(&self) -> (r: Result<u64>)
        ensures
            r is Ok <==> is_atom_of(self@, RAY_F64),
            r matches Ok(x) ==> self@ == Datum::Atom(Scalar::F64(x)),
            r matches Err(e) ==> e.code == ErrorCode::Type,
    {
        match self.obj() {
            Obj::Atom(Atom::F64(x)) => Ok(*x),
            _ => {
                Err(RayError::new(ErrorCode::Type, "expected an f64 atom"))
            },
        }
    }

    /// Read a symbol atom's text.
    pub fn as_sym(&self) -> (r: Result<String>)
        ensures
            r is Ok <==> is_atom_of(self@, RAY_SYM),
            r matches Ok(s) ==> self@ is Atom && self@->Atom_0 is Sym && self@->Atom_0->Sym_0 == s@,
            r matches Err(e) ==> e.code == ErrorCode::Type,
    {
        match self.obj() {
            Obj::Atom(Atom::Sym(s, _)) => Ok(s.clone()),
            _ => {
                Err(RayError::new(ErrorCode::Type, "expected a symbol atom"))
            },
        }
    }

    /// Read a string atom's text.
    pub fn as_string(&self) -> (r: Result<String>)
        ensures
            r is Ok <==> is_atom_of(self@, RAY_STR),
            r matches Ok(s) ==> self@ == Datum::Atom(Scalar::Str(s@)),
            r matches Err(e) ==> e.code == ErrorCode::Type,
    {
        match self.obj() {
            Obj::Atom(Atom::Str(s)) => Ok(s.clone()),
            _ => {
                Err(RayError::new(ErrorCode::Type, "expected a string atom"))
            },
        }
    }

    /// Read a date atom as days since 2000-01-01.
    pub fn as_date_days(&self) -> (r: Result<i32>)
        ensures
            r is Ok <==> is_atom_of(self@, RAY_DATE),
            r matches Ok(x) ==> self@ == Datum::Atom(Scalar::W32(W32Kind::Date, x)),
            r matches Err(e) ==> e.code == ErrorCode::Type,
    {
        match self.obj() {
            Obj::Atom(Atom::W32(W32Kind::Date, x)) => Ok(*x),
            _ => {
                Err(RayError::new(ErrorCode::Type, "expected a date atom"))
            },
        }
    }

    /// Read a time atom as milliseconds since midnight.
    pub fn as_time_millis(&self) -> (r: Result<i32>)
        ensures
            r is Ok <==> is_atom_of(self@, RAY_TIME),
            r matches Ok(x) ==> self@ == Datum::Atom(Scalar::W32(W32Kind::Time, x)),
            r matches Err(e) ==> e.code == ErrorCode::Type,
    {
        match self.obj() {
            Obj::Atom(Atom::W32(W32Kind::Time, x)) => Ok(*x),
            _ => {
                Err(RayError::new(ErrorCode::Type, "expected a time atom"))
            },
        }
    }

    /// Read a timestamp atom as nanoseconds since 2000-01-01 UTC.
    pub fn as_timestamp_nanos(&self) -> (r: Result<i64>)
        ensures
            r is Ok <==> is_atom_of(self@, RAY_TIMESTAMP),
            r matches Ok(x) ==> self@ == Datum::Atom(Scalar::W64(W64Kind::Timestamp, x)),
            r matches Err(e) ==> e.code == ErrorCode::Type,
    {
        match self.obj() {
            Obj::Atom(Atom::W64(W64Kind::Timestamp, x)) => Ok(*x),
            _ => {
                Err(RayError::new(ErrorCode::Type, "expected a timestamp atom"))
            },
        }
    }

    /// Read a GUID atom as 16 raw bytes.
    pub fn as_guid(&self) -> (r: Result<[u8; 16]>)
        ensures
            r is Ok <==> is_atom_of(self@, RAY_GUID),
            r matches Ok(g) ==> self@ == Datum::Atom(Scalar::Guid(g@)),
            r matches Err(e) ==> e.code == ErrorCode::Type,
    {
        match self.obj() {
            Obj::Atom(Atom::Guid(g)) => Ok(*g),
            _ => {
                Err(RayError::new(ErrorCode::Type, "expected a GUID atom"))
            },
        }
    }
}

} // verus!
