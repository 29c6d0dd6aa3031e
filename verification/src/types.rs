//! Type tags, element kinds and the attribute bits of the value model.

use vstd::prelude::*;

verus! {

/// Heterogeneous list.
pub const RAY_LIST: i8 = 0;
/// Boolean.
pub const RAY_BOOL: i8 = 1;
/// Unsigned byte.
pub const RAY_U8: i8 = 2;
/// 16-bit signed integer.
pub const RAY_I16: i8 = 3;
/// 32-bit signed integer.
pub const RAY_I32: i8 = 4;
/// 64-bit signed integer.
pub const RAY_I64: i8 = 5;
/// 32-bit float (held by its bits).
pub const RAY_F32: i8 = 6;
/// 64-bit float (held by its bits).
pub const RAY_F64: i8 = 7;
/// Days since 2000-01-01.
pub const RAY_DATE: i8 = 8;
/// Milliseconds since midnight.
pub const RAY_TIME: i8 = 9;
/// Nanoseconds since 2000-01-01 UTC.
pub const RAY_TIMESTAMP: i8 = 10;
/// 16 raw bytes.
pub const RAY_GUID: i8 = 11;
/// Interned symbol.
pub const RAY_SYM: i8 = 12;
/// Character string.
pub const RAY_STR: i8 = 13;
/// Table.
pub const RAY_TABLE: i8 = 98;
/// Dictionary.
pub const RAY_DICT: i8 = 99;
/// Compiled lambda.
pub const RAY_LAMBDA: i8 = 100;
/// Native one-argument function.
pub const RAY_UNARY: i8 = 101;
/// Native variadic function.
pub const RAY_VARY: i8 = 103;
/// The untyped null singleton.
pub const RAY_NULL: i8 = 126;

/// Attribute bit: the vector carries null elements.
pub const ATTR_HAS_NULLS: u8 = 1;
/// Attribute bit: a symbol atom is a literal rather than a name reference.
pub const ATTR_QUOTED: u8 = 2;

/// One-byte element kinds.
#[derive(Clone, Copy, Debug, PartialEq, Eq, Structural)]
pub enum ByteKind {
    Bool,
    U8,
}

/// Four-byte integer element kinds.
#[derive(Clone, Copy, Debug, PartialEq, Eq, Structural)]
pub enum W32Kind {
    I32,
    Date,
    Time,
}

/// Eight-byte integer element kinds.
#[derive(Clone, Copy, Debug, PartialEq, Eq, Structural)]
pub enum W64Kind {
    I64,
    Timestamp,
}

/// Text element kinds.
#[derive(Clone, Copy, Debug, PartialEq, Eq, Structural)]
pub enum TextKind {
    Sym,
    Str,
}

/// Arity of a native function object.
#[derive(Clone, Copy, Debug, PartialEq, Eq, Structural)]
pub enum Arity {
    Unary,
    Vary,
}

pub open spec fn byte_code(k: ByteKind) -> i8 {
    match k {
        ByteKind::Bool => RAY_BOOL,
        ByteKind::U8 => RAY_U8,
    }
}

pub open spec fn w32_code(k: W32Kind) -> i8 {
    match k {
        W32Kind::I32 => RAY_I32,
        W32Kind::Date => RAY_DATE,
        W32Kind::Time => RAY_TIME,
    }
}

pub open spec fn w64_code(k: W64Kind) -> i8 {
    match k {
        W64Kind::I64 => RAY_I64,
        W64Kind::Timestamp => RAY_TIMESTAMP,
    }
}

pub open spec fn text_code(k: TextKind) -> i8 {
    match k {
        TextKind::Sym => RAY_SYM,
        TextKind::Str => RAY_STR,
    }
}

/// True for the tags of homogeneous vector kinds.
pub open spec fn is_vector_code(t: int) -> bool {
    RAY_BOOL <= t <= RAY_STR
}

} // verus!
