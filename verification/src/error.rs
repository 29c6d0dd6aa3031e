//! Errors surfaced by the library.

use vstd::prelude::*;

verus! {

/// The category of a failure.
#[derive(Clone, Copy, Debug, PartialEq, Eq, Structural)]
pub enum ErrorCode {
    /// A value had a different type than the operation needs.
    Type,
    /// An index or a range fell outside a collection.
    Range,
    /// Two collections that must match in length did not.
    Length,
    /// A name or a key was not found.
    NotFound,
    /// An argument was malformed (empty name, NUL byte, wrong syntax).
    Domain,
    /// The runtime lifecycle refused the request.
    Runtime,
    /// A wire message was malformed.
    Wire,
}

/// An error with its category, the category's short name and a message.
#[derive(Debug)]
pub struct RayError {
    pub code: ErrorCode,
    pub code_str: String,
    pub message: String,
}

/// The short name of an error category.
pub open spec fn code_name(code: ErrorCode) -> Seq<char> {
    match code {
        ErrorCode::Type => "type"@,
        ErrorCode::Range => "range"@,
        ErrorCode::Length => "length"@,
        ErrorCode::NotFound => "not-found"@,
        ErrorCode::Domain => "domain"@,
        ErrorCode::Runtime => "runtime"@,
        ErrorCode::Wire => "wire"@,
    }
}

impl ErrorCode {
    /// The short name of this category.
    pub fn as_str(&self) -> (r: &'static str)
        ensures
            r@ == code_name(*self),
    {
        proof {
            reveal_strlit("type");
            reveal_strlit("range");
            reveal_strlit("length");
            reveal_strlit("not-found");
            reveal_strlit("domain");
            reveal_strlit("runtime");
            reveal_strlit("wire");
        }
        match self {
            ErrorCode::Type => "type",
            ErrorCode::Range => "range",
            ErrorCode::Length => "length",
            ErrorCode::NotFound => "not-found",
            ErrorCode::Domain => "domain",
            ErrorCode::Runtime => "runtime",
            ErrorCode::Wire => "wire",
        }
    }
}

impl RayError {
    /// An error of category `code` carrying `message`.
    pub fn new(code: ErrorCode, message: &str) -> (e: RayError)
        ensures
            e.code == code,
            e.code_str@ == code_name(code),
            e.message@ == message@,
    {
        RayError { code, code_str: code.as_str().to_string(), message: message.to_string() }
    }
}

/// The result type of fallible library operations.
pub type Result<T> = core::result::Result<T, RayError>;

} // verus!
