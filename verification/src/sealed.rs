//! The seal on [`crate::VecElem`]: only this crate's element types implement it.

use vstd::prelude::*;

verus! {

/// Implemented only by the element types of this crate.
pub trait Sealed {}

} // verus!
