//! A crate-private seal for traits whose implementors are fixed by the
//! architecture.

use vstd::prelude::*;

verus! {

/// Implemented only by the marker types of this crate.
pub trait Sealed {}

/// Implemented only by the model-specific-register access modes.
pub trait AccessSealed {}

/// Implemented only by the model-specific-register authority families.
pub trait AuthoritySealed {}

} // verus!
