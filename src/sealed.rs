use vstd::prelude::*;

verus! {

/// Implemented by the cookie states alone, so that no other type can be a state.
pub trait Sealed {}

impl Sealed for crate::cookie::Open {}

impl Sealed for crate::cookie::Load {}

} // verus!
