//! The seal on client states: no type outside this crate can be a state.
use vstd::prelude::*;

verus! {

/// Implemented by the client states of this crate alone.
pub trait ClientStateSealed {}

} // verus!
