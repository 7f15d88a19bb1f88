//! The hidden marker of the drone states. Private to the crate root, so that
//! no code outside this crate can name it.
use vstd::prelude::*;

verus! {

/// Implemented only by the states this crate declares.
pub trait Sealed {}

} // verus!
