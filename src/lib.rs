//! The sealed capability pattern as a source-to-source transformation.
//!
//! An interface declaration marked for sealing gains a supertrait bound on a
//! hidden marker capability, declared in a uniquely named module next to it.
//! Each implementation block marked for sealing gains a grant of that marker
//! for its implementing type. Any other implementation then fails to
//! type-check, because nothing outside the hidden module can name the marker.
//!
//! The declarations are handed to this library as plain data: the host
//! language's own parser and printer stay outside of it.
//!
//! - [`args`]: the configuration grammars of an interface's and a method's seal.
//! - [`ident`]: the names of the marker module and of a callable method's inner form.
//! - [`model`]: the declarations, as plain data, with their models.
//! - [`interface`]: sealing an interface, and the partial-seal rules.
//! - [`implementation`]: sealing an implementation block.
//! - [`expand`]: the entry point over either kind of declaration.
//! - [`error`]: the ways a declaration can fail to transform.
//! - [`drone`]: a sealed set of typestates, written out by hand.

pub mod args;
pub mod drone;
mod drone_seal;
pub mod error;
pub mod expand;
pub mod ident;
pub mod implementation;
pub mod interface;
pub mod model;

pub use expand::{sealed, Expansion, Item};
pub use error::SealError;
