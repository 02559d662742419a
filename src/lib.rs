use vstd::prelude::*;

pub mod tree;
pub mod registry;
pub mod ident;
pub mod translate;
pub mod laws;

pub use translate::translate;

verus! {

/// The EBNF front end. Its recognizer is generated by pest's derive, which
/// a program around this library puts on a copy of this type; what it
/// recognizes is handed to [`translate`] as a [`tree::Grammar`].
pub struct EbnfParser;

} // verus!
