//! Single-file structural analysis of UI component modules: which declarations
//! are components, which are exported, which symbols are imported, and where
//! imported components are referenced as markup elements.

use vstd::prelude::*;

pub mod analyze;
pub mod ast;
pub mod component;
pub mod jsx;
pub mod range;
pub mod text;

verus! {

/// Byte-offset interval into the source text, as the parser reports it.
#[derive(Clone, Copy, PartialEq, Eq, Structural)]
pub struct Span {
    pub start: u32,
    pub end: u32,
}

} // verus!
