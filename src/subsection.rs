use vstd::prelude::*;

use crate::line::Lines;
use crate::symbol::Symbol;

verus! {

/// A subsection of the CodeView symbol section.
#[derive(Debug, Clone)]
pub enum Subsection<Reloc> {
    /// A subsection containing symbol records.
    Symbols(Vec<Symbol>),
    /// A subsection containing line records; it cannot be emitted yet.
    Lines(Lines<Reloc>),
}

} // verus!
