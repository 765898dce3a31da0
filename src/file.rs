use vstd::prelude::*;

verus! {

/// An identifier of a source file.
#[derive(Debug, Clone, Copy)]
pub struct FileId(pub u32);

} // verus!
