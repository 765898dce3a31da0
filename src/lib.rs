//! Writing CodeView debug information: leaf records into a type stream and
//! symbol records into a symbol stream, each record framed by its length and
//! type id, through sinks that can also record relocations.

pub mod codeview;
pub mod encoding;
mod error;
mod file;
pub mod leaf;
mod line;
pub mod section_write;
mod subsection;
pub mod symbol;

pub use codeview::Codeview;
pub use encoding::Record;
pub use error::Error;
pub use file::FileId;
pub use leaf::{Leaf, LeafId};
pub use line::{Block, Line, Lines};
pub use section_write::{RelocKind, SectionSink, SectionWrite};
pub use subsection::Subsection;
pub use symbol::Symbol;
