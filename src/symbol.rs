use vstd::prelude::*;

use crate::encoding::{
    le_u32, record_frame, record_written, saturated, write_record, write_u32, Record,
};
use crate::error::Error;
use crate::leaf::LeafId;
use crate::section_write::SectionWrite;

verus! {

/// Build information.
#[derive(Debug, Clone, Copy)]
pub struct BuildInfo {
    /// Leaf index of a `Leaf::BuildInfo`.
    pub leaf: LeafId,
}

/// Type id of a build-information symbol.
pub const BUILD_INFO_ID: u16 = 0x114C;

impl Record for BuildInfo {
    open spec fn spec_type_id(&self) -> u16 {
        BUILD_INFO_ID
    }

    /// The referenced leaf.
    open spec fn payload(&self) -> Seq<u8> {
        le_u32(self.leaf.0)
    }

    open spec fn fields_valid(&self) -> bool {
        true
    }

    open spec fn offending_string(&self) -> Option<String> {
        None
    }

    fn type_id(&self) -> (r: u16) {
        BUILD_INFO_ID
    }

    fn size(&self) -> (r: usize) {
        4
    }

    fn check_fields<E>(&self) -> (r: Result<(), Error<E>>) {
        Ok(())
    }

    fn write_payload<Reloc: Clone, W: SectionWrite<Reloc>>(&self, writer: &mut W) -> (r: Result<
        (),
        Error<W::Error>,
    >) {
        write_u32(writer, self.leaf.0)
    }
}

/// A symbol record.
#[derive(Debug, Clone, Copy)]
pub enum Symbol {
    BuildInfo(BuildInfo),
}

impl Record for Symbol {
    open spec fn spec_type_id(&self) -> u16 {
        match self {
            Symbol::BuildInfo(s) => s.spec_type_id(),
        }
    }

    open spec fn payload(&self) -> Seq<u8> {
        match self {
            Symbol::BuildInfo(s) => s.payload(),
        }
    }

    open spec fn fields_valid(&self) -> bool {
        match self {
            Symbol::BuildInfo(s) => s.fields_valid(),
        }
    }

    open spec fn offending_string(&self) -> Option<String> {
        match self {
            Symbol::BuildInfo(s) => s.offending_string(),
        }
    }

    fn type_id(&self) -> (r: u16) {
        match self {
            Symbol::BuildInfo(s) => s.type_id(),
        }
    }

    fn size(&self) -> (r: usize) {
        match self {
            Symbol::BuildInfo(s) => s.size(),
        }
    }

    fn check_fields<E>(&self) -> (r: Result<(), Error<E>>) {
        match self {
            Symbol::BuildInfo(s) => s.check_fields(),
        }
    }

    fn write_payload<Reloc: Clone, W: SectionWrite<Reloc>>(&self, writer: &mut W) -> (r: Result<
        (),
        Error<W::Error>,
    >) {
        match self {
            Symbol::BuildInfo(s) => s.write_payload(writer),
        }
    }
}

/// The payload of a symbol is the sum of its fields' sizes: four bytes for
/// the leaf identifier.
pub proof fn lemma_symbol_payload_size(record: Symbol)
    ensures
        record.payload().len() == 4,
{
}

/// Writes a symbol, framed.
pub fn write<Reloc: Clone, W: SectionWrite<Reloc>>(record: &Symbol, writer: &mut W) -> (r: Result<
    (),
    Error<W::Error>,
>)
    ensures
        record_written(*record, *old(writer), *final(writer), r),
{
    write_record(record, writer)
}

/// The framed size of a symbol, saturated at `usize::MAX`.
pub fn size(record: &Symbol) -> (r: usize)
    ensures
        r == saturated(record_frame(*record).len() as int),
{
    record.size().saturating_add(4)
}

} // verus!
