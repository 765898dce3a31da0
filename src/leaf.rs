use vstd::prelude::*;
use vstd::utf8::encode_utf8;

use crate::encoding::{
    appended,
    check_nul_free, cstr_bytes, frame_fits, record_frame, cstr_size, le_u16, le_u32, nul_free, record_written, saturated,
    write_cstr, write_record, write_u16, write_u32, Record,
};
use crate::error::Error;
use crate::section_write::{relocs_kept, SectionWrite};

verus! {

/// An identifier for a leaf record. Zero refers to no leaf.
#[derive(Debug, Clone, Copy)]
pub struct LeafId(pub u32);

impl LeafId {
    /// The identifier that refers to no leaf.
    pub fn null() -> (r: LeafId)
        ensures
            r.0 == 0,
    {
        LeafId(0)
    }
}

/// The bytes of a sequence of leaf identifiers: four little-endian bytes
/// each, with no count.
pub open spec fn ids_bytes(ids: Seq<LeafId>) -> Seq<u8>
    decreases ids.len(),
{
    if ids.len() == 0 {
        Seq::empty()
    } else {
        ids_bytes(ids.drop_last()) + le_u32(ids.last().0)
    }
}

/// Each identifier takes four bytes.
pub proof fn lemma_ids_bytes_len(ids: Seq<LeafId>)
    ensures
        ids_bytes(ids).len() == 4 * ids.len(),
    decreases ids.len(),
{
    if ids.len() > 0 {
        lemma_ids_bytes_len(ids.drop_last());
    }
}

/// Writes the identifiers one after the other.
fn write_ids<Reloc: Clone, W: SectionWrite<Reloc>>(writer: &mut W, ids: &Vec<LeafId>) -> (r: Result<
    (),
    Error<W::Error>,
>)
    ensures
        appended(*old(writer), *final(writer), ids_bytes(ids@), r),
{
    let ghost w0 = *writer;
    let mut i: usize = 0;
    while i < ids.len()
        invariant
            i <= ids@.len(),
            writer.data() == w0.data() + ids_bytes(ids@.subrange(0, i as int)),
            relocs_kept(w0, *writer),
            writer.infallible() == w0.infallible(),
            w0 == *old(writer),
        decreases ids@.len() - i,
    {
        write_u32(writer, ids[i].0)?;
        proof {
            let s = ids@.subrange(0, i + 1);
            assert(s.drop_last() =~= ids@.subrange(0, i as int));
        }
        i += 1;
    }
    assert(ids@.subrange(0, ids@.len() as int) =~= ids@);
    Ok(())
}

/// The size of `n` identifiers, saturated at `usize::MAX`.
fn ids_size(ids: &Vec<LeafId>) -> (r: usize)
    ensures
        r == saturated(ids_bytes(ids@).len() as int),
{
    proof {
        lemma_ids_bytes_len(ids@);
    }
    match ids.len().checked_mul(4) {
        Some(n) => n,
        None => usize::MAX,
    }
}

/// Build information.
#[derive(Debug, Clone)]
pub struct BuildInfo {
    /// Arguments for build information. Point to `Leaf::StringId`.
    pub args: Vec<LeafId>,
}

impl BuildInfo {
    /// Create a new `BuildInfo` with the common argument convention.
    pub fn new(
        current_dir: LeafId,
        build_tool: LeafId,
        source_file: LeafId,
        program_database_file: LeafId,
        command_args: LeafId,
    ) -> (r: BuildInfo)
        ensures
            r.args@ == seq![
                current_dir,
                build_tool,
                source_file,
                program_database_file,
                command_args,
            ],
    {
        let args = vec![
            current_dir,
            build_tool,
            source_file,
            program_database_file,
            command_args,
        ];
        proof {
            assert(args@ =~= seq![
                current_dir,
                build_tool,
                source_file,
                program_database_file,
                command_args,
            ]);
        }
        BuildInfo { args }
    }
}

/// Type id of a build-information leaf.
pub const BUILD_INFO_ID: u16 = 0x1603;

impl Record for BuildInfo {
    open spec fn spec_type_id(&self) -> u16 {
        BUILD_INFO_ID
    }

    /// A 16-bit argument count, then the arguments.
    open spec fn payload(&self) -> Seq<u8> {
        le_u16(self.args@.len() as u16) + ids_bytes(self.args@)
    }

    open spec fn fields_valid(&self) -> bool {
        self.args@.len() <= u16::MAX
    }

    open spec fn offending_string(&self) -> Option<String> {
        None
    }

    fn type_id(&self) -> (r: u16) {
        BUILD_INFO_ID
    }

    fn size(&self) -> (r: usize) {
        2usize.saturating_add(ids_size(&self.args))
    }

    fn check_fields<E>(&self) -> (r: Result<(), Error<E>>) {
        match u16::try_from(self.args.len()) {
            Ok(_) => Ok(()),
            Err(e) => Err(Error::IntError(e)),
        }
    }

    fn write_payload<Reloc: Clone, W: SectionWrite<Reloc>>(&self, writer: &mut W) -> (r: Result<
        (),
        Error<W::Error>,
    >) {
        let ghost start = old(writer).data();
        write_u16(writer, self.args.len() as u16)?;
        let r = write_ids(writer, &self.args);
        assert(r is Ok ==> writer.data() =~= start + self.payload());
        r
    }
}

/// Substring list.
#[derive(Debug, Clone)]
pub struct SubstrList {
    /// Substrings. Point to `Leaf::StringId`.
    pub strings: Vec<LeafId>,
}

/// Type id of a substring-list leaf.
pub const SUBSTR_LIST_ID: u16 = 0x1604;

impl Record for SubstrList {
    open spec fn spec_type_id(&self) -> u16 {
        SUBSTR_LIST_ID
    }

    /// A 32-bit count, then the substrings.
    open spec fn payload(&self) -> Seq<u8> {
        le_u32(self.strings@.len() as u32) + ids_bytes(self.strings@)
    }

    open spec fn fields_valid(&self) -> bool {
        self.strings@.len() <= u32::MAX
    }

    open spec fn offending_string(&self) -> Option<String> {
        None
    }

    fn type_id(&self) -> (r: u16) {
        SUBSTR_LIST_ID
    }

    fn size(&self) -> (r: usize) {
        4usize.saturating_add(ids_size(&self.strings))
    }

    fn check_fields<E>(&self) -> (r: Result<(), Error<E>>) {
        match u32::try_from(self.strings.len()) {
            Ok(_) => Ok(()),
            Err(e) => Err(Error::IntError(e)),
        }
    }

    fn write_payload<Reloc: Clone, W: SectionWrite<Reloc>>(&self, writer: &mut W) -> (r: Result<
        (),
        Error<W::Error>,
    >) {
        let ghost start = old(writer).data();
        write_u32(writer, self.strings.len() as u32)?;
        let r = write_ids(writer, &self.strings);
        assert(r is Ok ==> writer.data() =~= start + self.payload());
        r
    }
}

/// String ID.
#[derive(Debug, Clone)]
pub struct StringId {
    /// Substring list. Point to `Leaf::SubstrList`.
    pub substr: LeafId,
    /// String content.
    pub content: String,
}

/// Type id of a string-id leaf.
pub const STRING_ID_ID: u16 = 0x1605;

impl Record for StringId {
    open spec fn spec_type_id(&self) -> u16 {
        STRING_ID_ID
    }

    /// The substring-list reference, then the NUL-terminated content.
    open spec fn payload(&self) -> Seq<u8> {
        le_u32(self.substr.0) + cstr_bytes(self.content@)
    }

    open spec fn fields_valid(&self) -> bool {
        nul_free(self.content@)
    }

    open spec fn offending_string(&self) -> Option<String> {
        Some(self.content)
    }

    fn type_id(&self) -> (r: u16) {
        STRING_ID_ID
    }

    fn size(&self) -> (r: usize) {
        4usize.saturating_add(cstr_size(&self.content))
    }

    fn check_fields<E>(&self) -> (r: Result<(), Error<E>>) {
        if check_nul_free(&self.content) {
            Ok(())
        } else {
            Err(Error::StringError(self.content.clone()))
        }
    }

    fn write_payload<Reloc: Clone, W: SectionWrite<Reloc>>(&self, writer: &mut W) -> (r: Result<
        (),
        Error<W::Error>,
    >) {
        let ghost start = old(writer).data();
        write_u32(writer, self.substr.0)?;
        let r = write_cstr(writer, &self.content);
        assert(r is Ok ==> writer.data() =~= start + self.payload());
        r
    }
}

/// A record ("leaf") in the CodeView type section.
#[derive(Debug, Clone)]
pub enum Leaf {
    BuildInfo(BuildInfo),
    SubstrList(SubstrList),
    StringId(StringId),
}

impl Record for Leaf {
    open spec fn spec_type_id(&self) -> u16 {
        match self {
            Leaf::BuildInfo(s) => s.spec_type_id(),
            Leaf::SubstrList(s) => s.spec_type_id(),
            Leaf::StringId(s) => s.spec_type_id(),
        }
    }

    open spec fn payload(&self) -> Seq<u8> {
        match self {
            Leaf::BuildInfo(s) => s.payload(),
            Leaf::SubstrList(s) => s.payload(),
            Leaf::StringId(s) => s.payload(),
        }
    }

    open spec fn fields_valid(&self) -> bool {
        match self {
            Leaf::BuildInfo(s) => s.fields_valid(),
            Leaf::SubstrList(s) => s.fields_valid(),
            Leaf::StringId(s) => s.fields_valid(),
        }
    }

    open spec fn offending_string(&self) -> Option<String> {
        match self {
            Leaf::BuildInfo(s) => s.offending_string(),
            Leaf::SubstrList(s) => s.offending_string(),
            Leaf::StringId(s) => s.offending_string(),
        }
    }

    fn type_id(&self) -> (r: u16) {
        match self {
            Leaf::BuildInfo(s) => s.type_id(),
            Leaf::SubstrList(s) => s.type_id(),
            Leaf::StringId(s) => s.type_id(),
        }
    }

    fn size(&self) -> (r: usize) {
        match self {
            Leaf::BuildInfo(s) => s.size(),
            Leaf::SubstrList(s) => s.size(),
            Leaf::StringId(s) => s.size(),
        }
    }

    fn check_fields<E>(&self) -> (r: Result<(), Error<E>>) {
        match self {
            Leaf::BuildInfo(s) => s.check_fields(),
            Leaf::SubstrList(s) => s.check_fields(),
            Leaf::StringId(s) => s.check_fields(),
        }
    }

    fn write_payload<Reloc: Clone, W: SectionWrite<Reloc>>(&self, writer: &mut W) -> (r: Result<
        (),
        Error<W::Error>,
    >) {
        match self {
            Leaf::BuildInfo(s) => s.write_payload(writer),
            Leaf::SubstrList(s) => s.write_payload(writer),
            Leaf::StringId(s) => s.write_payload(writer),
        }
    }
}

/// The payload of each leaf kind is the sum of its fields' sizes: the
/// length field, then four bytes per identifier; or the identifier, then
/// the string's bytes and its terminator.
pub proof fn lemma_leaf_payload_size(record: Leaf)
    ensures
        record.payload().len() == match record {
            Leaf::BuildInfo(s) => 2 + 4 * s.args@.len(),
            Leaf::SubstrList(s) => 4 + 4 * s.strings@.len(),
            Leaf::StringId(s) => 4 + encode_utf8(s.content@).len() + 1,
        },
{
    match record {
        Leaf::BuildInfo(s) => lemma_ids_bytes_len(s.args@),
        Leaf::SubstrList(s) => lemma_ids_bytes_len(s.strings@),
        Leaf::StringId(s) => {},
    }
}

/// A string leaf whose content holds a NUL byte, and whose payload fits a
/// frame, is refused with that string, and the sink is left as it was.
pub proof fn lemma_nul_refused<Reloc: Clone, W: SectionWrite<Reloc>>(
    record: StringId,
    before: W,
    after: W,
    r: Result<(), Error<W::Error>>,
)
    requires
        record_written(Leaf::StringId(record), before, after, r),
        !nul_free(record.content@),
        frame_fits(record.payload().len()),
    ensures
        r == Err::<(), Error<W::Error>>(Error::StringError(record.content)),
        after == before,
{
}

/// Writes a leaf, framed.
pub fn write<Reloc: Clone, W: SectionWrite<Reloc>>(record: &Leaf, writer: &mut W) -> (r: Result<
    (),
    Error<W::Error>,
>)
    ensures
        record_written(*record, *old(writer), *final(writer), r),
{
    write_record(record, writer)
}

/// The framed size of a leaf, saturated at `usize::MAX`.
pub fn size(record: &Leaf) -> (r: usize)
    ensures
        r == saturated(record_frame(*record).len() as int),
{
    record.size().saturating_add(4)
}

} // verus!
