use vstd::prelude::*;
use vstd::utf8::encode_utf8;

use crate::error::{wu, Error};
use crate::section_write::{relocs_kept, RelocKind, SectionWrite};

verus! {

/// The two little-endian bytes of `v`.
pub open spec fn le_u16(v: u16) -> Seq<u8> {
    seq![(v % 256) as u8, (v / 256) as u8]
}

/// The four little-endian bytes of `v`.
pub open spec fn le_u32(v: u32) -> Seq<u8> {
    seq![
        (v % 256) as u8,
        ((v / 256) % 256) as u8,
        ((v / 65536) % 256) as u8,
        (v / 16777216) as u8,
    ]
}

/// `n` clamped to what a `usize` can hold.
pub open spec fn saturated(n: int) -> int {
    if n <= usize::MAX {
        n
    } else {
        usize::MAX as int
    }
}

/// Largest payload whose total length (payload and type id) fits the
/// 16-bit length field of a frame.
pub const MAX_PAYLOAD: usize = 65533;

/// Whether a payload of `len` bytes can be framed.
pub open spec fn frame_fits(len: nat) -> bool {
    len <= MAX_PAYLOAD
}

/// A framed record: 16-bit total length (payload plus the type id), 16-bit
/// type id, then the payload.
pub open spec fn frame(type_id: u16, payload: Seq<u8>) -> Seq<u8> {
    le_u16((payload.len() + 2) as u16) + le_u16(type_id) + payload
}

/// What a write of `bytes` does to a sink: on success exactly `bytes` are
/// appended and no relocation is registered; the only error is the sink's;
/// a sink that never fails gives success, and stays such a sink.
pub open spec fn appended<Reloc: Clone, W: SectionWrite<Reloc>>(
    before: W,
    after: W,
    bytes: Seq<u8>,
    r: Result<(), Error<W::Error>>,
) -> bool {
    &&& r is Ok ==> after.data() == before.data() + bytes && relocs_kept(before, after)
    &&& r is Err ==> r->Err_0 is WriteError
    &&& before.infallible() ==> r is Ok
    &&& after.infallible() == before.infallible()
}

/// A record kind: a type-id constant and an ordered list of fields.
///
/// The framing of every kind is done once, by `write_record`; a kind only
/// says how its fields are sized, checked and written.
pub trait Record: Sized {
    /// The type id of the record, as the frame carries it.
    spec fn spec_type_id(&self) -> u16;

    /// The payload: the fields' encodings, in declared order.
    spec fn payload(&self) -> Seq<u8>;

    /// The fields can be encoded: strings hold no NUL byte and every
    /// length field can hold the count it describes.
    spec fn fields_valid(&self) -> bool;

    /// Where the fields cannot be encoded: the string that holds a NUL
    /// byte, or `None` where a count does not fit its length field.
    spec fn offending_string(&self) -> Option<String>;

    fn type_id(&self) -> (r: u16)
        ensures
            r == self.spec_type_id(),
    ;

    /// The payload size, the sum of the fields' sizes, saturated at
    /// `usize::MAX`.
    fn size(&self) -> (r: usize)
        ensures
            r == saturated(self.payload().len() as int),
    ;

    /// Checks that every field can be encoded.
    fn check_fields<E>(&self) -> (r: Result<(), Error<E>>)
        ensures
            r is Ok <==> self.fields_valid(),
            r is Err ==> match self.offending_string() {
                Some(s) => r == Err::<(), Error<E>>(Error::StringError(s)),
                None => r->Err_0 is IntError,
            },
    ;

    /// Writes the fields in declared order.
    fn write_payload<Reloc: Clone, W: SectionWrite<Reloc>>(&self, writer: &mut W) -> (r: Result<
        (),
        Error<W::Error>,
    >)
        requires
            self.fields_valid(),
        ensures
            appended(*old(writer), *final(writer), self.payload(), r),
    ;
}

/// The framed encoding of a record.
pub open spec fn record_frame<R: Record>(record: R) -> Seq<u8> {
    frame(record.spec_type_id(), record.payload())
}

/// The record can be written: its payload fits a frame and its fields can
/// be encoded.
pub open spec fn record_valid<R: Record>(record: R) -> bool {
    frame_fits(record.payload().len()) && record.fields_valid()
}

/// `e` is the error that writing `record` reports before writing anything.
pub open spec fn record_error<R: Record, E>(record: R, e: Error<E>) -> bool {
    if !frame_fits(record.payload().len()) {
        e is IntError
    } else {
        field_error(record, e)
    }
}

/// `e` is the error reported for a record whose fields cannot be encoded.
pub open spec fn field_error<R: Record, E>(record: R, e: Error<E>) -> bool {
    match record.offending_string() {
        Some(s) => e == Error::<E>::StringError(s),
        None => e is IntError,
    }
}

/// What `write_record` does to a sink, whatever the sink answers: an invalid
/// record leaves the sink untouched and reports its error; a valid one is
/// appended whole unless the sink fails.
pub open spec fn record_written<R: Record, Reloc: Clone, W: SectionWrite<Reloc>>(
    record: R,
    before: W,
    after: W,
    r: Result<(), Error<W::Error>>,
) -> bool {
    if record_valid(record) {
        appended(before, after, record_frame(record), r)
    } else {
        &&& r is Err
        &&& record_error(record, r->Err_0)
        &&& after == before
    }
}

/// Writes `v` as two little-endian bytes.
pub fn write_u16<Reloc: Clone, W: SectionWrite<Reloc>>(writer: &mut W, v: u16) -> (r: Result<
    (),
    Error<W::Error>,
>)
    ensures
        appended(*old(writer), *final(writer), le_u16(v), r),
{
    let bytes: Vec<u8> = vec![(v % 256) as u8, (v / 256) as u8];
    proof {
        assert(bytes@ =~= le_u16(v));
    }
    wu(writer.write(bytes.as_slice()))
}

/// Writes `v` as four little-endian bytes.
pub fn write_u32<Reloc: Clone, W: SectionWrite<Reloc>>(writer: &mut W, v: u32) -> (r: Result<
    (),
    Error<W::Error>,
>)
    ensures
        appended(*old(writer), *final(writer), le_u32(v), r),
{
    let bytes: Vec<u8> = vec![
        (v % 256) as u8,
        ((v / 256) % 256) as u8,
        ((v / 65536) % 256) as u8,
        (v / 16777216) as u8,
    ];
    proof {
        assert(bytes@ =~= le_u32(v));
    }
    wu(writer.write(bytes.as_slice()))
}

/// The bytes of a NUL-terminated string field.
pub open spec fn cstr_bytes(s: Seq<char>) -> Seq<u8> {
    encode_utf8(s).push(0u8)
}

/// The string holds no NUL byte.
pub open spec fn nul_free(s: Seq<char>) -> bool {
    forall|i: int| 0 <= i < encode_utf8(s).len() ==> encode_utf8(s)[i] != 0u8
}

/// Whether `s` holds no NUL byte.
pub fn check_nul_free(s: &String) -> (r: bool)
    ensures
        r == nul_free(s@),
{
    let bytes = s.as_str().as_bytes();
    let mut i: usize = 0;
    while i < bytes.len()
        invariant
            i <= bytes@.len(),
            bytes@ == encode_utf8(s@),
            forall|j: int| 0 <= j < i ==> bytes@[j] != 0u8,
        decreases bytes@.len() - i,
    {
        if bytes[i] == 0 {
            return false;
        }
        i += 1;
    }
    true
}

/// The size of a NUL-terminated string field, saturated at `usize::MAX`.
pub fn cstr_size(s: &String) -> (r: usize)
    ensures
        r == saturated(cstr_bytes(s@).len() as int),
{
    let bytes = s.as_str().as_bytes();
    bytes.len().saturating_add(1)
}

/// Writes the string's UTF-8 bytes and a NUL terminator.
pub fn write_cstr<Reloc: Clone, W: SectionWrite<Reloc>>(writer: &mut W, s: &String) -> (r: Result<
    (),
    Error<W::Error>,
>)
    ensures
        appended(*old(writer), *final(writer), cstr_bytes(s@), r),
{
    let ghost w0 = *writer;
    let bytes = s.as_str().as_bytes();
    wu(writer.write(bytes))?;
    let ghost w1 = *writer;
    let nul: Vec<u8> = vec![0u8];
    let r = wu(writer.write(nul.as_slice()));
    proof {
        assert(nul@ =~= seq![0u8]);
        assert(encode_utf8(s@) + seq![0u8] =~= cstr_bytes(s@));
        if r is Ok {
            assert(writer.data() =~= w0.data() + cstr_bytes(s@));
            assert forall|k: RelocKind| #[trigger] writer.relocations(k) == w0.relocations(k) by {
                assert(w1.relocations(k) == w0.relocations(k));
            }
        }
    }
    r
}

/// Writes one record, framed: total length, type id, then the fields.
///
/// Nothing is written for a record whose payload does not fit a frame or
/// whose fields cannot be encoded.
pub fn write_record<Reloc: Clone, R: Record, W: SectionWrite<Reloc>>(
    record: &R,
    writer: &mut W,
) -> (r: Result<(), Error<W::Error>>)
    ensures
        record_written(*record, *old(writer), *final(writer), r),
{
    let size = record.size();
    let total = match u16::try_from(size.saturating_add(2)) {
        Ok(t) => t,
        Err(e) => return Err(Error::IntError(e)),
    };
    record.check_fields()?;
    let ghost start = *writer;
    write_u16(writer, total)?;
    write_u16(writer, record.type_id())?;
    let r = record.write_payload(writer);
    proof {
        if r is Ok {
            assert(writer.data() =~= start.data() + record_frame(*record));
        }
    }
    r
}

/// The framed records one after the other.
pub open spec fn frames<R: Record>(records: Seq<R>) -> Seq<u8>
    decreases records.len(),
{
    if records.len() == 0 {
        Seq::empty()
    } else {
        frames(records.drop_last()) + record_frame(records.last())
    }
}

/// Every record can be written.
pub open spec fn all_valid<R: Record>(records: Seq<R>) -> bool {
    forall|i: int| 0 <= i < records.len() ==> #[trigger] record_valid(records[i])
}

/// `e` is the error of the first record that cannot be written.
pub open spec fn first_error<R: Record, E>(records: Seq<R>, e: Error<E>) -> bool {
    exists|i: int|
        0 <= i < records.len() && all_valid(records.subrange(0, i)) && !record_valid(
            #[trigger] records[i],
        ) && record_error(records[i], e)
}

/// Writing `records` stopped, with error `e`, at the first record that
/// cannot be written: the data went from `before` to `after` by the frames
/// of the records ahead of it.
pub open spec fn stopped_at<R: Record, E>(
    records: Seq<R>,
    before: Seq<u8>,
    after: Seq<u8>,
    e: Error<E>,
) -> bool {
    exists|i: int|
        0 <= i < records.len() && all_valid(records.subrange(0, i)) && !record_valid(
            #[trigger] records[i],
        ) && record_error(records[i], e) && after == before + frames(records.subrange(0, i))
}

/// Writes the records, framed, in order; stops at the first failure.
pub fn write_records<Reloc: Clone, R: Record, W: SectionWrite<Reloc>>(
    records: &Vec<R>,
    writer: &mut W,
) -> (r: Result<(), Error<W::Error>>)
    ensures
        all_valid(records@) ==> appended(*old(writer), *final(writer), frames(records@), r),
        !all_valid(records@) ==> r is Err,
        !all_valid(records@) && !(r->Err_0 is WriteError) ==> stopped_at(
            records@,
            old(writer).data(),
            final(writer).data(),
            r->Err_0,
        ) && relocs_kept(*old(writer), *final(writer)),
        !all_valid(records@) && old(writer).infallible() ==> !(r->Err_0 is WriteError),
        final(writer).infallible() == old(writer).infallible(),
{
    let ghost w0 = *writer;
    let mut i: usize = 0;
    while i < records.len()
        invariant
            i <= records@.len(),
            all_valid(records@.subrange(0, i as int)),
            writer.data() == w0.data() + frames(records@.subrange(0, i as int)),
            relocs_kept(w0, *writer),
            writer.infallible() == w0.infallible(),
            w0 == *old(writer),
        decreases records@.len() - i,
    {
        let r = write_record(&records[i], writer);
        if r.is_err() {
            proof {
                if !record_valid(records@[i as int]) {
                    assert(stopped_at(records@, w0.data(), writer.data(), r->Err_0));
                } else {
                    assert forall|j: int| 0 <= j < records@.len() implies #[trigger] record_valid(
                        records@[j],
                    ) || !all_valid(records@) by {}
                }
            }
            return r;
        }
        proof {
            let s = records@.subrange(0, i + 1);
            assert(s.drop_last() =~= records@.subrange(0, i as int));
            assert forall|j: int| 0 <= j < i + 1 implies #[trigger] record_valid(s[j]) by {
                if j < i {
                    assert(s[j] == records@.subrange(0, i as int)[j]);
                }
            }
        }
        i += 1;
    }
    proof {
        assert(records@.subrange(0, records@.len() as int) =~= records@);
    }
    Ok(())
}

/// A record whose payload would not fit the 16-bit length field is refused
/// with an integer overflow, and the sink is left as it was: the length is
/// never truncated.
pub proof fn lemma_oversized_refused<R: Record, Reloc: Clone, W: SectionWrite<Reloc>>(
    record: R,
    before: W,
    after: W,
    r: Result<(), Error<W::Error>>,
)
    requires
        record_written(record, before, after, r),
        record.payload().len() > MAX_PAYLOAD,
    ensures
        r matches Err(Error::IntError(_)),
        after == before,
{
}

/// A framed record is four bytes longer than its payload, and its length
/// field holds the payload size plus the two bytes of the type id.
pub proof fn lemma_frame_length(type_id: u16, payload: Seq<u8>)
    requires
        frame_fits(payload.len()),
    ensures
        frame(type_id, payload).len() == payload.len() + 4,
        frame(type_id, payload).subrange(0, 2) == le_u16((payload.len() + 2) as u16),
        frame(type_id, payload).subrange(2, 4) == le_u16(type_id),
        frame(type_id, payload).subrange(4, payload.len() + 4int) == payload,
{
    let f = frame(type_id, payload);
    assert(f.subrange(0, 2) =~= le_u16((payload.len() + 2) as u16));
    assert(f.subrange(2, 4) =~= le_u16(type_id));
    assert(f.subrange(4, payload.len() + 4int) =~= payload);
}

} // verus!
