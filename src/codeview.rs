use vstd::prelude::*;

use crate::encoding::{
    all_valid, appended, first_error, frames, le_u32, record_error, record_valid, stopped_at,
    write_records, write_u32,
};
use crate::error::{wu, Error};
use crate::leaf::{Leaf, LeafId};
use crate::section_write::{push_zeros, relocs_kept, RelocKind, SectionWrite};
use crate::subsection::Subsection;
use crate::symbol::{self, lemma_symbol_payload_size, Symbol};

verus! {

/// The first identifier handed out by `add_leaf`.
pub const LEAF_ID_BASE: u32 = 0x1000;

/// The word that opens both streams.
pub const SIGNATURE: u32 = 4;

/// Kind tag of a subsection of symbol records.
pub const SYMBOLS_KIND: u32 = 0xF1;

/// The type stream: the signature, then every leaf framed, in order.
pub open spec fn type_stream(leaves: Seq<Leaf>) -> Seq<u8> {
    le_u32(SIGNATURE) + frames(leaves)
}

/// Zero bytes that bring a subsection of `n` payload bytes (after its
/// 8-byte header) to a multiple of four.
pub open spec fn pad_len(n: nat) -> nat {
    ((4 - n % 4) % 4) as nat
}

/// A subsection of symbol records: kind tag, payload length, the framed
/// symbols, then zero padding.
pub open spec fn symbols_subsection(symbols: Seq<Symbol>) -> Seq<u8> {
    let payload = frames(symbols);
    le_u32(SYMBOLS_KIND) + le_u32(payload.len() as u32) + payload + Seq::new(
        pad_len(payload.len()),
        |i: int| 0u8,
    )
}

/// The payload length of the subsection fits its 32-bit field.
pub open spec fn subsection_fits<Reloc>(s: Subsection<Reloc>) -> bool {
    match s {
        Subsection::Symbols(v) => frames(v@).len() <= u32::MAX,
        Subsection::Lines(_) => true,
    }
}

/// Every subsection's payload length fits its field.
pub open spec fn all_fit<Reloc>(subs: Seq<Subsection<Reloc>>) -> bool {
    forall|i: int| 0 <= i < subs.len() ==> #[trigger] subsection_fits(subs[i])
}

/// Some subsection is of a kind that cannot be emitted.
pub open spec fn has_lines<Reloc>(subs: Seq<Subsection<Reloc>>) -> bool {
    exists|i: int| 0 <= i < subs.len() && #[trigger] subs[i] is Lines
}

/// The subsections encoded one after the other.
pub open spec fn subsections_bytes<Reloc>(subs: Seq<Subsection<Reloc>>) -> Seq<u8>
    decreases subs.len(),
{
    if subs.len() == 0 {
        Seq::empty()
    } else {
        subsections_bytes(subs.drop_last()) + match subs.last() {
            Subsection::Symbols(v) => symbols_subsection(v@),
            Subsection::Lines(_) => Seq::empty(),
        }
    }
}

/// The symbol stream: the signature, then every subsection, in order.
pub open spec fn symbol_stream<Reloc>(subs: Seq<Subsection<Reloc>>) -> Seq<u8> {
    le_u32(SIGNATURE) + subsections_bytes(subs)
}

/// Writes a subsection header: kind tag, then payload length.
fn write_subsection_header<Reloc: Clone, W: SectionWrite<Reloc>>(
    writer: &mut W,
    subsection_type: u32,
    len: u32,
) -> (r: Result<(), Error<W::Error>>)
    ensures
        appended(*old(writer), *final(writer), le_u32(subsection_type) + le_u32(len), r),
{
    let ghost w0 = *writer;
    write_u32(writer, subsection_type)?;
    let ghost w1 = *writer;
    let r = write_u32(writer, len);
    proof {
        if r is Ok {
            assert(writer.data() =~= w0.data() + (le_u32(subsection_type) + le_u32(len)));
            assert forall|k: RelocKind| #[trigger] writer.relocations(k) == w0.relocations(k) by {
                assert(w1.relocations(k) == w0.relocations(k));
            }
        }
    }
    r
}

/// Every subsection of symbol records takes a multiple of four bytes,
/// header, payload and padding together, whatever its payload size.
pub proof fn lemma_subsection_aligned(symbols: Seq<Symbol>)
    ensures
        symbols_subsection(symbols).len() % 4 == 0,
{
    let n = frames(symbols).len();
    assert(symbols_subsection(symbols).len() == 8 + n + pad_len(n));
    assert((8 + n + pad_len(n)) % 4 == 0) by (nonlinear_arith)
        requires
            pad_len(n) == ((4 - n % 4) % 4) as nat,
    ;
}

/// `n` clamped to what a `u64` can hold.
spec fn saturated_u64(n: int) -> int {
    if n <= u64::MAX {
        n
    } else {
        u64::MAX as int
    }
}

/// Writes one subsection of symbol records.
///
/// Nothing is written when the payload length does not fit its field.
fn write_symbols_subsection<Reloc: Clone, W: SectionWrite<Reloc>>(
    writer: &mut W,
    symbols: &Vec<Symbol>,
) -> (r: Result<(), Error<W::Error>>)
    ensures
        frames(symbols@).len() <= u32::MAX ==> appended(
            *old(writer),
            *final(writer),
            symbols_subsection(symbols@),
            r,
        ),
        frames(symbols@).len() > u32::MAX ==> r is Err && r->Err_0 is IntError && *final(writer)
            == *old(writer),
{
    let mut len: u64 = 0;
    let mut i: usize = 0;
    while i < symbols.len()
        invariant
            i <= symbols@.len(),
            len == saturated_u64(frames(symbols@.subrange(0, i as int)).len() as int),
        decreases symbols@.len() - i,
    {
        len = len.saturating_add(symbol::size(&symbols[i]) as u64);
        proof {
            let s = symbols@.subrange(0, i + 1);
            assert(s.drop_last() =~= symbols@.subrange(0, i as int));
        }
        i += 1;
    }
    proof {
        assert(symbols@.subrange(0, symbols@.len() as int) =~= symbols@);
    }
    let len32 = match u32::try_from(len) {
        Ok(v) => v,
        Err(e) => return Err(Error::IntError(e)),
    };
    proof {
        assert forall|j: int| 0 <= j < symbols@.len() implies #[trigger] record_valid(
            symbols@[j],
        ) by {
            lemma_symbol_payload_size(symbols@[j]);
        }
    }
    let ghost w0 = *writer;
    write_subsection_header(writer, SYMBOLS_KIND, len32)?;
    let ghost w1 = *writer;
    write_records(symbols, writer)?;
    let ghost w2 = *writer;
    let mut pad: Vec<u8> = Vec::new();
    push_zeros(&mut pad, ((4 - len % 4) % 4) as usize);
    let r = wu(writer.write(pad.as_slice()));
    proof {
        if r is Ok {
            assert(writer.data() =~= w0.data() + symbols_subsection(symbols@));
            assert forall|k: RelocKind| #[trigger] writer.relocations(k) == w0.relocations(k) by {
                assert(w1.relocations(k) == w0.relocations(k));
                assert(w2.relocations(k) == w1.relocations(k));
            }
        }
    }
    r
}

/// CodeView information for an object.
///
/// `Reloc` can be any type that carries relocation symbol information.
/// Leaves and subsections are only ever appended.
#[derive(Debug, Default)]
pub struct Codeview<Reloc> {
    leafs: Vec<Leaf>,
    subsections: Vec<Subsection<Reloc>>,
}

impl<Reloc> Codeview<Reloc> {
    /// The leaves registered so far, in registration order.
    pub closed spec fn leaves(&self) -> Seq<Leaf> {
        self.leafs@
    }

    /// The subsections scheduled so far, in order.
    pub closed spec fn subsections(&self) -> Seq<Subsection<Reloc>> {
        self.subsections@
    }

    /// Create a new, empty `Codeview`.
    pub fn new() -> (r: Codeview<Reloc>)
        ensures
            r.leaves() == Seq::<Leaf>::empty(),
            r.subsections() == Seq::<Subsection<Reloc>>::empty(),
    {
        Codeview { leafs: Vec::new(), subsections: Vec::new() }
    }

    /// Registers a leaf and returns its identifier: the number of leaves
    /// registered before it, plus `LEAF_ID_BASE`.
    pub fn add_leaf(&mut self, leaf: Leaf) -> (r: LeafId)
        requires
            old(self).leaves().len() + LEAF_ID_BASE <= u32::MAX,
        ensures
            r.0 == old(self).leaves().len() + LEAF_ID_BASE,
            final(self).leaves() == old(self).leaves().push(leaf),
            final(self).subsections() == old(self).subsections(),
    {
        let id = self.leafs.len() as u32 + LEAF_ID_BASE;
        self.leafs.push(leaf);
        LeafId(id)
    }

    /// Schedules a subsection for the symbol stream.
    pub fn add_subsection(&mut self, subsection: Subsection<Reloc>)
        ensures
            final(self).subsections() == old(self).subsections().push(subsection),
            final(self).leaves() == old(self).leaves(),
    {
        self.subsections.push(subsection);
    }
}

impl<Reloc: Clone> Codeview<Reloc> {
    /// Writes the type stream: the signature, then every leaf, framed.
    ///
    /// Stops at the first leaf that cannot be written, before writing any
    /// of its bytes.
    pub fn write_type_stream<W: SectionWrite<Reloc>>(&self, writer: &mut W) -> (r: Result<
        (),
        Error<W::Error>,
    >)
        ensures
            all_valid(self.leaves()) ==> appended(
                *old(writer),
                *final(writer),
                type_stream(self.leaves()),
                r,
            ),
            !all_valid(self.leaves()) ==> r is Err && (r->Err_0 is WriteError || first_error(
                self.leaves(),
                r->Err_0,
            )),
            !all_valid(self.leaves()) && !(r->Err_0 is WriteError) ==> stopped_at(
                self.leaves(),
                old(writer).data() + le_u32(SIGNATURE),
                final(writer).data(),
                r->Err_0,
            ) && relocs_kept(*old(writer), *final(writer)),
            !all_valid(self.leaves()) && old(writer).infallible() ==> !(r->Err_0 is WriteError),
            final(writer).infallible() == old(writer).infallible(),
    {
        let ghost w0 = *writer;
        write_u32(writer, SIGNATURE)?;
        let ghost w1 = *writer;
        let r = write_records(&self.leafs, writer);
        proof {
            if r is Ok && all_valid(self.leaves()) {
                assert(writer.data() =~= w0.data() + type_stream(self.leaves()));
            }
            if r is Ok || !(r->Err_0 is WriteError) {
                assert forall|k: RelocKind| #[trigger] writer.relocations(k) == w0.relocations(k) by {
                    assert(w1.relocations(k) == w0.relocations(k));
                }
            }
            if !all_valid(self.leaves()) && !(r->Err_0 is WriteError) {
                let e = r->Err_0;
                let i = choose|i: int|
                    0 <= i < self.leaves().len() && all_valid(self.leaves().subrange(0, i))
                        && !record_valid(#[trigger] self.leaves()[i]) && record_error(
                        self.leaves()[i],
                        e,
                    ) && w1.data() == w0.data() + le_u32(SIGNATURE)
                        && writer.data() == w1.data() + frames(self.leaves().subrange(0, i));
                assert(first_error(self.leaves(), e));
            }
        }
        r
    }

    /// Writes the symbol stream: the signature, then every subsection.
    ///
    /// A subsection of lines cannot be emitted: then nothing at all is
    /// written and `UnsupportedSubsection` is returned.
    pub fn write_symbol_stream<W: SectionWrite<Reloc>>(&self, writer: &mut W) -> (r: Result<
        (),
        Error<W::Error>,
    >)
        ensures
            has_lines(self.subsections()) ==> (r matches Err(Error::UnsupportedSubsection)),
            has_lines(self.subsections()) ==> *final(writer) == *old(writer),
            !has_lines(self.subsections()) && all_fit(self.subsections()) ==> appended(
                *old(writer),
                *final(writer),
                symbol_stream(self.subsections()),
                r,
            ),
            !has_lines(self.subsections()) && !all_fit(self.subsections()) ==> r is Err && (
            r->Err_0 is WriteError || r->Err_0 is IntError),
            !has_lines(self.subsections()) && !all_fit(self.subsections()) && old(
                writer,
            ).infallible() ==> r->Err_0 is IntError,
            final(writer).infallible() == old(writer).infallible(),
    {
        let mut k: usize = 0;
        while k < self.subsections.len()
            invariant
                k <= self.subsections@.len(),
                forall|j: int| 0 <= j < k ==> !(#[trigger] self.subsections@[j] is Lines),
            decreases self.subsections@.len() - k,
        {
            if let Subsection::Lines(_) = &self.subsections[k] {
                return Err(Error::UnsupportedSubsection);
            }
            k += 1;
        }
        let ghost subs = self.subsections@;
        let ghost w0 = *writer;
        let ghost start = writer.data();
        write_u32(writer, SIGNATURE)?;
        let ghost w1 = *writer;
        let mut i: usize = 0;
        while i < self.subsections.len()
            invariant
                i <= subs.len(),
                subs == self.subsections@,
                !has_lines(subs),
                all_fit(subs.subrange(0, i as int)),
                writer.data() == start + le_u32(SIGNATURE) + subsections_bytes(
                    subs.subrange(0, i as int),
                ),
                relocs_kept(w0, *writer),
                writer.infallible() == w0.infallible(),
                w0 == *old(writer),
            decreases subs.len() - i,
        {
            proof {
                assert(subsection_fits(subs[i as int]) || !all_fit(subs));
            }
            match &self.subsections[i] {
                Subsection::Symbols(symbols) => {
                    write_symbols_subsection(writer, symbols)?;
                },
                Subsection::Lines(_) => {
                    return Err(Error::UnsupportedSubsection);
                },
            }
            proof {
                let s = subs.subrange(0, i + 1);
                assert(s.drop_last() =~= subs.subrange(0, i as int));
                assert forall|j: int| 0 <= j < i + 1 implies #[trigger] subsection_fits(s[j]) by {
                    if j < i {
                        assert(s[j] == subs.subrange(0, i as int)[j]);
                    }
                }
            }
            i += 1;
        }
        proof {
            assert(subs.subrange(0, subs.len() as int) =~= subs);
            assert(writer.data() =~= start + symbol_stream(subs));
        }
        Ok(())
    }

    /// Write CodeView information to object sections: the type stream to
    /// the sink that `writer_factory` gives for `.debug$T`, then the symbol
    /// stream to the one it gives for `.debug$S`.
    ///
    /// Each stream is written as `write_type_stream` and
    /// `write_symbol_stream` say; an error stops the whole operation.
    pub fn write<W: SectionWrite<Reloc>, F: FnMut(&str) -> W>(&self, writer_factory: F) -> (r:
        Result<(), Error<W::Error>>)
        requires
            forall|name: &str| call_requires(writer_factory, (name,)),
        ensures
            r is Ok ==> all_valid(self.leaves()) && !has_lines(self.subsections()) && all_fit(
                self.subsections(),
            ),
            !all_valid(self.leaves()) ==> r is Err && (r->Err_0 is WriteError || first_error(
                self.leaves(),
                r->Err_0,
            )),
            all_valid(self.leaves()) && has_lines(self.subsections()) ==> r is Err && (
            r->Err_0 is WriteError || r->Err_0 is UnsupportedSubsection),
            all_valid(self.leaves()) && !has_lines(self.subsections()) && !all_fit(
                self.subsections(),
            ) ==> r is Err && (r->Err_0 is WriteError || r->Err_0 is IntError),
            all_valid(self.leaves()) && !has_lines(self.subsections()) && all_fit(
                self.subsections(),
            ) ==> (r is Err ==> r->Err_0 is WriteError),
            (forall|name: &str, w: W| #[trigger] call_ensures(writer_factory, (name,), w)
                ==> w.infallible()) && all_valid(self.leaves()) && !has_lines(self.subsections())
                && all_fit(self.subsections()) ==> r is Ok,
    {
        let mut writer_factory = writer_factory;
        let mut type_section = writer_factory(".debug$T");
        self.write_type_stream(&mut type_section)?;
        let mut symbol_section = writer_factory(".debug$S");
        self.write_symbol_stream(&mut symbol_section)
    }
}

} // verus!
