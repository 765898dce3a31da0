use vstd::prelude::*;

verus! {

/// The three kinds of relocation that a sink can record on a placeholder.
#[derive(Debug, Clone, Copy, PartialEq, Eq, Structural)]
pub enum RelocKind {
    /// Relative virtual address of the target (a 4-byte island).
    Rva,
    /// Index of the section holding the target (a 2-byte island).
    Section,
    /// Offset of the target within its section (a 4-byte island).
    Secrel,
}

/// A byte-oriented sink that supports adding relocation information.
///
/// `Reloc` can be any type that carries relocation symbol information.
/// The sink is seen through two views: the bytes written so far, and for
/// each relocation kind the (offset, target) pairs registered so far.
pub trait SectionWrite<Reloc: Clone>: Sized {
    /// Type for reporting error.
    type Error;

    /// The bytes written to the sink so far.
    spec fn data(&self) -> Seq<u8>;

    /// The relocations of the given kind registered so far, in order.
    spec fn relocations(&self, kind: RelocKind) -> Seq<(usize, Reloc)>;

    /// The sink never fails: each of its calls returns `Ok`.
    spec fn infallible(&self) -> bool;

    /// Write plain data into the sink.
    fn write(&mut self, data: &[u8]) -> (r: Result<(), Self::Error>)
        ensures
            old(self).infallible() ==> r is Ok,
            final(self).infallible() == old(self).infallible(),
            r is Ok ==> final(self).data() == old(self).data() + data@,
            r is Ok ==> forall|k: RelocKind| #[trigger]
                final(self).relocations(k) == old(self).relocations(k),
    ;

    /// Write a relative virtual address with relocation: a 4-byte zero
    /// island with an `Rva` relocation on it.
    fn write_rva(&mut self, reloc: &Reloc) -> (r: Result<(), Self::Error>)
        ensures
            old(self).infallible() ==> r is Ok,
            final(self).infallible() == old(self).infallible(),
            r is Ok ==> placeholder_written(
                old(self).data(),
                final(self).data(),
                old(self).relocations(RelocKind::Rva),
                final(self).relocations(RelocKind::Rva),
                *reloc,
                4,
            ),
            r is Ok ==> forall|k: RelocKind|
                k != RelocKind::Rva ==> #[trigger] final(self).relocations(k)
                    == old(self).relocations(k),
    ;

    /// Write a section index with relocation: a 2-byte zero island with a
    /// `Section` relocation on it.
    fn write_section(&mut self, reloc: &Reloc) -> (r: Result<(), Self::Error>)
        ensures
            old(self).infallible() ==> r is Ok,
            final(self).infallible() == old(self).infallible(),
            r is Ok ==> placeholder_written(
                old(self).data(),
                final(self).data(),
                old(self).relocations(RelocKind::Section),
                final(self).relocations(RelocKind::Section),
                *reloc,
                2,
            ),
            r is Ok ==> forall|k: RelocKind|
                k != RelocKind::Section ==> #[trigger] final(self).relocations(k)
                    == old(self).relocations(k),
    ;

    /// Write a section-relative address with relocation: a 4-byte zero
    /// island with a `Secrel` relocation on it.
    fn write_secrel(&mut self, reloc: &Reloc) -> (r: Result<(), Self::Error>)
        ensures
            old(self).infallible() ==> r is Ok,
            final(self).infallible() == old(self).infallible(),
            r is Ok ==> placeholder_written(
                old(self).data(),
                final(self).data(),
                old(self).relocations(RelocKind::Secrel),
                final(self).relocations(RelocKind::Secrel),
                *reloc,
                4,
            ),
            r is Ok ==> forall|k: RelocKind|
                k != RelocKind::Secrel ==> #[trigger] final(self).relocations(k)
                    == old(self).relocations(k),
    ;
}

/// `width` zero bytes were appended to the data, and one relocation was
/// registered at the offset where they start, aimed at a copy of `target`.
pub open spec fn placeholder_written<Reloc: Clone>(
    data_before: Seq<u8>,
    data_after: Seq<u8>,
    relocs_before: Seq<(usize, Reloc)>,
    relocs_after: Seq<(usize, Reloc)>,
    target: Reloc,
    width: nat,
) -> bool {
    &&& data_after == data_before + Seq::new(width, |i: int| 0u8)
    &&& relocs_after.len() == relocs_before.len() + 1
    &&& relocs_after.subrange(0, relocs_before.len() as int) == relocs_before
    &&& relocs_after.last().0 == data_before.len()
    &&& cloned(target, relocs_after.last().1)
}

/// The sink's relocations of every kind are as they were.
pub open spec fn relocs_kept<Reloc: Clone, W: SectionWrite<Reloc>>(before: W, after: W) -> bool {
    forall|k: RelocKind| #[trigger] after.relocations(k) == before.relocations(k)
}

/// A simple section writer that collects all data and relocations.
#[derive(Debug, Clone, Default)]
pub struct SectionSink<Reloc> {
    /// Section data
    pub data: Vec<u8>,
    /// Relative virtual address relocations.
    pub reloc_rva: Vec<(usize, Reloc)>,
    /// Section index relocations.
    pub reloc_section: Vec<(usize, Reloc)>,
    /// Section-relative address relocations.
    pub reloc_secrel: Vec<(usize, Reloc)>,
}

impl<Reloc> SectionSink<Reloc> {
    /// Create a new, empty `SectionSink`.
    pub fn new() -> (r: SectionSink<Reloc>)
        ensures
            r.data@ == Seq::<u8>::empty(),
            r.reloc_rva@ == Seq::<(usize, Reloc)>::empty(),
            r.reloc_section@ == Seq::<(usize, Reloc)>::empty(),
            r.reloc_secrel@ == Seq::<(usize, Reloc)>::empty(),
    {
        SectionSink {
            data: Vec::new(),
            reloc_rva: Vec::new(),
            reloc_section: Vec::new(),
            reloc_secrel: Vec::new(),
        }
    }
}

/// Appends `n` zero bytes to `data`.
pub(crate) fn push_zeros(data: &mut Vec<u8>, n: usize)
    ensures
        final(data)@ == old(data)@ + Seq::new(n as nat, |i: int| 0u8),
{
    let ghost start = data@;
    let mut i: usize = 0;
    while i < n
        invariant
            i <= n,
            data@ == start + Seq::new(i as nat, |j: int| 0u8),
        decreases n - i,
    {
        data.push(0u8);
        i += 1;
        assert(data@ =~= start + Seq::new(i as nat, |j: int| 0u8));
    }
}

impl<Reloc: Clone> SectionWrite<Reloc> for SectionSink<Reloc> {
    type Error = std::convert::Infallible;

    open spec fn data(&self) -> Seq<u8> {
        self.data@
    }

    open spec fn relocations(&self, kind: RelocKind) -> Seq<(usize, Reloc)> {
        match kind {
            RelocKind::Rva => self.reloc_rva@,
            RelocKind::Section => self.reloc_section@,
            RelocKind::Secrel => self.reloc_secrel@,
        }
    }

    open spec fn infallible(&self) -> bool {
        true
    }

    fn write(&mut self, data: &[u8]) -> (r: Result<(), Self::Error>)
        ensures
            r is Ok,
    {
        let ghost start = self.data@;
        let mut i: usize = 0;
        while i < data.len()
            invariant
                i <= data@.len(),
                self.data@ == start + data@.subrange(0, i as int),
                self.reloc_rva == old(self).reloc_rva,
                self.reloc_section == old(self).reloc_section,
                self.reloc_secrel == old(self).reloc_secrel,
            decreases data@.len() - i,
        {
            self.data.push(data[i]);
            i += 1;
            assert(self.data@ =~= start + data@.subrange(0, i as int));
        }
        assert(data@.subrange(0, data@.len() as int) =~= data@);
        Ok(())
    }

    fn write_rva(&mut self, reloc: &Reloc) -> (r: Result<(), Self::Error>)
        ensures
            r is Ok,
    {
        let target = reloc.clone();
        self.reloc_rva.push((self.data.len(), target));
        push_zeros(&mut self.data, 4);
        assert(self.reloc_rva@.subrange(0, old(self).reloc_rva@.len() as int)
            =~= old(self).reloc_rva@);
        Ok(())
    }

    fn write_section(&mut self, reloc: &Reloc) -> (r: Result<(), Self::Error>)
        ensures
            r is Ok,
    {
        let target = reloc.clone();
        self.reloc_section.push((self.data.len(), target));
        push_zeros(&mut self.data, 2);
        assert(self.reloc_section@.subrange(0, old(self).reloc_section@.len() as int)
            =~= old(self).reloc_section@);
        Ok(())
    }

    fn write_secrel(&mut self, reloc: &Reloc) -> (r: Result<(), Self::Error>)
        ensures
            r is Ok,
    {
        let target = reloc.clone();
        self.reloc_secrel.push((self.data.len(), target));
        push_zeros(&mut self.data, 4);
        assert(self.reloc_secrel@.subrange(0, old(self).reloc_secrel@.len() as int)
            =~= old(self).reloc_secrel@);
        Ok(())
    }
}

} // verus!
