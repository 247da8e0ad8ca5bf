//! Reading a program image: the entry point and the loadable segments of a
//! little-endian ELF file, through the `elf` crate.
use crate::emulator::{load_spec, segments_fit, segments_view, Emulator};
use crate::error::Error;
use crate::instructions::Word;
use crate::isa::{hart, Isa};
use crate::num::Unsigned;
use vstd::prelude::*;

verus! {

/// The entry point of the ELF file `image`; `None` when its header does not parse.
pub uninterp spec fn elf_entry(image: Seq<u8>) -> Option<u64>;

/// The number of program headers of `image`; `None` when it has no table of them
/// or does not parse.
pub uninterp spec fn elf_segment_count(image: Seq<u8>) -> Option<usize>;

/// The type, physical address and file bytes of segment `index` of `image`;
/// `None` when that program header or its bytes cannot be read.
pub uninterp spec fn elf_segment(image: Seq<u8>, index: nat) -> Option<(u32, u64, Seq<u8>)>;

/// The program header type of a segment to be loaded.
pub const PT_LOAD: u32 = 1;

/// Relies on `elf::ElfBytes::minimal_parse` and the `e_entry` field of the
/// header it parses.
#[verifier::external_body]
fn parse_entry(image: &[u8]) -> (r: Option<u64>)
    ensures
        r == elf_entry(image@),
{
    match elf::ElfBytes::<elf::endian::LittleEndian>::minimal_parse(image) {
        Ok(file) => Some(file.ehdr.e_entry),
        Err(_) => None,
    }
}

/// Relies on `elf::ElfBytes::minimal_parse`, `ElfBytes::segments` and the
/// table's `len`.
#[verifier::external_body]
fn parse_segment_count(image: &[u8]) -> (r: Option<usize>)
    ensures
        r == elf_segment_count(image@),
{
    let file = elf::ElfBytes::<elf::endian::LittleEndian>::minimal_parse(image).ok()?;
    Some(file.segments()?.len())
}

/// Relies on `elf::ElfBytes::minimal_parse`, `ElfBytes::segments`, the table's
/// `get`, the header's `p_type` and `p_paddr` fields and `ElfBytes::segment_data`.
#[verifier::external_body]
fn parse_segment(image: &[u8], index: usize) -> (r: Option<(u32, u64, Vec<u8>)>)
    ensures
        r is None <==> elf_segment(image@, index as nat) is None,
        r matches Some(s) ==> elf_segment(image@, index as nat) == Some((s.0, s.1, s.2@)),
{
    let file = elf::ElfBytes::<elf::endian::LittleEndian>::minimal_parse(image).ok()?;
    let header = file.segments()?.get(index).ok()?;
    let data = file.segment_data(&header).ok()?;
    Some((header.p_type, header.p_paddr, data.to_vec()))
}

/// Every part of `image` that loading needs can be read.
pub open spec fn image_readable(image: Seq<u8>) -> bool {
    &&& elf_entry(image) is Some
    &&& elf_segment_count(image) is Some
    &&& forall|i: nat| i < elf_segment_count(image)->0 ==> (#[trigger] elf_segment(image, i)) is Some
}

/// The loadable ones among the first `n` segments of `image`, in the order of
/// its program headers, as addresses and bytes.
pub open spec fn loadable_segments(image: Seq<u8>, n: nat) -> Seq<(u64, Seq<u8>)>
    decreases n,
{
    if n == 0 {
        Seq::empty()
    } else {
        let prev = loadable_segments(image, (n - 1) as nat);
        let s = elf_segment(image, (n - 1) as nat)->0;
        if s.0 == PT_LOAD {
            prev.push((s.1, s.2))
        } else {
            prev
        }
    }
}

/// The loadable segments of a readable `image`.
pub open spec fn image_segments(image: Seq<u8>) -> Seq<(u64, Seq<u8>)> {
    loadable_segments(image, elf_segment_count(image)->0 as nat)
}

impl<T: Isa + Word> Emulator<T> {
    /// Loads the loadable segments of the ELF file `image` at their physical addresses and
    /// moves the program counter to its entry point. Fails, changing nothing,
    /// with `InvalidImage` when the file cannot be read and with
    /// `MemoryOutOfBounds` when a segment does not fit.
    pub fn load_elf(&mut self, image: &[u8]) -> (r: Result<(), Error>)
        ensures
            !image_readable(image@) ==> r == Err::<(), Error>(Error::InvalidImage) && final(self)@
                == old(self)@,
            image_readable(image@) && !segments_fit(old(self)@.mem.len(), image_segments(image@))
                ==> r == Err::<(), Error>(Error::MemoryOutOfBounds) && final(self)@ == old(self)@,
            image_readable(image@) && segments_fit(old(self)@.mem.len(), image_segments(image@))
                ==> r is Ok && final(self)@ == hart(
                old(self)@.regs,
                T::wrap(elf_entry(image@)->0 as int),
                load_spec(old(self)@.mem, image_segments(image@), image_segments(image@).len()),
            ),
    {
        let entry = match parse_entry(image) {
            Some(e) => e,
            None => return Err(Error::InvalidImage),
        };
        let count = match parse_segment_count(image) {
            Some(n) => n,
            None => return Err(Error::InvalidImage),
        };
        let mut segments: Vec<(u64, Vec<u8>)> = Vec::new();
        let mut i: usize = 0;
        while i < count
            invariant
                i <= count,
                count == elf_segment_count(image@)->0,
                elf_segment_count(image@) is Some,
                segments_view(segments@) == loadable_segments(image@, i as nat),
                forall|j: nat| j < i ==> (#[trigger] elf_segment(image@, j)) is Some,
            decreases count - i,
        {
            match parse_segment(image, i) {
                Some((kind, addr, data)) => {
                    if kind == PT_LOAD {
                        let ghost prev = segments@;
                        segments.push((addr, data));
                        assert(segments_view(segments@) =~= segments_view(prev).push((addr, data@)));
                    }
                },
                None => return Err(Error::InvalidImage),
            }
            i = i + 1;
        }
        match self.load(segments.as_slice()) {
            Ok(()) => {},
            Err(e) => return Err(e),
        }
        self.set_pc(T::from_u64(entry));
        Ok(())
    }
}

} // verus!
