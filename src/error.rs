//! What can go wrong while loading or executing a program.
use vstd::prelude::*;

verus! {

/// A fault.
#[derive(Debug, Clone, Copy, PartialEq, Eq, Structural)]
pub enum Error {
    /// The opcode and function fields name no instruction of the active XLEN.
    IllegalInstruction,
    /// An access reaches past the end of memory.
    MemoryOutOfBounds,
    /// The program counter is not a multiple of four at fetch.
    MisalignedInstructionFetch,
    /// A program image that cannot be read as a little-endian ELF file.
    InvalidImage,
}

} // verus!
