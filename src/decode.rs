//! Instruction formats: the fields of a 32-bit instruction word.
//!
//! Decoding never fails: every word has a reading in every format, and it is
//! for the dispatcher to reject what names no instruction.
use crate::uint::{U12, U13, U2, U21, U3, U4, U5, U7};
use vstd::prelude::*;

verus! {

/// Bits [6:0]: the major opcode.
pub open spec fn opcode_of(w: u32) -> u32 {
    w & 0x7f
}

/// Bits [11:7]: the destination register.
pub open spec fn rd_of(w: u32) -> u32 {
    (w >> 7) & 0x1f
}

/// Bits [14:12].
pub open spec fn funct3_of(w: u32) -> u32 {
    (w >> 12) & 0x7
}

/// Bits [19:15]: the first source register.
pub open spec fn rs1_of(w: u32) -> u32 {
    (w >> 15) & 0x1f
}

/// Bits [24:20]: the second source register.
pub open spec fn rs2_of(w: u32) -> u32 {
    (w >> 20) & 0x1f
}

/// Bits [31:25].
pub open spec fn funct7_of(w: u32) -> u32 {
    (w >> 25) & 0x7f
}

/// The I-immediate: bits [31:20].
pub open spec fn imm_i_of(w: u32) -> u32 {
    (w >> 20) & 0xfff
}

/// The S-immediate: `imm[11:5]` from bits [31:25], `imm[4:0]` from bits [11:7].
pub open spec fn imm_s_of(w: u32) -> u32 {
    (((w >> 25) & 0x7f) << 5) | ((w >> 7) & 0x1f)
}

/// The B-immediate: `imm[12]` from bit 31, `imm[11]` from bit 7, `imm[10:5]`
/// from bits [30:25], `imm[4:1]` from bits [11:8]; `imm[0]` is zero.
pub open spec fn imm_b_of(w: u32) -> u32 {
    (((w >> 31) & 1) << 12) | (((w >> 7) & 1) << 11) | (((w >> 25) & 0x3f) << 5) | (((w >> 8)
        & 0xf) << 1)
}

/// The U-immediate: bits [31:12] in place, the low twelve bits zero.
pub open spec fn imm_u_of(w: u32) -> u32 {
    w & 0xffff_f000
}

/// The J-immediate: `imm[20]` from bit 31, `imm[19:12]` from bits [19:12],
/// `imm[11]` from bit 20, `imm[10:1]` from bits [30:21]; `imm[0]` is zero.
pub open spec fn imm_j_of(w: u32) -> u32 {
    (((w >> 31) & 1) << 20) | (((w >> 12) & 0xff) << 12) | (((w >> 20) & 1) << 11) | (((w >> 21)
        & 0x3ff) << 1)
}

/// Register-register format.
#[derive(Debug, Clone, Copy, PartialEq, Eq, Structural)]
pub struct R {
    pub funct7: U7,
    pub rs2: U5,
    pub rs1: U5,
    pub funct3: U3,
    pub rd: U5,
}

/// Four-register format.
#[derive(Debug, Clone, Copy, PartialEq, Eq, Structural)]
pub struct R4 {
    pub rs3: U5,
    pub funct2: U2,
    pub rs2: U5,
    pub rs1: U5,
    pub funct3: U3,
    pub rd: U5,
}

/// Immediate format.
#[derive(Debug, Clone, Copy, PartialEq, Eq, Structural)]
pub struct I {
    pub imm: U12,
    pub rs1: U5,
    pub funct3: U3,
    pub rd: U5,
}

/// Shift-immediate format: the I-immediate split into a prefix and a shift amount.
#[derive(Debug, Clone, Copy, PartialEq, Eq, Structural)]
pub struct Shift {
    pub prefix: U7,
    pub shamt: U5,
    pub rs1: U5,
    pub funct3: U3,
    pub rd: U5,
}

/// Fence format.
#[derive(Debug, Clone, Copy, PartialEq, Eq, Structural)]
pub struct Fence {
    pub fm: U4,
    pub pred: U4,
    pub succ: U4,
    pub rs1: U5,
    pub funct3: U3,
    pub rd: U5,
}

/// Store format.
#[derive(Debug, Clone, Copy, PartialEq, Eq, Structural)]
pub struct S {
    pub imm: U12,
    pub rs2: U5,
    pub rs1: U5,
    pub funct3: U3,
}

/// Branch format; the immediate is a byte offset, always even.
#[derive(Debug, Clone, Copy, PartialEq, Eq, Structural)]
pub struct B {
    pub imm: U13,
    pub rs2: U5,
    pub rs1: U5,
    pub funct3: U3,
}

/// Upper-immediate format; the low twelve bits of the immediate are zero.
#[derive(Debug, Clone, Copy, PartialEq, Eq, Structural)]
pub struct U {
    pub imm: u32,
    pub rd: U5,
}

/// Jump format; the immediate is a byte offset, always even.
#[derive(Debug, Clone, Copy, PartialEq, Eq, Structural)]
pub struct J {
    pub imm: U21,
    pub rd: U5,
}

/// What the decoders rely on: each field is what the masks above select, and
/// the S-immediate fits in twelve bits.
proof fn lemma_fields(w: u32)
    by (bit_vector)
    ensures
        w >> 25 < 0x80,
        w >> 27 < 0x20,
        w >> 28 < 0x10,
        w >> 20 < 0x1000,
        (((w >> 7) as u8) % 32) as u32 == rd_of(w),
        (((w >> 12) as u8) % 8) as u32 == funct3_of(w),
        (((w >> 15) as u8) % 32) as u32 == rs1_of(w),
        (((w >> 20) as u8) % 32) as u32 == rs2_of(w),
        (((w >> 25) as u8) % 4) as u32 == (w >> 25) & 0x3,
        (((w >> 24) as u8) % 16) as u32 == (w >> 24) & 0xf,
        (((w >> 20) as u8) % 16) as u32 == (w >> 20) & 0xf,
        (w >> 25) as u8 as u32 == funct7_of(w),
        (w >> 20) as u16 as u32 == imm_i_of(w),
        ((w >> 25) & 0x7f) << 5 | ((w >> 7) & 0x1f) < 0x1000,
{
}

/// The B-immediate as the decoder gathers it.
proof fn lemma_imm_b(w: u32)
    by (bit_vector)
    ensures
        imm_b_of(w) == (w >> 19) & (1u32 << 12) | (w << 4) & (1u32 << 11) | (w >> 20) & (0x3fu32 << 5) | (w
            >> 7) & (0xfu32 << 1),
        imm_b_of(w) < 0x2000,
        imm_b_of(w) % 2 == 0,
{
}

/// The J- and U-immediates as the decoder gathers them.
proof fn lemma_imm_j(w: u32)
    by (bit_vector)
    ensures
        imm_j_of(w) == ((w & (1u32 << 31)) >> 11) | ((w & (0x3ffu32 << 21)) >> 20) | ((w & (1u32 << 20))
            >> 9) | (w & (0xffu32 << 12)),
        imm_j_of(w) < 0x20_0000,
        imm_j_of(w) % 2 == 0,
        imm_u_of(w) % 0x1000 == 0,
{
}

impl R {
    pub fn from_u32(value: u32) -> (r: Self)
        ensures
            r.funct7@ == funct7_of(value),
            r.rs2@ == rs2_of(value),
            r.rs1@ == rs1_of(value),
            r.funct3@ == funct3_of(value),
            r.rd@ == rd_of(value),
    {
        proof {
            lemma_fields(value);
        }
        Self {
            funct7: U7::new_unchecked((value >> 25) as u8),
            rs2: U5::new_truncate((value >> 20) as u8),
            rs1: U5::new_truncate((value >> 15) as u8),
            funct3: U3::new_truncate((value >> 12) as u8),
            rd: U5::new_truncate((value >> 7) as u8),
        }
    }

    /// `funct7` above `funct3`: ten bits.
    pub open spec fn key(self) -> nat {
        self.funct7@ * 8 + self.funct3@
    }

    /// The dispatch key.
    pub fn id(&self) -> (r: u32)
        ensures
            r == self.key(),
    {
        self.funct7.as_u32() * 8 + self.funct3.as_u32()
    }
}

impl R4 {
    pub fn from_u32(value: u32) -> (r: Self)
        ensures
            r.rs3@ == value >> 27,
            r.funct2@ == (value >> 25) & 0x3,
            r.rs2@ == rs2_of(value),
            r.rs1@ == rs1_of(value),
            r.funct3@ == funct3_of(value),
            r.rd@ == rd_of(value),
    {
        proof {
            lemma_fields(value);
        }
        Self {
            rs3: U5::new_unchecked((value >> 27) as u8),
            funct2: U2::new_truncate((value >> 25) as u8),
            rs2: U5::new_truncate((value >> 20) as u8),
            rs1: U5::new_truncate((value >> 15) as u8),
            funct3: U3::new_truncate((value >> 12) as u8),
            rd: U5::new_truncate((value >> 7) as u8),
        }
    }
}

impl I {
    pub fn from_u32(value: u32) -> (r: Self)
        ensures
            r.imm@ == imm_i_of(value),
            r.rs1@ == rs1_of(value),
            r.funct3@ == funct3_of(value),
            r.rd@ == rd_of(value),
    {
        proof {
            lemma_fields(value);
        }
        Self {
            imm: U12::new_unchecked((value >> 20) as u16),
            rs1: U5::new_truncate((value >> 15) as u8),
            funct3: U3::new_truncate((value >> 12) as u8),
            rd: U5::new_truncate((value >> 7) as u8),
        }
    }

    /// The dispatch key: `funct3`.
    pub fn id(&self) -> (r: u32)
        ensures
            r == self.funct3@,
    {
        self.funct3.as_u32()
    }
}

impl Shift {
    /// Splits the immediate: `prefix` is `imm[11:5]`, `shamt` is `imm[4:0]`.
    pub fn from_i(i: I) -> (r: Self)
        ensures
            r.prefix@ == i.imm@ / 32,
            r.shamt@ == i.imm@ % 32,
            r.rs1 == i.rs1,
            r.funct3 == i.funct3,
            r.rd == i.rd,
    {
        let imm = i.imm.get();
        Self {
            prefix: U7::new_unchecked((imm / 32) as u8),
            shamt: U5::new_truncate((imm % 32) as u8),
            rs1: i.rs1,
            funct3: i.funct3,
            rd: i.rd,
        }
    }

    pub fn from_u32(value: u32) -> (r: Self)
        ensures
            r.prefix@ == imm_i_of(value) / 32,
            r.shamt@ == imm_i_of(value) % 32,
            r.rs1@ == rs1_of(value),
            r.funct3@ == funct3_of(value),
            r.rd@ == rd_of(value),
    {
        Self::from_i(I::from_u32(value))
    }

    /// `prefix` above `funct3`: ten bits.
    pub open spec fn key(self) -> nat {
        self.prefix@ * 8 + self.funct3@
    }

    /// The dispatch key.
    pub fn id(&self) -> (r: u32)
        ensures
            r == self.key(),
    {
        self.prefix.as_u32() * 8 + self.funct3.as_u32()
    }
}

impl Fence {
    pub fn from_u32(value: u32) -> (r: Self)
        ensures
            r.fm@ == value >> 28,
            r.pred@ == (value >> 24) & 0xf,
            r.succ@ == (value >> 20) & 0xf,
            r.rs1@ == rs1_of(value),
            r.funct3@ == funct3_of(value),
            r.rd@ == rd_of(value),
    {
        proof {
            lemma_fields(value);
        }
        Self {
            fm: U4::new_unchecked((value >> 28) as u8),
            pred: U4::new_truncate((value >> 24) as u8),
            succ: U4::new_truncate((value >> 20) as u8),
            rs1: U5::new_truncate((value >> 15) as u8),
            funct3: U3::new_truncate((value >> 12) as u8),
            rd: U5::new_truncate((value >> 7) as u8),
        }
    }
}

impl S {
    pub fn from_u32(value: u32) -> (r: Self)
        ensures
            r.imm@ == imm_s_of(value),
            r.rs2@ == rs2_of(value),
            r.rs1@ == rs1_of(value),
            r.funct3@ == funct3_of(value),
    {
        proof {
            lemma_fields(value);
        }
        Self {
            imm: U12::new_unchecked((((value >> 25) & 0x7f) << 5 | ((value >> 7) & 0x1f)) as u16),
            rs2: U5::new_truncate((value >> 20) as u8),
            rs1: U5::new_truncate((value >> 15) as u8),
            funct3: U3::new_truncate((value >> 12) as u8),
        }
    }

    /// The dispatch key: `funct3`.
    pub fn id(&self) -> (r: u32)
        ensures
            r == self.funct3@,
    {
        self.funct3.as_u32()
    }
}

impl B {
    pub fn from_u32(value: u32) -> (r: Self)
        ensures
            r.imm@ == imm_b_of(value),
            r.imm@ % 2 == 0,
            r.rs2@ == rs2_of(value),
            r.rs1@ == rs1_of(value),
            r.funct3@ == funct3_of(value),
    {
        proof {
            lemma_fields(value);
            lemma_imm_b(value);
        }
        let imm = (value >> 19) & (1 << 12) | (value << 4) & (1 << 11) | (value >> 20) & (0x3f << 5)
            | (value >> 7) & (0xf << 1);
        Self {
            imm: U13::new_unchecked(imm as u16),
            rs2: U5::new_truncate((value >> 20) as u8),
            rs1: U5::new_truncate((value >> 15) as u8),
            funct3: U3::new_truncate((value >> 12) as u8),
        }
    }

    /// The dispatch key: `funct3`.
    pub fn id(&self) -> (r: u32)
        ensures
            r == self.funct3@,
    {
        self.funct3.as_u32()
    }
}

impl U {
    pub fn from_u32(value: u32) -> (r: Self)
        ensures
            r.imm == imm_u_of(value),
            r.imm % 0x1000 == 0,
            r.rd@ == rd_of(value),
    {
        proof {
            lemma_fields(value);
            lemma_imm_j(value);
        }
        Self { imm: value & 0xffff_f000, rd: U5::new_truncate((value >> 7) as u8) }
    }
}

impl J {
    pub fn from_u32(value: u32) -> (r: Self)
        ensures
            r.imm@ == imm_j_of(value),
            r.imm@ % 2 == 0,
            r.rd@ == rd_of(value),
    {
        proof {
            lemma_fields(value);
            lemma_imm_j(value);
        }
        let imm = ((value & (1 << 31)) >> 11) | ((value & (0x3ff << 21)) >> 20) | ((value & (1
            << 20)) >> 9) | (value & (0xff << 12));
        Self { imm: U21::new_unchecked(imm), rd: U5::new_truncate((value >> 7) as u8) }
    }
}

} // verus!
