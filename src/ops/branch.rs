//! Branch conditions, one trait per mnemonic.
use crate::num::{lemma_u32_signed, lemma_u64_signed, signed, Unsigned};
use vstd::prelude::*;

verus! {

/// BEQ: equal.
pub trait Beq: Unsigned {
    fn beq(self, other: Self) -> (r: bool)
        ensures
            r == (self == other),
    ;
}

/// BNE: not equal.
pub trait Bne: Unsigned {
    fn bne(self, other: Self) -> (r: bool)
        ensures
            r == (self != other),
    ;
}

/// BLT: less than, signed.
pub trait Blt: Unsigned {
    fn blt(self, other: Self) -> (r: bool)
        ensures
            r == (signed(self) < signed(other)),
    ;
}

/// BGE: greater or equal, signed.
pub trait Bge: Unsigned {
    fn bge(self, other: Self) -> (r: bool)
        ensures
            r == (signed(self) >= signed(other)),
    ;
}

/// BLTU: less than, unsigned.
pub trait Bltu: Unsigned {
    fn bltu(self, other: Self) -> (r: bool)
        ensures
            r == (self.value() < other.value()),
    ;
}

/// BGEU: greater or equal, unsigned.
pub trait Bgeu: Unsigned {
    fn bgeu(self, other: Self) -> (r: bool)
        ensures
            r == (self.value() >= other.value()),
    ;
}

impl Beq for u32 {
    fn beq(self, other: u32) -> bool {
        self == other
    }
}

impl Bne for u32 {
    fn bne(self, other: u32) -> bool {
        self != other
    }
}

impl Blt for u32 {
    fn blt(self, other: u32) -> bool {
        proof {
            <u32 as Unsigned>::lemma_word();
            lemma_u32_signed(self, 0);
            lemma_u32_signed(other, 0);
        }
        (self as i32) < (other as i32)
    }
}

impl Bge for u32 {
    fn bge(self, other: u32) -> bool {
        proof {
            <u32 as Unsigned>::lemma_word();
            lemma_u32_signed(self, 0);
            lemma_u32_signed(other, 0);
        }
        (self as i32) >= (other as i32)
    }
}

impl Bltu for u32 {
    fn bltu(self, other: u32) -> bool {
        self < other
    }
}

impl Bgeu for u32 {
    fn bgeu(self, other: u32) -> bool {
        self >= other
    }
}

impl Beq for u64 {
    fn beq(self, other: u64) -> bool {
        self == other
    }
}

impl Bne for u64 {
    fn bne(self, other: u64) -> bool {
        self != other
    }
}

impl Blt for u64 {
    fn blt(self, other: u64) -> bool {
        proof {
            <u64 as Unsigned>::lemma_word();
            lemma_u64_signed(self, 0);
            lemma_u64_signed(other, 0);
        }
        (self as i64) < (other as i64)
    }
}

impl Bge for u64 {
    fn bge(self, other: u64) -> bool {
        proof {
            <u64 as Unsigned>::lemma_word();
            lemma_u64_signed(self, 0);
            lemma_u64_signed(other, 0);
        }
        (self as i64) >= (other as i64)
    }
}

impl Bltu for u64 {
    fn bltu(self, other: u64) -> bool {
        self < other
    }
}

impl Bgeu for u64 {
    fn bgeu(self, other: u64) -> bool {
        self >= other
    }
}

} // verus!
