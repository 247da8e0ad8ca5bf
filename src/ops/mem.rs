//! Load and store kernels: how a value read from memory becomes a word, and
//! which low bits of a word a store writes; and the upper-immediate word.
use crate::num::{lemma_u32_signed, lemma_u64_signed, signed, Unsigned};
use vstd::prelude::*;

verus! {

/// A 32-bit value read as signed and extended to a word: the result of LUI,
/// and of the RV64 word instructions.
pub open spec fn spec_imm<T: Unsigned>(value: u32) -> T {
    T::wrap(signed(value))
}

/// LB: sign-extends a byte.
pub trait Lb: Unsigned {
    fn lb(value: i8) -> (r: Self)
        ensures
            r == Self::wrap(value as int),
    ;
}

/// LBU: zero-extends a byte.
pub trait Lbu: Unsigned {
    fn lbu(value: u8) -> (r: Self)
        ensures
            r == Self::wrap(value as int),
    ;
}

/// LH: sign-extends a half word.
pub trait Lh: Unsigned {
    fn lh(value: i16) -> (r: Self)
        ensures
            r == Self::wrap(value as int),
    ;
}

/// LHU: zero-extends a half word.
pub trait Lhu: Unsigned {
    fn lhu(value: u16) -> (r: Self)
        ensures
            r == Self::wrap(value as int),
    ;
}

/// LW: sign-extends a word of 32 bits.
pub trait Lw: Unsigned {
    fn lw(value: i32) -> (r: Self)
        ensures
            r == Self::wrap(value as int),
    ;
}

/// LWU (RV64): zero-extends a word of 32 bits.
pub trait Lwu: Unsigned {
    fn lwu(value: u32) -> (r: Self)
        ensures
            r == Self::wrap(value as int),
    ;
}

/// LD (RV64): a double word.
pub trait Ld: Unsigned {
    fn ld(value: u64) -> (r: Self)
        ensures
            r == Self::wrap(value as int),
    ;
}

/// SB: the low 8 bits.
pub trait Sb: Unsigned {
    fn sb(self) -> (r: u8)
        ensures
            r == self.value() % 0x100,
    ;
}

/// SH: the low 16 bits.
pub trait Sh: Unsigned {
    fn sh(self) -> (r: u16)
        ensures
            r == self.value() % 0x1_0000,
    ;
}

/// SW: the low 32 bits.
pub trait Sw: Unsigned {
    fn sw(self) -> (r: u32)
        ensures
            r == self.value() % 0x1_0000_0000,
    ;
}

/// SD (RV64): all 64 bits.
pub trait Sd: Unsigned {
    fn sd(self) -> (r: u64)
        ensures
            r == self.value(),
    ;
}

/// Sign extension of a 32-bit value to a word.
pub trait Imm: Unsigned {
    fn imm(value: u32) -> (r: Self)
        ensures
            r == spec_imm::<Self>(value),
    ;
}

impl Lb for u32 {
    fn lb(value: i8) -> u32 {
        proof {
            lemma_u32_signed(0, value as i32);
        }
        value as i32 as u32
    }
}

impl Lbu for u32 {
    fn lbu(value: u8) -> u32 {
        value as u32
    }
}

impl Lh for u32 {
    fn lh(value: i16) -> u32 {
        proof {
            lemma_u32_signed(0, value as i32);
        }
        value as i32 as u32
    }
}

impl Lhu for u32 {
    fn lhu(value: u16) -> u32 {
        value as u32
    }
}

impl Lw for u32 {
    fn lw(value: i32) -> u32 {
        proof {
            lemma_u32_signed(0, value);
        }
        value as u32
    }
}

impl Lwu for u32 {
    fn lwu(value: u32) -> u32 {
        value
    }
}

impl Ld for u32 {
    fn ld(value: u64) -> u32 {
        (value % 0x1_0000_0000) as u32
    }
}

impl Sd for u32 {
    fn sd(self) -> u64 {
        self as u64
    }
}

impl Sb for u32 {
    fn sb(self) -> u8 {
        (self % 0x100) as u8
    }
}

impl Sh for u32 {
    fn sh(self) -> u16 {
        (self % 0x1_0000) as u16
    }
}

impl Sw for u32 {
    fn sw(self) -> u32 {
        self
    }
}

impl Imm for u32 {
    fn imm(value: u32) -> u32 {
        proof {
            <u32 as Unsigned>::lemma_word();
        }
        value
    }
}

impl Lb for u64 {
    fn lb(value: i8) -> u64 {
        proof {
            lemma_u64_signed(0, value as i64);
        }
        value as i64 as u64
    }
}

impl Lbu for u64 {
    fn lbu(value: u8) -> u64 {
        value as u64
    }
}

impl Lh for u64 {
    fn lh(value: i16) -> u64 {
        proof {
            lemma_u64_signed(0, value as i64);
        }
        value as i64 as u64
    }
}

impl Lhu for u64 {
    fn lhu(value: u16) -> u64 {
        value as u64
    }
}

impl Lw for u64 {
    fn lw(value: i32) -> u64 {
        proof {
            lemma_u64_signed(0, value as i64);
        }
        value as i64 as u64
    }
}

impl Lwu for u64 {
    fn lwu(value: u32) -> u64 {
        value as u64
    }
}

impl Ld for u64 {
    fn ld(value: u64) -> u64 {
        value
    }
}

impl Sb for u64 {
    fn sb(self) -> u8 {
        (self % 0x100) as u8
    }
}

impl Sh for u64 {
    fn sh(self) -> u16 {
        (self % 0x1_0000) as u16
    }
}

impl Sw for u64 {
    fn sw(self) -> u32 {
        (self % 0x1_0000_0000) as u32
    }
}

impl Sd for u64 {
    fn sd(self) -> u64 {
        self
    }
}

impl Imm for u64 {
    fn imm(value: u32) -> u64 {
        let v = value as i32;
        proof {
            <u32 as Unsigned>::lemma_word();
            lemma_u32_signed(value, 0);
            lemma_u64_signed(0, v as i64);
        }
        v as i64 as u64
    }
}

} // verus!
