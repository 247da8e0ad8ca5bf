//! Arithmetic, logic, comparison and shift kernels, one trait per mnemonic.
use crate::num::{
    lemma_u32_bits, lemma_u32_signed, lemma_u64_bits, lemma_u64_signed, lemma_wrap_mod, modulus,
    signed, Unsigned,
};
use crate::ops::mem::{spec_imm, Imm};
use crate::uint::{sign_extend, U12};
use vstd::prelude::*;

verus! {

/// `a + b` modulo `2^XLEN`.
pub open spec fn spec_add<T: Unsigned>(a: T, b: T) -> T {
    T::wrap(a.value() + b.value() as int)
}

/// `a - b` modulo `2^XLEN`.
pub open spec fn spec_sub<T: Unsigned>(a: T, b: T) -> T {
    T::wrap(a.value() - b.value())
}

/// The shift distance that a shift by `sh` uses: `sh` modulo XLEN.
pub open spec fn shift_amount<T: Unsigned>(sh: nat) -> u64 {
    (sh % T::xlen()) as u64
}

/// Logical left shift of `a` by `sh` modulo XLEN.
pub open spec fn spec_shl<T: Unsigned>(a: T, sh: nat) -> T {
    T::wrap(((a.value() as u64) << shift_amount::<T>(sh)) as int)
}

/// Logical right shift of `a` by `sh` modulo XLEN.
pub open spec fn spec_shr<T: Unsigned>(a: T, sh: nat) -> T {
    T::wrap(((a.value() as u64) >> shift_amount::<T>(sh)) as int)
}

/// Arithmetic right shift of `a`, read as signed, by `sh` modulo XLEN.
pub open spec fn spec_sar<T: Unsigned>(a: T, sh: nat) -> T {
    T::wrap(((signed(a) as i64) >> shift_amount::<T>(sh)) as int)
}

/// One when `c` holds, else zero.
pub open spec fn spec_flag<T: Unsigned>(c: bool) -> T {
    T::wrap(if c { 1 } else { 0 })
}

/// Bitwise exclusive or.
pub open spec fn spec_xor<T: Unsigned>(a: T, b: T) -> T {
    T::wrap(((a.value() as u64) ^ (b.value() as u64)) as int)
}

/// Bitwise or.
pub open spec fn spec_or<T: Unsigned>(a: T, b: T) -> T {
    T::wrap(((a.value() as u64) | (b.value() as u64)) as int)
}

/// Bitwise and.
pub open spec fn spec_and<T: Unsigned>(a: T, b: T) -> T {
    T::wrap(((a.value() as u64) & (b.value() as u64)) as int)
}

/// An immediate of `bits` bits, sign-extended to a word.
pub open spec fn imm_word<T: Unsigned>(imm: nat, bits: nat) -> T {
    T::wrap(sign_extend(imm as int, bits))
}

/// A 12-bit immediate, sign-extended to a word.
pub open spec fn imm12<T: Unsigned>(imm: U12) -> T {
    imm_word::<T>(imm@, 12)
}

/// ADD.
pub trait Add: Unsigned {
    fn add(self, other: Self) -> (r: Self)
        ensures
            r == spec_add(self, other),
    ;
}

/// SUB.
pub trait Sub: Unsigned {
    fn sub(self, other: Self) -> (r: Self)
        ensures
            r == spec_sub(self, other),
    ;
}

/// SLL: the shift distance is `other` modulo XLEN.
pub trait Sll: Unsigned {
    fn sll(self, other: Self) -> (r: Self)
        ensures
            r == spec_shl(self, other.value()),
    ;
}

/// SLT: signed comparison.
pub trait Slt: Unsigned {
    fn slt(self, other: Self) -> (r: Self)
        ensures
            r == spec_flag::<Self>(signed(self) < signed(other)),
    ;
}

/// SLTU: unsigned comparison.
pub trait Sltu: Unsigned {
    fn sltu(self, other: Self) -> (r: Self)
        ensures
            r == spec_flag::<Self>(self.value() < other.value()),
    ;
}

/// XOR.
pub trait Xor: Unsigned {
    fn xor(self, other: Self) -> (r: Self)
        ensures
            r == spec_xor(self, other),
    ;
}

/// SRL: the shift distance is `other` modulo XLEN.
pub trait Srl: Unsigned {
    fn srl(self, other: Self) -> (r: Self)
        ensures
            r == spec_shr(self, other.value()),
    ;
}

/// SRA: the shift distance is `other` modulo XLEN.
pub trait Sra: Unsigned {
    fn sra(self, other: Self) -> (r: Self)
        ensures
            r == spec_sar(self, other.value()),
    ;
}

/// OR.
pub trait Or: Unsigned {
    fn or(self, other: Self) -> (r: Self)
        ensures
            r == spec_or(self, other),
    ;
}

/// AND.
pub trait And: Unsigned {
    fn and(self, other: Self) -> (r: Self)
        ensures
            r == spec_and(self, other),
    ;
}

/// ADDI: adds the sign-extended immediate.
pub trait Addi: Unsigned {
    fn addi(self, other: U12) -> (r: Self)
        ensures
            r == spec_add(self, imm12::<Self>(other)),
    ;
}

/// SLTI: signed comparison with the sign-extended immediate.
pub trait Slti: Unsigned {
    fn slti(self, other: U12) -> (r: Self)
        ensures
            r == spec_flag::<Self>(signed(self) < sign_extend(other@ as int, 12)),
    ;
}

/// SLTIU: unsigned comparison with the sign-extended immediate.
pub trait Sltiu: Unsigned {
    fn sltiu(self, other: U12) -> (r: Self)
        ensures
            r == spec_flag::<Self>(self.value() < imm12::<Self>(other).value()),
    ;
}

/// XORI: with the sign-extended immediate.
pub trait Xori: Unsigned {
    fn xori(self, other: U12) -> (r: Self)
        ensures
            r == spec_xor(self, imm12::<Self>(other)),
    ;
}

/// ORI: with the sign-extended immediate.
pub trait Ori: Unsigned {
    fn ori(self, other: U12) -> (r: Self)
        ensures
            r == spec_or(self, imm12::<Self>(other)),
    ;
}

/// ANDI: with the sign-extended immediate.
pub trait Andi: Unsigned {
    fn andi(self, other: U12) -> (r: Self)
        ensures
            r == spec_and(self, imm12::<Self>(other)),
    ;
}

/// SLLI: `shamt` is below XLEN.
pub trait Slli: Unsigned {
    fn slli(self, shamt: u32) -> (r: Self)
        requires
            shamt < Self::xlen(),
        ensures
            r == spec_shl(self, shamt as nat),
    ;
}

/// SRLI: `shamt` is below XLEN.
pub trait Srli: Unsigned {
    fn srli(self, shamt: u32) -> (r: Self)
        requires
            shamt < Self::xlen(),
        ensures
            r == spec_shr(self, shamt as nat),
    ;
}

/// SRAI: `shamt` is below XLEN.
pub trait Srai: Unsigned {
    fn srai(self, shamt: u32) -> (r: Self)
        requires
            shamt < Self::xlen(),
        ensures
            r == spec_sar(self, shamt as nat),
    ;
}

/// The three register shifts.
pub trait Shift: Sll + Srl + Sra {

}

/// Every kernel of the base integer instruction set.
pub trait BaseMath: Add + Sub + Sll + Slt + Sltu + Xor + Srl + Sra + Or + And + Addi + Slti + Sltiu + Xori + Ori + Andi + Slli + Srli + Srai + Shift {

}

/// A 12-bit immediate, sign-extended to a `u32`.
fn imm_u32(imm: U12) -> (r: u32)
    ensures
        r == imm12::<u32>(imm),
{
    let v = imm.sign_extend();
    proof {
        lemma_u32_signed(0, v as i32);
    }
    v as i32 as u32
}

impl Add for u32 {
    fn add(self, other: u32) -> u32 {
        self.wrapping_add(other)
    }
}

impl Sub for u32 {
    fn sub(self, other: u32) -> u32 {
        self.wrapping_sub(other)
    }
}

impl Sll for u32 {
    fn sll(self, other: u32) -> u32 {
        self.slli((other % 32) as u32)
    }
}

impl Slt for u32 {
    fn slt(self, other: u32) -> u32 {
        proof {
            <u32 as Unsigned>::lemma_word();
            lemma_u32_signed(self, 0);
            lemma_u32_signed(other, 0);
        }
        if (self as i32) < (other as i32) {
            1
        } else {
            0
        }
    }
}

impl Sltu for u32 {
    fn sltu(self, other: u32) -> u32 {
        if self < other {
            1
        } else {
            0
        }
    }
}

impl Xor for u32 {
    fn xor(self, other: u32) -> u32 {
        proof {
            lemma_u32_bits(self, other, 0);
        }
        self ^ other
    }
}

impl Srl for u32 {
    fn srl(self, other: u32) -> u32 {
        self.srli((other % 32) as u32)
    }
}

impl Sra for u32 {
    fn sra(self, other: u32) -> u32 {
        self.srai((other % 32) as u32)
    }
}

impl Or for u32 {
    fn or(self, other: u32) -> u32 {
        proof {
            lemma_u32_bits(self, other, 0);
        }
        self | other
    }
}

impl And for u32 {
    fn and(self, other: u32) -> u32 {
        proof {
            lemma_u32_bits(self, other, 0);
        }
        self & other
    }
}

impl Addi for u32 {
    fn addi(self, other: U12) -> u32 {
        self.add(imm_u32(other))
    }
}

impl Slti for u32 {
    fn slti(self, other: U12) -> u32 {
        let imm = other.sign_extend();
        proof {
            <u32 as Unsigned>::lemma_word();
            lemma_u32_signed(self, 0);
        }
        if (self as i32) < (imm as i32) {
            1
        } else {
            0
        }
    }
}

impl Sltiu for u32 {
    fn sltiu(self, other: U12) -> u32 {
        self.sltu(imm_u32(other))
    }
}

impl Xori for u32 {
    fn xori(self, other: U12) -> u32 {
        self.xor(imm_u32(other))
    }
}

impl Ori for u32 {
    fn ori(self, other: U12) -> u32 {
        self.or(imm_u32(other))
    }
}

impl Andi for u32 {
    fn andi(self, other: U12) -> u32 {
        self.and(imm_u32(other))
    }
}

impl Slli for u32 {
    fn slli(self, shamt: u32) -> u32 {
        proof {
            lemma_u32_bits(self, 0, shamt);
        }
        self << shamt
    }
}

impl Srli for u32 {
    fn srli(self, shamt: u32) -> u32 {
        proof {
            lemma_u32_bits(self, 0, shamt);
        }
        self >> shamt
    }
}

impl Srai for u32 {
    fn srai(self, shamt: u32) -> u32 {
        let x = self as i32;
        let y = x >> shamt;
        proof {
            <u32 as Unsigned>::lemma_word();
            lemma_u32_signed(self, y);
            lemma_u32_bits(self, 0, shamt);
        }
        y as u32
    }
}

impl Shift for u32 {

}

impl BaseMath for u32 {

}

/// A 12-bit immediate, sign-extended to a `u64`.
fn imm_u64(imm: U12) -> (r: u64)
    ensures
        r == imm12::<u64>(imm),
{
    let v = imm.sign_extend();
    proof {
        lemma_u64_signed(0, v as i64);
    }
    v as i64 as u64
}

impl Add for u64 {
    fn add(self, other: u64) -> u64 {
        self.wrapping_add(other)
    }
}

impl Sub for u64 {
    fn sub(self, other: u64) -> u64 {
        self.wrapping_sub(other)
    }
}

impl Sll for u64 {
    fn sll(self, other: u64) -> u64 {
        self.slli((other % 64) as u32)
    }
}

impl Slt for u64 {
    fn slt(self, other: u64) -> u64 {
        proof {
            <u64 as Unsigned>::lemma_word();
            lemma_u64_signed(self, 0);
            lemma_u64_signed(other, 0);
        }
        if (self as i64) < (other as i64) {
            1
        } else {
            0
        }
    }
}

impl Sltu for u64 {
    fn sltu(self, other: u64) -> u64 {
        if self < other {
            1
        } else {
            0
        }
    }
}

impl Xor for u64 {
    fn xor(self, other: u64) -> u64 {
        proof {
            
        }
        self ^ other
    }
}

impl Srl for u64 {
    fn srl(self, other: u64) -> u64 {
        self.srli((other % 64) as u32)
    }
}

impl Sra for u64 {
    fn sra(self, other: u64) -> u64 {
        self.srai((other % 64) as u32)
    }
}

impl Or for u64 {
    fn or(self, other: u64) -> u64 {
        proof {
            
        }
        self | other
    }
}

impl And for u64 {
    fn and(self, other: u64) -> u64 {
        proof {
            
        }
        self & other
    }
}

impl Addi for u64 {
    fn addi(self, other: U12) -> u64 {
        self.add(imm_u64(other))
    }
}

impl Slti for u64 {
    fn slti(self, other: U12) -> u64 {
        let imm = other.sign_extend();
        proof {
            <u64 as Unsigned>::lemma_word();
            lemma_u64_signed(self, 0);
        }
        if (self as i64) < (imm as i64) {
            1
        } else {
            0
        }
    }
}

impl Sltiu for u64 {
    fn sltiu(self, other: U12) -> u64 {
        self.sltu(imm_u64(other))
    }
}

impl Xori for u64 {
    fn xori(self, other: U12) -> u64 {
        self.xor(imm_u64(other))
    }
}

impl Ori for u64 {
    fn ori(self, other: U12) -> u64 {
        self.or(imm_u64(other))
    }
}

impl Andi for u64 {
    fn andi(self, other: U12) -> u64 {
        self.and(imm_u64(other))
    }
}

impl Slli for u64 {
    fn slli(self, shamt: u32) -> u64 {
        proof {
            
        }
        self << shamt
    }
}

impl Srli for u64 {
    fn srli(self, shamt: u32) -> u64 {
        proof {
            
        }
        self >> shamt
    }
}

impl Srai for u64 {
    fn srai(self, shamt: u32) -> u64 {
        let x = self as i64;
        let y = x >> shamt;
        proof {
            <u64 as Unsigned>::lemma_word();
            lemma_u64_signed(self, y);
            lemma_u64_bits(self, shamt as u64);
        }
        y as u64
    }
}

impl Shift for u64 {

}

impl BaseMath for u64 {

}

/// The low 32 bits of a word.
pub open spec fn low32<T: Unsigned>(a: T) -> u32 {
    (a.value() % 0x1_0000_0000) as u32
}

/// ADDW (RV64): 32-bit addition, sign-extended.
pub trait Addw: Unsigned {
    fn addw(self, other: Self) -> (r: Self)
        ensures
            r == spec_imm::<Self>(spec_add::<u32>(low32(self), low32(other))),
    ;
}

/// SUBW (RV64): 32-bit subtraction, sign-extended.
pub trait Subw: Unsigned {
    fn subw(self, other: Self) -> (r: Self)
        ensures
            r == spec_imm::<Self>(spec_sub::<u32>(low32(self), low32(other))),
    ;
}

/// SLLW (RV64): 32-bit left shift by `other` modulo 32, sign-extended.
pub trait Sllw: Unsigned {
    fn sllw(self, other: Self) -> (r: Self)
        ensures
            r == spec_imm::<Self>(spec_shl::<u32>(low32(self), other.value())),
    ;
}

/// SRLW (RV64): 32-bit logical right shift by `other` modulo 32, sign-extended.
pub trait Srlw: Unsigned {
    fn srlw(self, other: Self) -> (r: Self)
        ensures
            r == spec_imm::<Self>(spec_shr::<u32>(low32(self), other.value())),
    ;
}

/// SRAW (RV64): 32-bit arithmetic right shift by `other` modulo 32, sign-extended.
pub trait Sraw: Unsigned {
    fn sraw(self, other: Self) -> (r: Self)
        ensures
            r == spec_imm::<Self>(spec_sar::<u32>(low32(self), other.value())),
    ;
}

/// ADDIW (RV64): 32-bit addition of the sign-extended immediate, sign-extended.
pub trait Addiw: Unsigned {
    fn addiw(self, other: U12) -> (r: Self)
        ensures
            r == spec_imm::<Self>(spec_add::<u32>(low32(self), imm12::<u32>(other))),
    ;
}

/// SLLIW (RV64): 32-bit left shift, sign-extended.
pub trait Slliw: Unsigned {
    fn slliw(self, shamt: u32) -> (r: Self)
        requires
            shamt < 32,
        ensures
            r == spec_imm::<Self>(spec_shl::<u32>(low32(self), shamt as nat)),
    ;
}

/// SRLIW (RV64): 32-bit logical right shift, sign-extended.
pub trait Srliw: Unsigned {
    fn srliw(self, shamt: u32) -> (r: Self)
        requires
            shamt < 32,
        ensures
            r == spec_imm::<Self>(spec_shr::<u32>(low32(self), shamt as nat)),
    ;
}

/// SRAIW (RV64): 32-bit arithmetic right shift, sign-extended.
pub trait Sraiw: Unsigned {
    fn sraiw(self, shamt: u32) -> (r: Self)
        requires
            shamt < 32,
        ensures
            r == spec_imm::<Self>(spec_sar::<u32>(low32(self), shamt as nat)),
    ;
}

/// Every kernel of RV64I: the base set and the word instructions.
pub trait MathW: BaseMath + Addw + Subw + Sllw + Srlw + Sraw + Addiw + Slliw + Srliw + Sraiw {

}

/// The low 32 bits of a `u64`.
fn low_u32(a: u64) -> (r: u32)
    ensures
        r == low32(a),
{
    proof {
        lemma_u64_bits(a, 0);
    }
    a as u32
}

impl Addw for u64 {
    fn addw(self, other: u64) -> u64 {
        u64::imm(low_u32(self).add(low_u32(other)))
    }
}

impl Subw for u64 {
    fn subw(self, other: u64) -> u64 {
        u64::imm(low_u32(self).sub(low_u32(other)))
    }
}

impl Sllw for u64 {
    fn sllw(self, other: u64) -> u64 {
        u64::imm(low_u32(self).slli((other % 32) as u32))
    }
}

impl Srlw for u64 {
    fn srlw(self, other: u64) -> u64 {
        u64::imm(low_u32(self).srli((other % 32) as u32))
    }
}

impl Sraw for u64 {
    fn sraw(self, other: u64) -> u64 {
        u64::imm(low_u32(self).srai((other % 32) as u32))
    }
}

impl Addiw for u64 {
    fn addiw(self, other: U12) -> u64 {
        u64::imm(low_u32(self).addi(other))
    }
}

impl Slliw for u64 {
    fn slliw(self, shamt: u32) -> u64 {
        u64::imm(low_u32(self).slli(shamt))
    }
}

impl Srliw for u64 {
    fn srliw(self, shamt: u32) -> u64 {
        u64::imm(low_u32(self).srli(shamt))
    }
}

impl Sraiw for u64 {
    fn sraiw(self, shamt: u32) -> u64 {
        u64::imm(low_u32(self).srai(shamt))
    }
}

impl MathW for u64 {

}

/// What the shift laws rely on of the 64-bit shifts.
proof fn lemma_shift_bits(x: u64, i: i64, s: u64)
    by (bit_vector)
    requires
        s < 64,
    ensures
        x << 0u64 == x,
        x >> 0u64 == x,
        i >> 0u64 == i,
        i < 0 ==> (i >> s) < 0 && (i >> s) >= i,
        i < 0 ==> i >> 63u64 == -1,
        -0x8000_0000 <= i < 0 ==> i >> 31u64 == -1,
{
}

/// Only the shift distance modulo XLEN counts.
pub proof fn lemma_shift_amount_masked<T: Unsigned>(a: T, sh: nat)
    ensures
        spec_shl(a, sh) == spec_shl(a, sh % T::xlen()),
        spec_shr(a, sh) == spec_shr(a, sh % T::xlen()),
        spec_sar(a, sh) == spec_sar(a, sh % T::xlen()),
{
    T::lemma_word();
    vstd::arithmetic::div_mod::lemma_mod_twice(sh as int, T::xlen() as int);
}

/// A shift by XLEN is no shift at all.
pub proof fn lemma_shift_by_xlen<T: Unsigned>(a: T)
    ensures
        spec_shl(a, T::xlen()) == a,
        spec_shr(a, T::xlen()) == a,
        spec_sar(a, T::xlen()) == a,
{
    T::lemma_word();
    vstd::arithmetic::div_mod::lemma_mod_self_0(T::xlen() as int);
    lemma_shift_bits(a.value() as u64, signed(a) as i64, 0);
    assert(T::wrap(a.value() as int) == a);
    vstd::arithmetic::div_mod::lemma_mod_add_multiples_vanish(signed(a), modulus::<T>());
    lemma_wrap_mod::<T>(signed(a), a.value() as int);
}

/// An arithmetic right shift of a negative word fills with ones: the result
/// stays negative, and a shift by XLEN - 1 leaves every bit set.
pub proof fn lemma_sra_negative<T: Unsigned>(a: T, sh: nat)
    requires
        signed(a) < 0,
    ensures
        signed(spec_sar(a, sh)) < 0,
        spec_sar(a, (T::xlen() - 1) as nat) == T::wrap(-1),
{
    T::lemma_word();
    let i = signed(a) as i64;
    let s = shift_amount::<T>(sh);
    lemma_shift_bits(0, i, s);
    let r = (i >> s) as int;
    assert(-modulus::<T>() / 2 <= r < 0);
    vstd::arithmetic::div_mod::lemma_mod_add_multiples_vanish(r, modulus::<T>());
    assert(T::wrap(r).value() == r + modulus::<T>());
    let top = (T::xlen() - 1) as nat;
    vstd::arithmetic::div_mod::lemma_small_mod(top, T::xlen());
    lemma_shift_bits(0, i, shift_amount::<T>(top));
}

} // verus!
