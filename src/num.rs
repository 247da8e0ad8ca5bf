//! The machine word: what the interpreter needs of `u32` (RV32I) and `u64` (RV64I).
use vstd::arithmetic::power2::{lemma2_to64, lemma2_to64_rest, pow2};
use vstd::prelude::*;

verus! {

/// A machine word of XLEN bits.
///
/// A word is modelled by its unsigned value, a number below `2^XLEN`; `wrap`
/// goes the other way, reducing any integer modulo `2^XLEN`.
pub trait Unsigned: Copy + Sized {
    /// XLEN: 32 or 64.
    spec fn xlen() -> nat;

    /// The word read as an unsigned number.
    spec fn value(self) -> nat;

    /// The word whose unsigned value is `i` modulo `2^XLEN`.
    spec fn wrap(i: int) -> Self;

    /// The model is a bijection between words and the numbers below `2^XLEN`.
    proof fn lemma_word()
        ensures
            Self::xlen() == 32 || Self::xlen() == 64,
            pow2(Self::xlen()) == if Self::xlen() == 32 {
                0x1_0000_0000nat
            } else {
                0x1_0000_0000_0000_0000nat
            },
            forall|i: int| #[trigger] Self::wrap(i).value() == i % (pow2(Self::xlen()) as int),
            forall|a: Self| #[trigger] a.value() < pow2(Self::xlen()),
            forall|a: Self| Self::wrap(#[trigger] a.value() as int) == a,
    ;

    /// The unsigned value, zero-extended to 64 bits.
    fn to_u64(self) -> (r: u64)
        ensures
            r == self.value(),
    ;

    /// XLEN as a number.
    fn xlen_bits() -> (r: u32)
        ensures
            r == Self::xlen(),
    ;

    /// The low XLEN bits of `v`.
    fn from_u64(v: u64) -> (r: Self)
        ensures
            r == Self::wrap(v as int),
    ;
}

/// `2^XLEN`.
pub open spec fn modulus<T: Unsigned>() -> int {
    pow2(T::xlen()) as int
}

/// The word read as a two's complement number.
pub open spec fn signed<T: Unsigned>(a: T) -> int {
    if a.value() < modulus::<T>() / 2 {
        a.value() as int
    } else {
        a.value() - modulus::<T>()
    }
}

/// Integers that agree modulo `2^XLEN` wrap to the same word.
pub proof fn lemma_wrap_mod<T: Unsigned>(i: int, j: int)
    requires
        i % modulus::<T>() == j % modulus::<T>(),
    ensures
        T::wrap(i) == T::wrap(j),
{
    T::lemma_word();
    let a = T::wrap(i);
    let b = T::wrap(j);
    assert(T::wrap(a.value() as int) == a);
    assert(T::wrap(b.value() as int) == b);
}

/// Adding a wrapped integer is adding the integer, then wrapping.
pub proof fn lemma_add_wrap<T: Unsigned>(a: T, i: int)
    ensures
        T::wrap(a.value() + T::wrap(i).value() as int) == T::wrap(a.value() + i),
{
    T::lemma_word();
    let m = modulus::<T>();
    vstd::arithmetic::div_mod::lemma_add_mod_noop(a.value() as int, i, m);
    vstd::arithmetic::div_mod::lemma_add_mod_noop(a.value() as int, T::wrap(i).value() as int, m);
    vstd::arithmetic::div_mod::lemma_mod_twice(i, m);
    lemma_wrap_mod::<T>(a.value() + T::wrap(i).value() as int, a.value() + i);
}

/// The constant zero.
pub trait Zero: Unsigned {
    fn zero() -> (r: Self)
        ensures
            r == Self::wrap(0),
    ;
}

/// The constant one.
pub trait One: Unsigned {
    fn one() -> (r: Self)
        ensures
            r == Self::wrap(1),
    ;
}

impl Unsigned for u32 {
    open spec fn xlen() -> nat {
        32
    }

    open spec fn value(self) -> nat {
        self as nat
    }

    open spec fn wrap(i: int) -> u32 {
        (i % 0x1_0000_0000) as u32
    }

    proof fn lemma_word() {
        lemma2_to64();
    }

    fn to_u64(self) -> u64 {
        self as u64
    }

    fn xlen_bits() -> u32 {
        32
    }

    fn from_u64(v: u64) -> u32 {
        (v % 0x1_0000_0000) as u32
    }
}

impl Unsigned for u64 {
    open spec fn xlen() -> nat {
        64
    }

    open spec fn value(self) -> nat {
        self as nat
    }

    open spec fn wrap(i: int) -> u64 {
        (i % 0x1_0000_0000_0000_0000) as u64
    }

    proof fn lemma_word() {
        lemma2_to64();
        lemma2_to64_rest();
    }

    fn to_u64(self) -> u64 {
        self
    }

    fn xlen_bits() -> u32 {
        64
    }

    fn from_u64(v: u64) -> u64 {
        v
    }
}

impl Zero for u32 {
    fn zero() -> u32 {
        0
    }
}

impl Zero for u64 {
    fn zero() -> u64 {
        0
    }
}

impl One for u32 {
    fn one() -> u32 {
        1
    }
}

impl One for u64 {
    fn one() -> u64 {
        1
    }
}

} // verus!

verus! {

/// Bit-level facts about `u32` that relate its native operations to the word model.
pub proof fn lemma_u32_bits(x: u32, y: u32, s: u32)
    by (bit_vector)
    requires
        s < 32,
    ensures
        ((x as u64) << (s as u64)) % 0x1_0000_0000 == (x << s) as u64,
        (x as u64) >> (s as u64) == (x >> s) as u64,
        ((x as i32) as i64) >> (s as u64) == ((x as i32) >> s) as i64,
        (x as u64) ^ (y as u64) == (x ^ y) as u64,
        (x as u64) | (y as u64) == (x | y) as u64,
        (x as u64) & (y as u64) == (x & y) as u64,
{
}

/// How `u32` and `i32` reinterpret each other.
pub proof fn lemma_u32_signed(x: u32, y: i32)
    by (bit_vector)
    ensures
        x < 0x8000_0000 ==> (x as i32) as int == x as int,
        x >= 0x8000_0000 ==> (x as i32) as int == x as int - 0x1_0000_0000,
        y >= 0 ==> (y as u32) as int == y as int,
        y < 0 ==> (y as u32) as int == y as int + 0x1_0000_0000,
{
}

} // verus!

verus! {

/// Bit-level facts about `u64` that relate its native operations to the word model.
pub proof fn lemma_u64_bits(x: u64, s: u64)
    by (bit_vector)
    requires
        s < 64,
    ensures
        ((x as i64) >> s) as i64 == (x as i64) >> (s as u32),
        (x as u32) as u64 == x % 0x1_0000_0000,
{
}

/// How `u64` and `i64` reinterpret each other.
pub proof fn lemma_u64_signed(x: u64, y: i64)
    by (bit_vector)
    ensures
        x < 0x8000_0000_0000_0000 ==> (x as i64) as int == x as int,
        x >= 0x8000_0000_0000_0000 ==> (x as i64) as int == x as int - 0x1_0000_0000_0000_0000,
        y >= 0 ==> (y as u64) as int == y as int,
        y < 0 ==> (y as u64) as int == y as int + 0x1_0000_0000_0000_0000,
{
}

} // verus!

verus! {

/// How bytes and half words reinterpret as signed.
pub proof fn lemma_narrow_signed(b: u8, h: u16)
    by (bit_vector)
    ensures
        b < 0x80 ==> (b as i8) as int == b as int,
        b >= 0x80 ==> (b as i8) as int == b as int - 0x100,
        h < 0x8000 ==> (h as i16) as int == h as int,
        h >= 0x8000 ==> (h as i16) as int == h as int - 0x1_0000,
{
}

/// The low bit of a double word is its remainder by two.
pub proof fn lemma_low_bit(x: u64)
    by (bit_vector)
    ensures
        x & 1 == x % 2,
{
}

} // verus!
