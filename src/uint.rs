//! Unsigned integers narrower than the machine types, as found in the
//! fields of an instruction word.
use vstd::prelude::*;

verus! {

/// `v` read as an `n`-bit two's complement number, for `0 <= v < 2^n`.
pub open spec fn sign_extend(v: int, n: nat) -> int {
    if v < vstd::arithmetic::power2::pow2((n - 1) as nat) {
        v
    } else {
        v - vstd::arithmetic::power2::pow2(n)
    }
}

/// An unsigned integer of 2 bits, stored in a `u8`; the value is always below 4.
#[derive(Debug, Clone, Copy, PartialEq, Eq, Structural)]
pub struct U2(u8);

impl View for U2 {
    type V = nat;

    closed spec fn view(&self) -> nat {
        self.0 as nat
    }
}

impl U2 {
    #[verifier::type_invariant]
    spec fn fits(self) -> bool {
        self.0 < 4
    }

    /// Width in bits.
    pub const BITS: u32 = 2;

    /// Mask of the low 2 bits.
    pub const BITMASK: u8 = 4 - 1;

    /// Checked construction: `None` when `value` does not fit in 2 bits.
    pub fn new(value: u8) -> (r: Option<Self>)
        ensures
            value < 4 <==> r is Some,
            r matches Some(x) ==> x@ == value,
    {
        if value < 4 {
            Some(U2(value))
        } else {
            None
        }
    }

    /// Construction from a value that the caller knows to fit.
    pub fn new_unchecked(value: u8) -> (r: Self)
        requires
            value < 4,
        ensures
            r@ == value,
    {
        U2(value)
    }

    /// Keeps the low 2 bits of `value`.
    pub fn new_truncate(value: u8) -> (r: Self)
        ensures
            r@ == value % 4,
    {
        U2(value % 4)
    }

    /// The value as a `u8`.
    pub fn get(&self) -> (r: u8)
        ensures
            r == self@,
            r < 4,
    {
        proof {
            use_type_invariant(self);
        }
        self.0
    }

    /// Zero extension to 32 bits.
    pub fn as_u32(&self) -> (r: u32)
        ensures
            r == self@,
            r < 4,
    {
        proof {
            use_type_invariant(self);
        }
        self.0 as u32
    }

    /// Zero extension to 64 bits.
    pub fn as_u64(&self) -> (r: u64)
        ensures
            r == self@,
            r < 4,
    {
        proof {
            use_type_invariant(self);
        }
        self.0 as u64
    }

    /// Reads the value as a 2-bit two's complement number.
    pub fn sign_extend(&self) -> (r: i8)
        ensures
            r == sign_extend(self@ as int, 2),
    {
        proof {
            use_type_invariant(self);
            vstd::arithmetic::power2::lemma2_to64();
        }
        if self.0 < 2 {
            self.0 as i8
        } else {
            (self.0 as i64 - 4) as i8
        }
    }
}

/// An unsigned integer of 3 bits, stored in a `u8`; the value is always below 8.
#[derive(Debug, Clone, Copy, PartialEq, Eq, Structural)]
pub struct U3(u8);

impl View for U3 {
    type V = nat;

    closed spec fn view(&self) -> nat {
        self.0 as nat
    }
}

impl U3 {
    #[verifier::type_invariant]
    spec fn fits(self) -> bool {
        self.0 < 8
    }

    /// Width in bits.
    pub const BITS: u32 = 3;

    /// Mask of the low 3 bits.
    pub const BITMASK: u8 = 8 - 1;

    /// Checked construction: `None` when `value` does not fit in 3 bits.
    pub fn new(value: u8) -> (r: Option<Self>)
        ensures
            value < 8 <==> r is Some,
            r matches Some(x) ==> x@ == value,
    {
        if value < 8 {
            Some(U3(value))
        } else {
            None
        }
    }

    /// Construction from a value that the caller knows to fit.
    pub fn new_unchecked(value: u8) -> (r: Self)
        requires
            value < 8,
        ensures
            r@ == value,
    {
        U3(value)
    }

    /// Keeps the low 3 bits of `value`.
    pub fn new_truncate(value: u8) -> (r: Self)
        ensures
            r@ == value % 8,
    {
        U3(value % 8)
    }

    /// The value as a `u8`.
    pub fn get(&self) -> (r: u8)
        ensures
            r == self@,
            r < 8,
    {
        proof {
            use_type_invariant(self);
        }
        self.0
    }

    /// Zero extension to 32 bits.
    pub fn as_u32(&self) -> (r: u32)
        ensures
            r == self@,
            r < 8,
    {
        proof {
            use_type_invariant(self);
        }
        self.0 as u32
    }

    /// Zero extension to 64 bits.
    pub fn as_u64(&self) -> (r: u64)
        ensures
            r == self@,
            r < 8,
    {
        proof {
            use_type_invariant(self);
        }
        self.0 as u64
    }

    /// Reads the value as a 3-bit two's complement number.
    pub fn sign_extend(&self) -> (r: i8)
        ensures
            r == sign_extend(self@ as int, 3),
    {
        proof {
            use_type_invariant(self);
            vstd::arithmetic::power2::lemma2_to64();
        }
        if self.0 < 4 {
            self.0 as i8
        } else {
            (self.0 as i64 - 8) as i8
        }
    }
}

/// An unsigned integer of 4 bits, stored in a `u8`; the value is always below 16.
#[derive(Debug, Clone, Copy, PartialEq, Eq, Structural)]
pub struct U4(u8);

impl View for U4 {
    type V = nat;

    closed spec fn view(&self) -> nat {
        self.0 as nat
    }
}

impl U4 {
    #[verifier::type_invariant]
    spec fn fits(self) -> bool {
        self.0 < 16
    }

    /// Width in bits.
    pub const BITS: u32 = 4;

    /// Mask of the low 4 bits.
    pub const BITMASK: u8 = 16 - 1;

    /// Checked construction: `None` when `value` does not fit in 4 bits.
    pub fn new(value: u8) -> (r: Option<Self>)
        ensures
            value < 16 <==> r is Some,
            r matches Some(x) ==> x@ == value,
    {
        if value < 16 {
            Some(U4(value))
        } else {
            None
        }
    }

    /// Construction from a value that the caller knows to fit.
    pub fn new_unchecked(value: u8) -> (r: Self)
        requires
            value < 16,
        ensures
            r@ == value,
    {
        U4(value)
    }

    /// Keeps the low 4 bits of `value`.
    pub fn new_truncate(value: u8) -> (r: Self)
        ensures
            r@ == value % 16,
    {
        U4(value % 16)
    }

    /// The value as a `u8`.
    pub fn get(&self) -> (r: u8)
        ensures
            r == self@,
            r < 16,
    {
        proof {
            use_type_invariant(self);
        }
        self.0
    }

    /// Zero extension to 32 bits.
    pub fn as_u32(&self) -> (r: u32)
        ensures
            r == self@,
            r < 16,
    {
        proof {
            use_type_invariant(self);
        }
        self.0 as u32
    }

    /// Zero extension to 64 bits.
    pub fn as_u64(&self) -> (r: u64)
        ensures
            r == self@,
            r < 16,
    {
        proof {
            use_type_invariant(self);
        }
        self.0 as u64
    }

    /// Reads the value as a 4-bit two's complement number.
    pub fn sign_extend(&self) -> (r: i8)
        ensures
            r == sign_extend(self@ as int, 4),
    {
        proof {
            use_type_invariant(self);
            vstd::arithmetic::power2::lemma2_to64();
        }
        if self.0 < 8 {
            self.0 as i8
        } else {
            (self.0 as i64 - 16) as i8
        }
    }
}

/// An unsigned integer of 5 bits, stored in a `u8`; the value is always below 32.
#[derive(Debug, Clone, Copy, PartialEq, Eq, Structural)]
pub struct U5(u8);

impl View for U5 {
    type V = nat;

    closed spec fn view(&self) -> nat {
        self.0 as nat
    }
}

impl U5 {
    #[verifier::type_invariant]
    spec fn fits(self) -> bool {
        self.0 < 32
    }

    /// Width in bits.
    pub const BITS: u32 = 5;

    /// Mask of the low 5 bits.
    pub const BITMASK: u8 = 32 - 1;

    /// Checked construction: `None` when `value` does not fit in 5 bits.
    pub fn new(value: u8) -> (r: Option<Self>)
        ensures
            value < 32 <==> r is Some,
            r matches Some(x) ==> x@ == value,
    {
        if value < 32 {
            Some(U5(value))
        } else {
            None
        }
    }

    /// Construction from a value that the caller knows to fit.
    pub fn new_unchecked(value: u8) -> (r: Self)
        requires
            value < 32,
        ensures
            r@ == value,
    {
        U5(value)
    }

    /// Keeps the low 5 bits of `value`.
    pub fn new_truncate(value: u8) -> (r: Self)
        ensures
            r@ == value % 32,
    {
        U5(value % 32)
    }

    /// The value as a `u8`.
    pub fn get(&self) -> (r: u8)
        ensures
            r == self@,
            r < 32,
    {
        proof {
            use_type_invariant(self);
        }
        self.0
    }

    /// Zero extension to 32 bits.
    pub fn as_u32(&self) -> (r: u32)
        ensures
            r == self@,
            r < 32,
    {
        proof {
            use_type_invariant(self);
        }
        self.0 as u32
    }

    /// Zero extension to 64 bits.
    pub fn as_u64(&self) -> (r: u64)
        ensures
            r == self@,
            r < 32,
    {
        proof {
            use_type_invariant(self);
        }
        self.0 as u64
    }

    /// Reads the value as a 5-bit two's complement number.
    pub fn sign_extend(&self) -> (r: i8)
        ensures
            r == sign_extend(self@ as int, 5),
    {
        proof {
            use_type_invariant(self);
            vstd::arithmetic::power2::lemma2_to64();
        }
        if self.0 < 16 {
            self.0 as i8
        } else {
            (self.0 as i64 - 32) as i8
        }
    }
}

/// An unsigned integer of 7 bits, stored in a `u8`; the value is always below 128.
#[derive(Debug, Clone, Copy, PartialEq, Eq, Structural)]
pub struct U7(u8);

impl View for U7 {
    type V = nat;

    closed spec fn view(&self) -> nat {
        self.0 as nat
    }
}

impl U7 {
    #[verifier::type_invariant]
    spec fn fits(self) -> bool {
        self.0 < 128
    }

    /// Width in bits.
    pub const BITS: u32 = 7;

    /// Mask of the low 7 bits.
    pub const BITMASK: u8 = 128 - 1;

    /// Checked construction: `None` when `value` does not fit in 7 bits.
    pub fn new(value: u8) -> (r: Option<Self>)
        ensures
            value < 128 <==> r is Some,
            r matches Some(x) ==> x@ == value,
    {
        if value < 128 {
            Some(U7(value))
        } else {
            None
        }
    }

    /// Construction from a value that the caller knows to fit.
    pub fn new_unchecked(value: u8) -> (r: Self)
        requires
            value < 128,
        ensures
            r@ == value,
    {
        U7(value)
    }

    /// Keeps the low 7 bits of `value`.
    pub fn new_truncate(value: u8) -> (r: Self)
        ensures
            r@ == value % 128,
    {
        U7(value % 128)
    }

    /// The value as a `u8`.
    pub fn get(&self) -> (r: u8)
        ensures
            r == self@,
            r < 128,
    {
        proof {
            use_type_invariant(self);
        }
        self.0
    }

    /// Zero extension to 32 bits.
    pub fn as_u32(&self) -> (r: u32)
        ensures
            r == self@,
            r < 128,
    {
        proof {
            use_type_invariant(self);
        }
        self.0 as u32
    }

    /// Zero extension to 64 bits.
    pub fn as_u64(&self) -> (r: u64)
        ensures
            r == self@,
            r < 128,
    {
        proof {
            use_type_invariant(self);
        }
        self.0 as u64
    }

    /// Reads the value as a 7-bit two's complement number.
    pub fn sign_extend(&self) -> (r: i8)
        ensures
            r == sign_extend(self@ as int, 7),
    {
        proof {
            use_type_invariant(self);
            vstd::arithmetic::power2::lemma2_to64();
        }
        if self.0 < 64 {
            self.0 as i8
        } else {
            (self.0 as i64 - 128) as i8
        }
    }
}

/// An unsigned integer of 12 bits, stored in a `u16`; the value is always below 4096.
#[derive(Debug, Clone, Copy, PartialEq, Eq, Structural)]
pub struct U12(u16);

impl View for U12 {
    type V = nat;

    closed spec fn view(&self) -> nat {
        self.0 as nat
    }
}

impl U12 {
    #[verifier::type_invariant]
    spec fn fits(self) -> bool {
        self.0 < 4096
    }

    /// Width in bits.
    pub const BITS: u32 = 12;

    /// Mask of the low 12 bits.
    pub const BITMASK: u16 = 4096 - 1;

    /// Checked construction: `None` when `value` does not fit in 12 bits.
    pub fn new(value: u16) -> (r: Option<Self>)
        ensures
            value < 4096 <==> r is Some,
            r matches Some(x) ==> x@ == value,
    {
        if value < 4096 {
            Some(U12(value))
        } else {
            None
        }
    }

    /// Construction from a value that the caller knows to fit.
    pub fn new_unchecked(value: u16) -> (r: Self)
        requires
            value < 4096,
        ensures
            r@ == value,
    {
        U12(value)
    }

    /// Keeps the low 12 bits of `value`.
    pub fn new_truncate(value: u16) -> (r: Self)
        ensures
            r@ == value % 4096,
    {
        U12(value % 4096)
    }

    /// The value as a `u16`.
    pub fn get(&self) -> (r: u16)
        ensures
            r == self@,
            r < 4096,
    {
        proof {
            use_type_invariant(self);
        }
        self.0
    }

    /// Zero extension to 32 bits.
    pub fn as_u32(&self) -> (r: u32)
        ensures
            r == self@,
            r < 4096,
    {
        proof {
            use_type_invariant(self);
        }
        self.0 as u32
    }

    /// Zero extension to 64 bits.
    pub fn as_u64(&self) -> (r: u64)
        ensures
            r == self@,
            r < 4096,
    {
        proof {
            use_type_invariant(self);
        }
        self.0 as u64
    }

    /// Reads the value as a 12-bit two's complement number.
    pub fn sign_extend(&self) -> (r: i16)
        ensures
            r == sign_extend(self@ as int, 12),
    {
        proof {
            use_type_invariant(self);
            vstd::arithmetic::power2::lemma2_to64();
        }
        if self.0 < 2048 {
            self.0 as i16
        } else {
            (self.0 as i64 - 4096) as i16
        }
    }
}

/// An unsigned integer of 13 bits, stored in a `u16`; the value is always below 8192.
#[derive(Debug, Clone, Copy, PartialEq, Eq, Structural)]
pub struct U13(u16);

impl View for U13 {
    type V = nat;

    closed spec fn view(&self) -> nat {
        self.0 as nat
    }
}

impl U13 {
    #[verifier::type_invariant]
    spec fn fits(self) -> bool {
        self.0 < 8192
    }

    /// Width in bits.
    pub const BITS: u32 = 13;

    /// Mask of the low 13 bits.
    pub const BITMASK: u16 = 8192 - 1;

    /// Checked construction: `None` when `value` does not fit in 13 bits.
    pub fn new(value: u16) -> (r: Option<Self>)
        ensures
            value < 8192 <==> r is Some,
            r matches Some(x) ==> x@ == value,
    {
        if value < 8192 {
            Some(U13(value))
        } else {
            None
        }
    }

    /// Construction from a value that the caller knows to fit.
    pub fn new_unchecked(value: u16) -> (r: Self)
        requires
            value < 8192,
        ensures
            r@ == value,
    {
        U13(value)
    }

    /// Keeps the low 13 bits of `value`.
    pub fn new_truncate(value: u16) -> (r: Self)
        ensures
            r@ == value % 8192,
    {
        U13(value % 8192)
    }

    /// The value as a `u16`.
    pub fn get(&self) -> (r: u16)
        ensures
            r == self@,
            r < 8192,
    {
        proof {
            use_type_invariant(self);
        }
        self.0
    }

    /// Zero extension to 32 bits.
    pub fn as_u32(&self) -> (r: u32)
        ensures
            r == self@,
            r < 8192,
    {
        proof {
            use_type_invariant(self);
        }
        self.0 as u32
    }

    /// Zero extension to 64 bits.
    pub fn as_u64(&self) -> (r: u64)
        ensures
            r == self@,
            r < 8192,
    {
        proof {
            use_type_invariant(self);
        }
        self.0 as u64
    }

    /// Reads the value as a 13-bit two's complement number.
    pub fn sign_extend(&self) -> (r: i16)
        ensures
            r == sign_extend(self@ as int, 13),
    {
        proof {
            use_type_invariant(self);
            vstd::arithmetic::power2::lemma2_to64();
        }
        if self.0 < 4096 {
            self.0 as i16
        } else {
            (self.0 as i64 - 8192) as i16
        }
    }
}

/// An unsigned integer of 21 bits, stored in a `u32`; the value is always below 2097152.
#[derive(Debug, Clone, Copy, PartialEq, Eq, Structural)]
pub struct U21(u32);

impl View for U21 {
    type V = nat;

    closed spec fn view(&self) -> nat {
        self.0 as nat
    }
}

impl U21 {
    #[verifier::type_invariant]
    spec fn fits(self) -> bool {
        self.0 < 2097152
    }

    /// Width in bits.
    pub const BITS: u32 = 21;

    /// Mask of the low 21 bits.
    pub const BITMASK: u32 = 2097152 - 1;

    /// Checked construction: `None` when `value` does not fit in 21 bits.
    pub fn new(value: u32) -> (r: Option<Self>)
        ensures
            value < 2097152 <==> r is Some,
            r matches Some(x) ==> x@ == value,
    {
        if value < 2097152 {
            Some(U21(value))
        } else {
            None
        }
    }

    /// Construction from a value that the caller knows to fit.
    pub fn new_unchecked(value: u32) -> (r: Self)
        requires
            value < 2097152,
        ensures
            r@ == value,
    {
        U21(value)
    }

    /// Keeps the low 21 bits of `value`.
    pub fn new_truncate(value: u32) -> (r: Self)
        ensures
            r@ == value % 2097152,
    {
        U21(value % 2097152)
    }

    /// The value as a `u32`.
    pub fn get(&self) -> (r: u32)
        ensures
            r == self@,
            r < 2097152,
    {
        proof {
            use_type_invariant(self);
        }
        self.0
    }

    /// Zero extension to 32 bits.
    pub fn as_u32(&self) -> (r: u32)
        ensures
            r == self@,
            r < 2097152,
    {
        proof {
            use_type_invariant(self);
        }
        self.0 as u32
    }

    /// Zero extension to 64 bits.
    pub fn as_u64(&self) -> (r: u64)
        ensures
            r == self@,
            r < 2097152,
    {
        proof {
            use_type_invariant(self);
        }
        self.0 as u64
    }

    /// Reads the value as a 21-bit two's complement number.
    pub fn sign_extend(&self) -> (r: i32)
        ensures
            r == sign_extend(self@ as int, 21),
    {
        proof {
            use_type_invariant(self);
            vstd::arithmetic::power2::lemma2_to64();
        }
        if self.0 < 1048576 {
            self.0 as i32
        } else {
            (self.0 as i64 - 2097152) as i32
        }
    }
}

} // verus!
