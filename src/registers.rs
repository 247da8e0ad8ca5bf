//! The register file: x1 to x31 hold words, x0 reads as zero and drops writes.
use crate::num::{Unsigned, Zero};
use crate::uint::U5;
use vstd::prelude::*;

verus! {

/// One of the registers x1 to x31.
#[derive(Debug, Clone, Copy, PartialEq, Eq, Structural)]
pub enum Register {
    X1,
    X2,
    X3,
    X4,
    X5,
    X6,
    X7,
    X8,
    X9,
    X10,
    X11,
    X12,
    X13,
    X14,
    X15,
    X16,
    X17,
    X18,
    X19,
    X20,
    X21,
    X22,
    X23,
    X24,
    X25,
    X26,
    X27,
    X28,
    X29,
    X30,
    X31,
}

/// A register operand: x0, or one of x1 to x31.
#[derive(Debug, Clone, Copy, PartialEq, Eq, Structural)]
pub enum ZeroOrRegister {
    Zero,
    Register(Register),
}

/// The contents of x1 to x31.
#[derive(Debug)]
pub struct Registers<T>([T; 31]);

/// Register `n` of a file whose x1 to x31 are `regs`: x0 reads as zero.
pub open spec fn read_reg<T: Unsigned>(regs: Seq<T>, n: nat) -> T {
    if n == 0 {
        T::wrap(0)
    } else {
        regs[n - 1]
    }
}

/// The file `regs` after `v` is written to register `n`: a write to x0 is dropped.
pub open spec fn write_reg<T>(regs: Seq<T>, n: nat, v: T) -> Seq<T> {
    if n == 0 {
        regs
    } else {
        regs.update(n - 1, v)
    }
}

impl<T> View for Registers<T> {
    type V = Seq<T>;

    closed spec fn view(&self) -> Seq<T> {
        self.0@
    }
}

/// A file always has 31 entries.
pub proof fn lemma_registers_len<T>(regs: &Registers<T>)
    ensures
        regs@.len() == 31,
{
}

impl Register {
    /// The register number, from 1 to 31.
    pub open spec fn number(self) -> nat {
        match self {
            Register::X1 => 1,
            Register::X2 => 2,
            Register::X3 => 3,
            Register::X4 => 4,
            Register::X5 => 5,
            Register::X6 => 6,
            Register::X7 => 7,
            Register::X8 => 8,
            Register::X9 => 9,
            Register::X10 => 10,
            Register::X11 => 11,
            Register::X12 => 12,
            Register::X13 => 13,
            Register::X14 => 14,
            Register::X15 => 15,
            Register::X16 => 16,
            Register::X17 => 17,
            Register::X18 => 18,
            Register::X19 => 19,
            Register::X20 => 20,
            Register::X21 => 21,
            Register::X22 => 22,
            Register::X23 => 23,
            Register::X24 => 24,
            Register::X25 => 25,
            Register::X26 => 26,
            Register::X27 => 27,
            Register::X28 => 28,
            Register::X29 => 29,
            Register::X30 => 30,
            Register::X31 => 31,
        }
    }

    /// The register numbered `n`, for `1 <= n <= 31`.
    pub fn from_number(n: u8) -> (r: Register)
        requires
            1 <= n <= 31,
        ensures
            r.number() == n,
    {
        match n {
            1 => Register::X1,
            2 => Register::X2,
            3 => Register::X3,
            4 => Register::X4,
            5 => Register::X5,
            6 => Register::X6,
            7 => Register::X7,
            8 => Register::X8,
            9 => Register::X9,
            10 => Register::X10,
            11 => Register::X11,
            12 => Register::X12,
            13 => Register::X13,
            14 => Register::X14,
            15 => Register::X15,
            16 => Register::X16,
            17 => Register::X17,
            18 => Register::X18,
            19 => Register::X19,
            20 => Register::X20,
            21 => Register::X21,
            22 => Register::X22,
            23 => Register::X23,
            24 => Register::X24,
            25 => Register::X25,
            26 => Register::X26,
            27 => Register::X27,
            28 => Register::X28,
            29 => Register::X29,
            30 => Register::X30,
            _ => Register::X31,
        }
    }

    /// The position of the register in the file: its number less one.
    pub fn index(&self) -> (r: usize)
        ensures
            r == self.number() - 1,
            r < 31,
    {
        match self {
            Register::X1 => 0,
            Register::X2 => 1,
            Register::X3 => 2,
            Register::X4 => 3,
            Register::X5 => 4,
            Register::X6 => 5,
            Register::X7 => 6,
            Register::X8 => 7,
            Register::X9 => 8,
            Register::X10 => 9,
            Register::X11 => 10,
            Register::X12 => 11,
            Register::X13 => 12,
            Register::X14 => 13,
            Register::X15 => 14,
            Register::X16 => 15,
            Register::X17 => 16,
            Register::X18 => 17,
            Register::X19 => 18,
            Register::X20 => 19,
            Register::X21 => 20,
            Register::X22 => 21,
            Register::X23 => 22,
            Register::X24 => 23,
            Register::X25 => 24,
            Register::X26 => 25,
            Register::X27 => 26,
            Register::X28 => 27,
            Register::X29 => 28,
            Register::X30 => 29,
            Register::X31 => 30,
        }
    }

    /// The register's value.
    pub fn fetch<T: Copy>(&self, regs: &Registers<T>) -> (r: T)
        ensures
            r == regs@[self.number() - 1],
    {
        regs.get(*self)
    }

    /// A handle that writes the register.
    pub fn fetch_mut<'a, T>(&self, regs: &'a mut Registers<T>) -> (r: &'a mut T)
        ensures
            *r == old(regs)@[self.number() - 1],
            final(regs)@ == old(regs)@.update(self.number() - 1, *final(r)),
    {
        regs.get_mut(*self)
    }
}

impl ZeroOrRegister {
    /// The register number, from 0 to 31.
    pub open spec fn number(self) -> nat {
        match self {
            ZeroOrRegister::Zero => 0,
            ZeroOrRegister::Register(r) => r.number(),
        }
    }

    /// The operand numbered `raw`, for `raw < 32`.
    pub fn decode_unchecked(raw: u8) -> (r: Self)
        requires
            raw < 32,
        ensures
            r.number() == raw,
    {
        if raw == 0 {
            ZeroOrRegister::Zero
        } else {
            ZeroOrRegister::Register(Register::from_number(raw))
        }
    }

    /// The operand numbered by the low five bits of `raw`.
    pub fn decode_truncate(raw: u8) -> (r: Self)
        ensures
            r.number() == raw % 32,
    {
        Self::decode_unchecked(raw % 32)
    }

    /// The operand numbered `raw`; `None` when `raw` is 32 or more.
    pub fn decode(raw: u8) -> (r: Option<Self>)
        ensures
            raw < 32 <==> r is Some,
            r matches Some(x) ==> x.number() == raw,
    {
        if raw < 32 {
            Some(Self::decode_unchecked(raw))
        } else {
            None
        }
    }

    /// The operand that a 5-bit register field names.
    pub fn from_u5(value: U5) -> (r: Self)
        ensures
            r.number() == value@,
    {
        Self::decode_unchecked(value.get())
    }

    /// The operand's value: zero for x0.
    pub fn fetch<T: Zero>(&self, regs: &Registers<T>) -> (r: T)
        ensures
            r == read_reg(regs@, self.number()),
    {
        match *self {
            ZeroOrRegister::Zero => T::zero(),
            ZeroOrRegister::Register(reg) => reg.fetch(regs),
        }
    }

    /// A handle that writes the register; `None` for x0, whose writes are dropped.
    pub fn fetch_mut<'a, T>(&self, regs: &'a mut Registers<T>) -> (r: Option<&'a mut T>)
        ensures
            self.number() == 0 <==> r is None,
            r is None ==> final(regs)@ == old(regs)@,
            r matches Some(m) ==> *m == old(regs)@[self.number() - 1]
                && final(regs)@ == old(regs)@.update(self.number() - 1, *final(m)),
    {
        match *self {
            ZeroOrRegister::Zero => None,
            ZeroOrRegister::Register(reg) => Some(reg.fetch_mut(regs)),
        }
    }

    /// Writes `v` to the operand; a write to x0 is dropped.
    pub fn store<T>(&self, regs: &mut Registers<T>, v: T)
        ensures
            final(regs)@ == write_reg(old(regs)@, self.number(), v),
    {
        match *self {
            ZeroOrRegister::Zero => {},
            ZeroOrRegister::Register(reg) => {
                let slot = reg.fetch_mut(regs);
                *slot = v;
            },
        }
    }
}

impl<T: Zero> Registers<T> {
    /// A file whose registers all hold zero.
    pub fn new() -> (r: Self)
        ensures
            r@.len() == 31,
            forall|i: int| 0 <= i < 31 ==> r@[i] == T::wrap(0),
    {
        Registers([T::zero(); 31])
    }
}

impl<T: Zero> Default for Registers<T> {
    fn default() -> (r: Self)
        ensures
            r@.len() == 31,
            forall|i: int| 0 <= i < 31 ==> r@[i] == T::wrap(0),
    {
        Self::new()
    }
}

impl<T: Copy> Registers<T> {
    /// The value of `reg`.
    pub fn get(&self, reg: Register) -> (r: T)
        ensures
            r == self@[reg.number() - 1],
    {
        self.0[reg.index()]
    }
}

impl<T> Registers<T> {
    /// A handle that writes `reg`.
    pub fn get_mut(&mut self, reg: Register) -> (r: &mut T)
        ensures
            *r == old(self)@[reg.number() - 1],
            final(self)@ == old(self)@.update(reg.number() - 1, *final(r)),
    {
        &mut self.0[reg.index()]
    }
}

} // verus!
