//! Per-format executors: select the kernel that the function fields name and
//! apply it to the register file, memory and program counter.
use crate::decode::{Shift, B, I, J, R, S, U};
use crate::error::Error;
use crate::mem::{
    in_bounds, lemma_le_bytes_len, le_bytes, le_value, read_u16, read_u32, read_u64, read_u8, splice, write_u16,
    write_u32, write_u64, write_u8,
};
use crate::num::{
    lemma_add_wrap, lemma_low_bit, lemma_narrow_signed, lemma_u32_signed, lemma_wrap_mod, signed, One,
    Unsigned, Zero,
};
use crate::ops::branch::{Beq, Bge, Bgeu, Blt, Bltu, Bne};
use crate::ops::math::{
    imm_word, low32, spec_add, spec_and, spec_flag, spec_or, spec_sar, spec_shl, spec_shr, spec_sub, spec_xor,
    Addiw, Addw, BaseMath, MathW, Slliw, Sllw, Sraiw, Sraw, Srliw, Srlw, Subw,
};
use crate::ops::mem::{spec_imm, Imm, Lb, Lbu, Ld, Lh, Lhu, Lw, Lwu, Sb, Sd, Sh, Sw};
use crate::registers::{read_reg, write_reg, Registers, ZeroOrRegister};
use crate::uint::sign_extend;
use vstd::prelude::*;

verus! {

// Keys of OP (and of OP-32 in RV64): `funct7` above `funct3`.
pub const ADD: u32 = 0b0000000_000;
pub const SUB: u32 = 0b0100000_000;
pub const SLL: u32 = 0b0000000_001;
pub const SLT: u32 = 0b0000000_010;
pub const SLTU: u32 = 0b0000000_011;
pub const XOR: u32 = 0b0000000_100;
pub const SRL: u32 = 0b0000000_101;
pub const SRA: u32 = 0b0100000_101;
pub const OR: u32 = 0b0000000_110;
pub const AND: u32 = 0b0000000_111;
// `funct3` of OP-IMM.
pub const ADDI: u32 = 0b000;
pub const SLTI: u32 = 0b010;
pub const SLTIU: u32 = 0b011;
pub const XORI: u32 = 0b100;
pub const ORI: u32 = 0b110;
pub const ANDI: u32 = 0b111;
// Keys of the shift-immediates: `prefix` above `funct3`.
pub const SLLI: u32 = 0b0000000_001;
pub const SRLI: u32 = 0b0000000_101;
pub const SRAI: u32 = 0b0100000_101;
// `funct3` of LOAD.
pub const LB: u32 = 0b000;
pub const LH: u32 = 0b001;
pub const LW: u32 = 0b010;
pub const LD: u32 = 0b011;
pub const LBU: u32 = 0b100;
pub const LHU: u32 = 0b101;
pub const LWU: u32 = 0b110;
// `funct3` of STORE.
pub const SB: u32 = 0b000;
pub const SH: u32 = 0b001;
pub const SW: u32 = 0b010;
pub const SD: u32 = 0b011;
// `funct3` of BRANCH.
pub const BEQ: u32 = 0b000;
pub const BNE: u32 = 0b001;
pub const BLT: u32 = 0b100;
pub const BGE: u32 = 0b101;
pub const BLTU: u32 = 0b110;
pub const BGEU: u32 = 0b111;
/// The only `funct3` of JALR.
pub const JALR_FUNCT3: u32 = 0b000;

/// Size of an instruction in bytes.
pub const OPCODE_SIZE: u64 = 4;

/// A machine word with every kernel: the capability set that the executors need.
pub trait Word: BaseMath + Zero + One + Imm + Lb + Lbu + Lh + Lhu + Lw + Lwu + Ld + Sb + Sh + Sw + Sd + Beq + Bne + Blt + Bge + Bltu + Bgeu {

}

impl Word for u32 {

}

impl Word for u64 {

}

/// `pc + 4`.
pub open spec fn next_pc<T: Unsigned>(pc: T) -> T {
    T::wrap(pc.value() + 4int)
}

/// A call that turns `old` into `new` and returns `r` has done what `step`
/// says: on success it made the new state, on a fault it changed nothing.
pub open spec fn meets<St>(step: Result<St, Error>, r: Result<(), Error>, old: St, new: St) -> bool {
    match step {
        Ok(s) => r is Ok && new == s,
        Err(e) => r == Err::<(), Error>(e) && new == old,
    }
}

/// The register file after `rd` receives `v`, or an illegal instruction where there is no `v`.
pub open spec fn write_result<T>(regs: Seq<T>, rd: nat, v: Option<T>) -> Result<Seq<T>, Error> {
    match v {
        Some(x) => Ok(write_reg(regs, rd, x)),
        None => Err(Error::IllegalInstruction),
    }
}

/// The register-register operation with dispatch key `id` (`funct7` above `funct3`).
pub open spec fn math_result<T: Unsigned>(id: nat, a: T, b: T) -> Option<T> {
    if id == ADD {
        Some(spec_add(a, b))
    } else if id == SUB {
        Some(spec_sub(a, b))
    } else if id == SLL {
        Some(spec_shl(a, b.value()))
    } else if id == SLT {
        Some(spec_flag::<T>(signed(a) < signed(b)))
    } else if id == SLTU {
        Some(spec_flag::<T>(a.value() < b.value()))
    } else if id == XOR {
        Some(spec_xor(a, b))
    } else if id == SRL {
        Some(spec_shr(a, b.value()))
    } else if id == SRA {
        Some(spec_sar(a, b.value()))
    } else if id == OR {
        Some(spec_or(a, b))
    } else if id == AND {
        Some(spec_and(a, b))
    } else {
        None
    }
}

/// OP: `rd <- rs1 op rs2`.
pub open spec fn math_step<T: Unsigned>(regs: Seq<T>, id: nat, rd: nat, rs1: nat, rs2: nat) -> Result<Seq<T>, Error> {
    write_result(regs, rd, math_result(id, read_reg(regs, rs1), read_reg(regs, rs2)))
}

/// The register-immediate operation with `funct3`, on a 12-bit immediate.
pub open spec fn mathi_result<T: Unsigned>(funct3: nat, a: T, imm: nat) -> Option<T> {
    let b = imm_word::<T>(imm, 12);
    if funct3 == ADDI {
        Some(spec_add(a, b))
    } else if funct3 == SLTI {
        Some(spec_flag::<T>(signed(a) < sign_extend(imm as int, 12)))
    } else if funct3 == SLTIU {
        Some(spec_flag::<T>(a.value() < b.value()))
    } else if funct3 == XORI {
        Some(spec_xor(a, b))
    } else if funct3 == ORI {
        Some(spec_or(a, b))
    } else if funct3 == ANDI {
        Some(spec_and(a, b))
    } else {
        None
    }
}

/// OP-IMM other than the shifts: `rd <- rs1 op sign_extend(imm)`.
pub open spec fn mathi_step<T: Unsigned>(regs: Seq<T>, funct3: nat, rd: nat, rs1: nat, imm: nat) -> Result<Seq<T>, Error> {
    write_result(regs, rd, mathi_result(funct3, read_reg(regs, rs1), imm))
}

/// The dispatch key of a shift-immediate. In RV64 the low bit of the prefix
/// belongs to the shift distance, so it does not take part.
pub open spec fn shift_key<T: Unsigned>(prefix: nat, funct3: nat) -> nat {
    if T::xlen() == 64 {
        (prefix / 2 * 2) * 8 + funct3
    } else {
        prefix * 8 + funct3
    }
}

/// The distance of a shift-immediate: five bits, six in RV64.
pub open spec fn shift_distance<T: Unsigned>(prefix: nat, shamt: nat) -> nat {
    if T::xlen() == 64 {
        (prefix % 2) * 32 + shamt
    } else {
        shamt
    }
}

/// The shift-immediate with dispatch key `key`, by `sh`.
pub open spec fn shifti_result<T: Unsigned>(key: nat, a: T, sh: nat) -> Option<T> {
    if key == SLLI {
        Some(spec_shl(a, sh))
    } else if key == SRLI {
        Some(spec_shr(a, sh))
    } else if key == SRAI {
        Some(spec_sar(a, sh))
    } else {
        None
    }
}

/// SLLI, SRLI, SRAI: `rd <- rs1 shifted by the immediate distance`.
pub open spec fn shifti_step<T: Unsigned>(regs: Seq<T>, prefix: nat, shamt: nat, funct3: nat, rd: nat, rs1: nat) -> Result<Seq<T>, Error> {
    write_result(
        regs,
        rd,
        shifti_result(
            shift_key::<T>(prefix, funct3),
            read_reg(regs, rs1),
            shift_distance::<T>(prefix, shamt),
        ),
    )
}

/// LUI: `rd <- imm`, the 32-bit immediate sign-extended.
pub open spec fn lui_step<T: Unsigned>(regs: Seq<T>, rd: nat, imm: u32) -> Seq<T> {
    write_reg(regs, rd, spec_imm::<T>(imm))
}

/// AUIPC: `rd <- pc + imm`.
pub open spec fn auipc_step<T: Unsigned>(regs: Seq<T>, pc: T, rd: nat, imm: u32) -> Seq<T> {
    write_reg(regs, rd, spec_add(pc, spec_imm::<T>(imm)))
}

/// `base + sign_extend(imm)`: the address that a load or store reaches.
pub open spec fn effective_address<T: Unsigned>(base: T, imm: nat) -> T {
    spec_add(base, imm_word::<T>(imm, 12))
}

/// How many bytes the load with `funct3` reads; `None` where it names no load of this XLEN.
pub open spec fn load_width<T: Unsigned>(funct3: nat) -> Option<nat> {
    if funct3 == LB || funct3 == LBU {
        Some(1)
    } else if funct3 == LH || funct3 == LHU {
        Some(2)
    } else if funct3 == LW {
        Some(4)
    } else if funct3 == LWU && T::xlen() == 64 {
        Some(4)
    } else if funct3 == LD && T::xlen() == 64 {
        Some(8)
    } else {
        None
    }
}

/// The word that the load with `funct3` makes of the bytes of `mem` from `addr`.
pub open spec fn load_value<T: Unsigned>(funct3: nat, mem: Seq<u8>, addr: int) -> T {
    if funct3 == LB {
        T::wrap(sign_extend(le_value(mem, addr, 1) as int, 8))
    } else if funct3 == LH {
        T::wrap(sign_extend(le_value(mem, addr, 2) as int, 16))
    } else if funct3 == LW {
        T::wrap(sign_extend(le_value(mem, addr, 4) as int, 32))
    } else if funct3 == LBU {
        T::wrap(le_value(mem, addr, 1) as int)
    } else if funct3 == LHU {
        T::wrap(le_value(mem, addr, 2) as int)
    } else if funct3 == LWU {
        T::wrap(le_value(mem, addr, 4) as int)
    } else {
        T::wrap(le_value(mem, addr, 8) as int)
    }
}

/// LOAD: `rd <-` the value at `rs1 + sign_extend(imm)`.
pub open spec fn load_step<T: Unsigned>(regs: Seq<T>, mem: Seq<u8>, funct3: nat, rd: nat, rs1: nat, imm: nat) -> Result<Seq<T>, Error> {
    let addr = effective_address(read_reg(regs, rs1), imm).value() as int;
    match load_width::<T>(funct3) {
        None => Err(Error::IllegalInstruction),
        Some(n) => if in_bounds(mem.len(), addr, n) {
            Ok(write_reg(regs, rd, load_value::<T>(funct3, mem, addr)))
        } else {
            Err(Error::MemoryOutOfBounds)
        },
    }
}

/// The bytes that the store with `funct3` writes of `v`; `None` where it names no store of this XLEN.
pub open spec fn store_bytes<T: Unsigned>(funct3: nat, v: T) -> Option<Seq<u8>> {
    if funct3 == SB {
        Some(le_bytes(v.value() % 0x100, 1))
    } else if funct3 == SH {
        Some(le_bytes(v.value() % 0x1_0000, 2))
    } else if funct3 == SW {
        Some(le_bytes(v.value() % 0x1_0000_0000, 4))
    } else if funct3 == SD && T::xlen() == 64 {
        Some(le_bytes(v.value(), 8))
    } else {
        None
    }
}

/// STORE: the low bits of `rs2` go to `rs1 + sign_extend(imm)`.
pub open spec fn store_step<T: Unsigned>(regs: Seq<T>, mem: Seq<u8>, funct3: nat, rs1: nat, rs2: nat, imm: nat) -> Result<Seq<u8>, Error> {
    let addr = effective_address(read_reg(regs, rs1), imm).value() as int;
    match store_bytes(funct3, read_reg(regs, rs2)) {
        None => Err(Error::IllegalInstruction),
        Some(bytes) => if in_bounds(mem.len(), addr, bytes.len()) {
            Ok(splice(mem, addr, bytes))
        } else {
            Err(Error::MemoryOutOfBounds)
        },
    }
}

/// Whether the branch with `funct3` is taken; `None` where it names no branch.
pub open spec fn branch_taken<T: Unsigned>(funct3: nat, a: T, b: T) -> Option<bool> {
    if funct3 == BEQ {
        Some(a == b)
    } else if funct3 == BNE {
        Some(a != b)
    } else if funct3 == BLT {
        Some(signed(a) < signed(b))
    } else if funct3 == BGE {
        Some(signed(a) >= signed(b))
    } else if funct3 == BLTU {
        Some(a.value() < b.value())
    } else if funct3 == BGEU {
        Some(a.value() >= b.value())
    } else {
        None
    }
}

/// BRANCH: the next program counter, `pc + sign_extend(imm)` when taken, else `pc + 4`.
pub open spec fn branch_step<T: Unsigned>(regs: Seq<T>, pc: T, funct3: nat, rs1: nat, rs2: nat, imm: nat) -> Result<T, Error> {
    match branch_taken(funct3, read_reg(regs, rs1), read_reg(regs, rs2)) {
        None => Err(Error::IllegalInstruction),
        Some(taken) => Ok(
            if taken {
                T::wrap(pc.value() + sign_extend(imm as int, 13))
            } else {
                next_pc(pc)
            },
        ),
    }
}

/// JAL: the register file with the link `pc + 4` in `rd`.
pub open spec fn jal_regs<T: Unsigned>(regs: Seq<T>, pc: T, rd: nat) -> Seq<T> {
    write_reg(regs, rd, next_pc(pc))
}

/// JAL: the target `pc + sign_extend(imm)`.
pub open spec fn jal_target<T: Unsigned>(pc: T, imm: nat) -> T {
    T::wrap(pc.value() + sign_extend(imm as int, 21))
}

/// `t` with its least significant bit cleared.
pub open spec fn clear_low_bit<T: Unsigned>(t: T) -> T {
    T::wrap(t.value() - t.value() % 2)
}

/// JALR: the target `(rs1 + sign_extend(imm)) & !1`, read before the link is written.
pub open spec fn jalr_target<T: Unsigned>(regs: Seq<T>, rs1: nat, imm: nat) -> T {
    clear_low_bit(effective_address(read_reg(regs, rs1), imm))
}

/// Register-register operations (OP).
pub trait Math: Unsigned {
    fn math(instruction: R, regs: &mut Registers<Self>) -> (r: Result<(), Error>)
        ensures
            meets(
                math_step(old(regs)@, instruction.key(), instruction.rd@, instruction.rs1@, instruction.rs2@),
                r,
                old(regs)@,
                final(regs)@,
            ),
    ;
}

/// Register-immediate operations other than the shifts (OP-IMM).
pub trait MathI: Unsigned {
    fn mathi(instruction: I, regs: &mut Registers<Self>) -> (r: Result<(), Error>)
        ensures
            meets(
                mathi_step(old(regs)@, instruction.funct3@, instruction.rd@, instruction.rs1@, instruction.imm@),
                r,
                old(regs)@,
                final(regs)@,
            ),
    ;
}

/// Shifts by an immediate distance (OP-IMM with `funct3` 001 or 101).
pub trait ShiftI: Unsigned {
    fn shifti(instruction: Shift, regs: &mut Registers<Self>) -> (r: Result<(), Error>)
        ensures
            meets(
                shifti_step(
                    old(regs)@,
                    instruction.prefix@,
                    instruction.shamt@,
                    instruction.funct3@,
                    instruction.rd@,
                    instruction.rs1@,
                ),
                r,
                old(regs)@,
                final(regs)@,
            ),
    ;
}

/// LUI.
pub trait Lui: Unsigned {
    fn lui(instruction: U, regs: &mut Registers<Self>) -> (r: Result<(), Error>)
        ensures
            r is Ok,
            final(regs)@ == lui_step(old(regs)@, instruction.rd@, instruction.imm),
    ;
}

/// AUIPC.
pub trait Auipc: Unsigned {
    fn auipc(instruction: U, regs: &mut Registers<Self>, pc: Self) -> (r: Result<(), Error>)
        ensures
            r is Ok,
            final(regs)@ == auipc_step(old(regs)@, pc, instruction.rd@, instruction.imm),
    ;
}

/// Loads (LOAD).
pub trait Load: Unsigned {
    fn load(instruction: I, regs: &mut Registers<Self>, memory: &[u8]) -> (r: Result<(), Error>)
        ensures
            meets(
                load_step(old(regs)@, memory@, instruction.funct3@, instruction.rd@, instruction.rs1@, instruction.imm@),
                r,
                old(regs)@,
                final(regs)@,
            ),
    ;
}

/// Stores (STORE).
pub trait Store: Unsigned {
    fn store(instruction: S, regs: &Registers<Self>, memory: &mut [u8]) -> (r: Result<(), Error>)
        ensures
            meets(
                store_step(regs@, old(memory)@, instruction.funct3@, instruction.rs1@, instruction.rs2@, instruction.imm@),
                r,
                old(memory)@,
                final(memory)@,
            ),
    ;
}

/// JAL: the link goes to `rd` before the program counter moves.
pub trait Jal: Unsigned {
    fn jal(instruction: J, regs: &mut Registers<Self>, pc: &mut Self) -> (r: Result<(), Error>)
        ensures
            r is Ok,
            final(regs)@ == jal_regs(old(regs)@, *old(pc), instruction.rd@),
            *final(pc) == jal_target(*old(pc), instruction.imm@),
    ;
}

/// JALR: the link goes to `rd` before the program counter moves; only `funct3` 000 is an instruction.
pub trait Jalr: Unsigned {
    fn jalr(instruction: I, regs: &mut Registers<Self>, pc: &mut Self) -> (r: Result<(), Error>)
        ensures
            instruction.funct3@ == JALR_FUNCT3 ==> r is Ok
                && final(regs)@ == jal_regs(old(regs)@, *old(pc), instruction.rd@)
                && *final(pc) == jalr_target(old(regs)@, instruction.rs1@, instruction.imm@),
            instruction.funct3@ != JALR_FUNCT3 ==> r == Err::<(), Error>(Error::IllegalInstruction)
                && final(regs)@ == old(regs)@ && *final(pc) == *old(pc),
    ;
}

/// Conditional branches (BRANCH).
pub trait Branch: Unsigned {
    fn branch(instruction: B, regs: &Registers<Self>, pc: &mut Self) -> (r: Result<(), Error>)
        ensures
            meets(
                branch_step(regs@, *old(pc), instruction.funct3@, instruction.rs1@, instruction.rs2@, instruction.imm@),
                r,
                *old(pc),
                *final(pc),
            ),
    ;
}

impl<T: Word> Math for T {
    fn math(instruction: R, regs: &mut Registers<T>) -> Result<(), Error> {
        let id = instruction.id();
        let a = ZeroOrRegister::from_u5(instruction.rs1).fetch(regs);
        let b = ZeroOrRegister::from_u5(instruction.rs2).fetch(regs);
        let v = if id == ADD {
            a.add(b)
        } else if id == SUB {
            a.sub(b)
        } else if id == SLL {
            a.sll(b)
        } else if id == SLT {
            a.slt(b)
        } else if id == SLTU {
            a.sltu(b)
        } else if id == XOR {
            a.xor(b)
        } else if id == SRL {
            a.srl(b)
        } else if id == SRA {
            a.sra(b)
        } else if id == OR {
            a.or(b)
        } else if id == AND {
            a.and(b)
        } else {
            return Err(Error::IllegalInstruction);
        };
        ZeroOrRegister::from_u5(instruction.rd).store(regs, v);
        Ok(())
    }
}

impl<T: Word> MathI for T {
    fn mathi(instruction: I, regs: &mut Registers<T>) -> Result<(), Error> {
        let id = instruction.id();
        let a = ZeroOrRegister::from_u5(instruction.rs1).fetch(regs);
        let imm = instruction.imm;
        let v = if id == ADDI {
            a.addi(imm)
        } else if id == SLTI {
            a.slti(imm)
        } else if id == SLTIU {
            a.sltiu(imm)
        } else if id == XORI {
            a.xori(imm)
        } else if id == ORI {
            a.ori(imm)
        } else if id == ANDI {
            a.andi(imm)
        } else {
            return Err(Error::IllegalInstruction);
        };
        ZeroOrRegister::from_u5(instruction.rd).store(regs, v);
        Ok(())
    }
}

impl<T: Word> ShiftI for T {
    fn shifti(instruction: Shift, regs: &mut Registers<T>) -> Result<(), Error> {
        let prefix = instruction.prefix.as_u32();
        let shamt = instruction.shamt.as_u32();
        let (key, sh) = if T::xlen_bits() == 64 {
            (instruction.id() - (prefix % 2) * 8, (prefix % 2) * 32 + shamt)
        } else {
            (instruction.id(), shamt)
        };
        let a = ZeroOrRegister::from_u5(instruction.rs1).fetch(regs);
        proof {
            T::lemma_word();
        }
        let v = if key == SLLI {
            a.slli(sh)
        } else if key == SRLI {
            a.srli(sh)
        } else if key == SRAI {
            a.srai(sh)
        } else {
            return Err(Error::IllegalInstruction);
        };
        ZeroOrRegister::from_u5(instruction.rd).store(regs, v);
        Ok(())
    }
}

impl<T: Word> Lui for T {
    fn lui(instruction: U, regs: &mut Registers<T>) -> Result<(), Error> {
        ZeroOrRegister::from_u5(instruction.rd).store(regs, T::imm(instruction.imm));
        Ok(())
    }
}

impl<T: Word> Auipc for T {
    fn auipc(instruction: U, regs: &mut Registers<T>, pc: T) -> Result<(), Error> {
        ZeroOrRegister::from_u5(instruction.rd).store(regs, pc.add(T::imm(instruction.imm)));
        Ok(())
    }
}

/// The buffer offset of `addr`, where it is at most `len`; beyond that no access fits.
fn offset_of(addr: u64, len: usize) -> (r: Option<usize>)
    ensures
        addr <= len <==> r is Some,
        r matches Some(o) ==> o == addr,
{
    if addr <= len as u64 {
        Some(addr as usize)
    } else {
        None
    }
}

impl<T: Word> Load for T {
    fn load(instruction: I, regs: &mut Registers<T>, memory: &[u8]) -> Result<(), Error> {
        let funct3 = instruction.id();
        let wide = T::xlen_bits() == 64;
        if !(funct3 == LB || funct3 == LBU || funct3 == LH || funct3 == LHU || funct3 == LW || (wide
            && (funct3 == LWU || funct3 == LD))) {
            return Err(Error::IllegalInstruction);
        }
        let base = ZeroOrRegister::from_u5(instruction.rs1).fetch(regs);
        let addr = base.addi(instruction.imm);
        let offset = match offset_of(addr.to_u64(), memory.len()) {
            Some(o) => o,
            None => return Err(Error::MemoryOutOfBounds),
        };
        let ghost a = addr.value() as int;
        let v = if funct3 == LB || funct3 == LBU {
            match read_u8(memory, offset) {
                Ok(b) => {
                    proof {
                        reveal_with_fuel(le_value, 2);
                        lemma_narrow_signed(b, 0);
                        vstd::arithmetic::power2::lemma2_to64();
                    }
                    if funct3 == LB {
                        T::lb(b as i8)
                    } else {
                        T::lbu(b)
                    }
                },
                Err(e) => return Err(e),
            }
        } else if funct3 == LH || funct3 == LHU {
            match read_u16(memory, offset) {
                Ok(h) => {
                    proof {
                        reveal_with_fuel(le_value, 3);
                        lemma_narrow_signed(0, h);
                        vstd::arithmetic::power2::lemma2_to64();
                    }
                    if funct3 == LH {
                        T::lh(h as i16)
                    } else {
                        T::lhu(h)
                    }
                },
                Err(e) => return Err(e),
            }
        } else if funct3 == LW || funct3 == LWU {
            match read_u32(memory, offset) {
                Ok(w) => {
                    proof {
                        reveal_with_fuel(le_value, 5);
                        lemma_u32_signed(w, 0);
                        vstd::arithmetic::power2::lemma2_to64();
                    }
                    if funct3 == LW {
                        T::lw(w as i32)
                    } else {
                        T::lwu(w)
                    }
                },
                Err(e) => return Err(e),
            }
        } else {
            match read_u64(memory, offset) {
                Ok(d) => T::ld(d),
                Err(e) => return Err(e),
            }
        };
        ZeroOrRegister::from_u5(instruction.rd).store(regs, v);
        Ok(())
    }
}

impl<T: Word> Store for T {
    fn store(instruction: S, regs: &Registers<T>, memory: &mut [u8]) -> Result<(), Error> {
        let funct3 = instruction.id();
        let wide = T::xlen_bits() == 64;
        if !(funct3 == SB || funct3 == SH || funct3 == SW || (wide && funct3 == SD)) {
            return Err(Error::IllegalInstruction);
        }
        let base = ZeroOrRegister::from_u5(instruction.rs1).fetch(regs);
        let src = ZeroOrRegister::from_u5(instruction.rs2).fetch(regs);
        let addr = base.addi(instruction.imm);
        proof {
            lemma_le_bytes_len(src.value() % 0x100, 1);
            lemma_le_bytes_len(src.value() % 0x1_0000, 2);
            lemma_le_bytes_len(src.value() % 0x1_0000_0000, 4);
            lemma_le_bytes_len(src.value(), 8);
        }
        let offset = match offset_of(addr.to_u64(), memory.len()) {
            Some(o) => o,
            None => return Err(Error::MemoryOutOfBounds),
        };
        if funct3 == SB {
            write_u8(memory, offset, src.sb())
        } else if funct3 == SH {
            write_u16(memory, offset, src.sh())
        } else if funct3 == SW {
            write_u32(memory, offset, src.sw())
        } else {
            write_u64(memory, offset, src.sd())
        }
    }
}

/// `a + offset`, wrapping.
fn add_offset<T: Word>(a: T, offset: i32) -> (r: T)
    ensures
        r == T::wrap(a.value() + offset),
{
    let v = offset as u32;
    proof {
        <u32 as Unsigned>::lemma_word();
        lemma_u32_signed(v, offset);
        lemma_add_wrap::<T>(a, offset as int);
    }
    a.add(T::imm(v))
}

impl<T: Word> Jal for T {
    fn jal(instruction: J, regs: &mut Registers<T>, pc: &mut T) -> Result<(), Error> {
        let link = add_offset(*pc, OPCODE_SIZE as i32);
        ZeroOrRegister::from_u5(instruction.rd).store(regs, link);
        *pc = add_offset(*pc, instruction.imm.sign_extend());
        Ok(())
    }
}

impl<T: Word> Jalr for T {
    fn jalr(instruction: I, regs: &mut Registers<T>, pc: &mut T) -> Result<(), Error> {
        if instruction.id() != JALR_FUNCT3 {
            return Err(Error::IllegalInstruction);
        }
        let base = ZeroOrRegister::from_u5(instruction.rs1).fetch(regs);
        let target = base.addi(instruction.imm);
        let low = target.and(T::one());
        proof {
            T::lemma_word();
            lemma_low_bit(target.value() as u64);
            lemma_wrap_mod::<T>(target.value() - low.value() as int, target.value() - target.value() % 2);
        }
        let next = target.sub(low);
        let link = add_offset(*pc, OPCODE_SIZE as i32);
        ZeroOrRegister::from_u5(instruction.rd).store(regs, link);
        *pc = next;
        Ok(())
    }
}

impl<T: Word> Branch for T {
    fn branch(instruction: B, regs: &Registers<T>, pc: &mut T) -> Result<(), Error> {
        let funct3 = instruction.id();
        let a = ZeroOrRegister::from_u5(instruction.rs1).fetch(regs);
        let b = ZeroOrRegister::from_u5(instruction.rs2).fetch(regs);
        let taken = if funct3 == BEQ {
            a.beq(b)
        } else if funct3 == BNE {
            a.bne(b)
        } else if funct3 == BLT {
            a.blt(b)
        } else if funct3 == BGE {
            a.bge(b)
        } else if funct3 == BLTU {
            a.bltu(b)
        } else if funct3 == BGEU {
            a.bgeu(b)
        } else {
            return Err(Error::IllegalInstruction);
        };
        if taken {
            *pc = add_offset(*pc, instruction.imm.sign_extend() as i32);
        } else {
            *pc = add_offset(*pc, OPCODE_SIZE as i32);
        }
        Ok(())
    }
}

/// The RV64 register-register word operation with dispatch key `id`: a
/// 32-bit operation on the low halves, sign-extended.
pub open spec fn mathw_result<T: Unsigned>(id: nat, a: T, b: T) -> Option<T> {
    let x = low32(a);
    let y = low32(b);
    if id == ADD {
        Some(spec_imm::<T>(spec_add::<u32>(x, y)))
    } else if id == SUB {
        Some(spec_imm::<T>(spec_sub::<u32>(x, y)))
    } else if id == SLL {
        Some(spec_imm::<T>(spec_shl::<u32>(x, b.value())))
    } else if id == SRL {
        Some(spec_imm::<T>(spec_shr::<u32>(x, b.value())))
    } else if id == SRA {
        Some(spec_imm::<T>(spec_sar::<u32>(x, b.value())))
    } else {
        None
    }
}

/// OP-32 (RV64): ADDW, SUBW, SLLW, SRLW, SRAW.
pub open spec fn mathw_step<T: Unsigned>(regs: Seq<T>, id: nat, rd: nat, rs1: nat, rs2: nat) -> Result<Seq<T>, Error> {
    write_result(regs, rd, mathw_result(id, read_reg(regs, rs1), read_reg(regs, rs2)))
}

/// The RV64 register-immediate word operation with `funct3` and a 12-bit
/// immediate; the shifts take their distance from its low five bits and
/// their key from `funct3` and its high seven bits.
pub open spec fn mathiw_result<T: Unsigned>(funct3: nat, a: T, imm: nat) -> Option<T> {
    let x = low32(a);
    let key = (imm / 32) * 8 + funct3;
    let sh = imm % 32;
    if funct3 == ADDI {
        Some(spec_imm::<T>(spec_add::<u32>(x, imm_word::<u32>(imm, 12))))
    } else if key == SLLI {
        Some(spec_imm::<T>(spec_shl::<u32>(x, sh)))
    } else if key == SRLI {
        Some(spec_imm::<T>(spec_shr::<u32>(x, sh)))
    } else if key == SRAI {
        Some(spec_imm::<T>(spec_sar::<u32>(x, sh)))
    } else {
        None
    }
}

/// OP-IMM-32 (RV64): ADDIW, SLLIW, SRLIW, SRAIW.
pub open spec fn mathiw_step<T: Unsigned>(regs: Seq<T>, funct3: nat, rd: nat, rs1: nat, imm: nat) -> Result<Seq<T>, Error> {
    write_result(regs, rd, mathiw_result(funct3, read_reg(regs, rs1), imm))
}

/// Register-register word operations of RV64 (OP-32).
pub trait MathWord: Unsigned {
    fn mathw(instruction: R, regs: &mut Registers<Self>) -> (r: Result<(), Error>)
        ensures
            meets(
                mathw_step(old(regs)@, instruction.key(), instruction.rd@, instruction.rs1@, instruction.rs2@),
                r,
                old(regs)@,
                final(regs)@,
            ),
    ;
}

/// Register-immediate word operations of RV64 (OP-IMM-32).
pub trait MathIWord: Unsigned {
    fn mathiw(instruction: I, regs: &mut Registers<Self>) -> (r: Result<(), Error>)
        ensures
            meets(
                mathiw_step(old(regs)@, instruction.funct3@, instruction.rd@, instruction.rs1@, instruction.imm@),
                r,
                old(regs)@,
                final(regs)@,
            ),
    ;
}

impl<T: Word + MathW> MathWord for T {
    fn mathw(instruction: R, regs: &mut Registers<T>) -> Result<(), Error> {
        let id = instruction.id();
        let a = ZeroOrRegister::from_u5(instruction.rs1).fetch(regs);
        let b = ZeroOrRegister::from_u5(instruction.rs2).fetch(regs);
        let v = if id == ADD {
            a.addw(b)
        } else if id == SUB {
            a.subw(b)
        } else if id == SLL {
            a.sllw(b)
        } else if id == SRL {
            a.srlw(b)
        } else if id == SRA {
            a.sraw(b)
        } else {
            return Err(Error::IllegalInstruction);
        };
        ZeroOrRegister::from_u5(instruction.rd).store(regs, v);
        Ok(())
    }
}

impl<T: Word + MathW> MathIWord for T {
    fn mathiw(instruction: I, regs: &mut Registers<T>) -> Result<(), Error> {
        let funct3 = instruction.id();
        let a = ZeroOrRegister::from_u5(instruction.rs1).fetch(regs);
        let v = if funct3 == ADDI {
            a.addiw(instruction.imm)
        } else {
            let shift = Shift::from_i(instruction);
            let key = shift.id();
            let sh = shift.shamt.as_u32();
            if key == SLLI {
                a.slliw(sh)
            } else if key == SRLI {
                a.srliw(sh)
            } else if key == SRAI {
                a.sraiw(sh)
            } else {
                return Err(Error::IllegalInstruction);
            }
        };
        ZeroOrRegister::from_u5(instruction.rd).store(regs, v);
        Ok(())
    }
}

} // verus!
