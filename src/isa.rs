//! The top-level dispatcher: one instruction word against the register file,
//! the program counter and memory.
use crate::decode::{
    funct3_of, funct7_of, imm_b_of, imm_i_of, imm_j_of, imm_s_of, imm_u_of, opcode_of, rd_of,
    rs1_of, rs2_of, Fence, Shift, B, I, J, R, S, U,
};
use crate::error::Error;
use crate::instructions::{
    auipc_step, branch_step, effective_address, jal_regs, jal_target, jalr_target, load_step,
    load_width, lui_step, math_step, mathi_step, mathiw_step, mathw_step, next_pc, shifti_step,
    store_bytes, store_step, Auipc, Branch, Jal, Jalr, Load, Lui, Math, MathI, MathIWord, MathWord,
    ShiftI, Store, Word, OPCODE_SIZE,
};
use crate::mem::in_bounds;
use crate::num::{lemma_add_wrap, lemma_wrap_mod, Unsigned};
use crate::ops::math::{Add, MathW};
use crate::ops::mem::Imm;
use crate::registers::{read_reg, Registers};
use crate::uint::sign_extend;
use vstd::prelude::*;

verus! {

// Major opcodes, bits [6:0].
pub const LUI: u32 = 0b0110111;
pub const AUIPC: u32 = 0b0010111;
pub const JAL: u32 = 0b1101111;
pub const JALR: u32 = 0b1100111;
pub const BRANCH: u32 = 0b1100011;
pub const LOAD: u32 = 0b0000011;
pub const STORE: u32 = 0b0100011;
pub const MATHI: u32 = 0b0010011;
pub const MATH: u32 = 0b0110011;
pub const FENCE: u32 = 0b0001111;
pub const SYSCALL: u32 = 0b1110011;
pub const MATHIW: u32 = 0b0011011;
pub const MATHW: u32 = 0b0111011;

/// The whole word of ECALL.
pub const ECALL: u32 = 0x0000_0073;

/// The whole word of EBREAK.
pub const EBREAK: u32 = 0x0010_0073;

/// What became of one instruction.
#[derive(Debug, Clone, Copy, PartialEq, Eq, Structural)]
pub enum StepOutcome {
    /// It executed; the next one may follow.
    Continue,
    /// ECALL: left to the host.
    EnvCall,
    /// EBREAK: left to the host.
    Breakpoint,
    /// It faulted and changed nothing.
    Fault(Error),
}

/// The state of a hart, as far as one instruction can see it.
pub struct Hart<T> {
    pub regs: Seq<T>,
    pub pc: T,
    pub mem: Seq<u8>,
}

/// A step that writes registers only and then moves on to the next instruction.
pub open spec fn regs_step<T: Unsigned>(h: Hart<T>, step: Result<Seq<T>, Error>) -> (Hart<T>, StepOutcome) {
    match step {
        Ok(regs) => (Hart { regs, pc: next_pc(h.pc), mem: h.mem }, StepOutcome::Continue),
        Err(e) => (h, StepOutcome::Fault(e)),
    }
}

/// The effect of the instruction word `w` on the hart `h`, for the opcodes of RV32I
/// (which RV64I keeps).
pub open spec fn base_spec<T: Unsigned>(w: u32, h: Hart<T>) -> (Hart<T>, StepOutcome) {
    let op = opcode_of(w);
    let f3 = funct3_of(w) as nat;
    let rd = rd_of(w) as nat;
    let rs1 = rs1_of(w) as nat;
    let rs2 = rs2_of(w) as nat;
    let imm = imm_i_of(w) as nat;
    if op == LUI {
        regs_step(h, Ok(lui_step(h.regs, rd, imm_u_of(w))))
    } else if op == AUIPC {
        regs_step(h, Ok(auipc_step(h.regs, h.pc, rd, imm_u_of(w))))
    } else if op == JAL {
        (
            Hart { regs: jal_regs(h.regs, h.pc, rd), pc: jal_target(h.pc, imm_j_of(w) as nat), mem: h.mem },
            StepOutcome::Continue,
        )
    } else if op == JALR {
        if f3 == 0 {
            (
                Hart { regs: jal_regs(h.regs, h.pc, rd), pc: jalr_target(h.regs, rs1, imm), mem: h.mem },
                StepOutcome::Continue,
            )
        } else {
            (h, StepOutcome::Fault(Error::IllegalInstruction))
        }
    } else if op == BRANCH {
        match branch_step(h.regs, h.pc, f3, rs1, rs2, imm_b_of(w) as nat) {
            Ok(pc) => (Hart { regs: h.regs, pc, mem: h.mem }, StepOutcome::Continue),
            Err(e) => (h, StepOutcome::Fault(e)),
        }
    } else if op == LOAD {
        regs_step(h, load_step(h.regs, h.mem, f3, rd, rs1, imm))
    } else if op == STORE {
        match store_step(h.regs, h.mem, f3, rs1, rs2, imm_s_of(w) as nat) {
            Ok(mem) => (Hart { regs: h.regs, pc: next_pc(h.pc), mem }, StepOutcome::Continue),
            Err(e) => (h, StepOutcome::Fault(e)),
        }
    } else if op == MATHI {
        if f3 == 1 || f3 == 5 {
            regs_step(h, shifti_step(h.regs, imm / 32, imm % 32, f3, rd, rs1))
        } else {
            regs_step(h, mathi_step(h.regs, f3, rd, rs1, imm))
        }
    } else if op == MATH {
        regs_step(h, math_step(h.regs, funct7_of(w) as nat * 8 + f3, rd, rs1, rs2))
    } else if op == FENCE {
        if f3 == 0 {
            regs_step(h, Ok(h.regs))
        } else {
            (h, StepOutcome::Fault(Error::IllegalInstruction))
        }
    } else if op == SYSCALL {
        if w == ECALL {
            (h, StepOutcome::EnvCall)
        } else if w == EBREAK {
            (h, StepOutcome::Breakpoint)
        } else {
            (h, StepOutcome::Fault(Error::IllegalInstruction))
        }
    } else {
        (h, StepOutcome::Fault(Error::IllegalInstruction))
    }
}

/// The effect of the instruction word `w` on the hart `h`: RV32I, and for a
/// 64-bit word also the word instructions of RV64I.
pub open spec fn execute_spec<T: Unsigned>(w: u32, h: Hart<T>) -> (Hart<T>, StepOutcome) {
    let op = opcode_of(w);
    let rd = rd_of(w) as nat;
    let rs1 = rs1_of(w) as nat;
    if T::xlen() == 64 && op == MATHIW {
        regs_step(h, mathiw_step(h.regs, funct3_of(w) as nat, rd, rs1, imm_i_of(w) as nat))
    } else if T::xlen() == 64 && op == MATHW {
        regs_step(h, mathw_step(h.regs, funct7_of(w) as nat * 8 + funct3_of(w) as nat, rd, rs1, rs2_of(w) as nat))
    } else {
        base_spec(w, h)
    }
}

/// The hart made of a register file, a program counter and memory.
pub open spec fn hart<T>(regs: Seq<T>, pc: T, mem: Seq<u8>) -> Hart<T> {
    Hart { regs, pc, mem }
}

/// An instruction set over a machine word: executes one instruction word.
pub trait Isa: Unsigned {
    fn execute(encoded: u32, regs: &mut Registers<Self>, pc: &mut Self, memory: &mut [u8]) -> (r: StepOutcome)
        ensures
            (hart(final(regs)@, *final(pc), final(memory)@), r) == execute_spec(
                encoded,
                hart(old(regs)@, *old(pc), old(memory)@),
            ),
    ;
}

/// `pc + 4`.
fn advance<T: Word>(pc: T) -> (r: T)
    ensures
        r == next_pc(pc),
{
    proof {
        <u32 as Unsigned>::lemma_word();
        lemma_add_wrap::<T>(pc, 4);
    }
    pc.add(T::imm(OPCODE_SIZE as u32))
}

/// The outcome of an executor that writes registers only.
fn regs_outcome<T: Word>(r: Result<(), Error>, pc: &mut T) -> (o: StepOutcome)
    ensures
        r is Ok ==> o == StepOutcome::Continue && *final(pc) == next_pc(*old(pc)),
        r matches Err(e) ==> o == StepOutcome::Fault(e) && *final(pc) == *old(pc),
{
    match r {
        Ok(()) => {
            *pc = advance(*pc);
            StepOutcome::Continue
        },
        Err(e) => StepOutcome::Fault(e),
    }
}

fn lui<T: Word>(encoded: u32, regs: &mut Registers<T>, pc: &mut T, memory: &mut [u8]) -> (r: StepOutcome)
    requires
        opcode_of(encoded) == LUI,
    ensures
        (hart(final(regs)@, *final(pc), final(memory)@), r) == base_spec(
            encoded,
            hart(old(regs)@, *old(pc), old(memory)@),
        ),
{
    let instruction = U::from_u32(encoded);
    let r = T::lui(instruction, regs);
    regs_outcome(r, pc)
}

fn auipc<T: Word>(encoded: u32, regs: &mut Registers<T>, pc: &mut T, memory: &mut [u8]) -> (r: StepOutcome)
    requires
        opcode_of(encoded) == AUIPC,
    ensures
        (hart(final(regs)@, *final(pc), final(memory)@), r) == base_spec(
            encoded,
            hart(old(regs)@, *old(pc), old(memory)@),
        ),
{
    let instruction = U::from_u32(encoded);
    let r = T::auipc(instruction, regs, *pc);
    regs_outcome(r, pc)
}

fn jal<T: Word>(encoded: u32, regs: &mut Registers<T>, pc: &mut T, memory: &mut [u8]) -> (r: StepOutcome)
    requires
        opcode_of(encoded) == JAL,
    ensures
        (hart(final(regs)@, *final(pc), final(memory)@), r) == base_spec(
            encoded,
            hart(old(regs)@, *old(pc), old(memory)@),
        ),
{
    let instruction = J::from_u32(encoded);
    let _ = T::jal(instruction, regs, pc);
    StepOutcome::Continue
}

fn jalr<T: Word>(encoded: u32, regs: &mut Registers<T>, pc: &mut T, memory: &mut [u8]) -> (r: StepOutcome)
    requires
        opcode_of(encoded) == JALR,
    ensures
        (hart(final(regs)@, *final(pc), final(memory)@), r) == base_spec(
            encoded,
            hart(old(regs)@, *old(pc), old(memory)@),
        ),
{
    let instruction = I::from_u32(encoded);
    match T::jalr(instruction, regs, pc) {
        Ok(()) => StepOutcome::Continue,
        Err(e) => StepOutcome::Fault(e),
    }
}

fn branch<T: Word>(encoded: u32, regs: &mut Registers<T>, pc: &mut T, memory: &mut [u8]) -> (r: StepOutcome)
    requires
        opcode_of(encoded) == BRANCH,
    ensures
        (hart(final(regs)@, *final(pc), final(memory)@), r) == base_spec(
            encoded,
            hart(old(regs)@, *old(pc), old(memory)@),
        ),
{
    let instruction = B::from_u32(encoded);
    match T::branch(instruction, regs, pc) {
        Ok(()) => StepOutcome::Continue,
        Err(e) => StepOutcome::Fault(e),
    }
}

fn load<T: Word>(encoded: u32, regs: &mut Registers<T>, pc: &mut T, memory: &mut [u8]) -> (r: StepOutcome)
    requires
        opcode_of(encoded) == LOAD,
    ensures
        (hart(final(regs)@, *final(pc), final(memory)@), r) == base_spec(
            encoded,
            hart(old(regs)@, *old(pc), old(memory)@),
        ),
{
    let instruction = I::from_u32(encoded);
    let r = T::load(instruction, regs, memory);
    regs_outcome(r, pc)
}

fn store<T: Word>(encoded: u32, regs: &mut Registers<T>, pc: &mut T, memory: &mut [u8]) -> (r: StepOutcome)
    requires
        opcode_of(encoded) == STORE,
    ensures
        (hart(final(regs)@, *final(pc), final(memory)@), r) == base_spec(
            encoded,
            hart(old(regs)@, *old(pc), old(memory)@),
        ),
{
    let instruction = S::from_u32(encoded);
    let r = T::store(instruction, regs, memory);
    regs_outcome(r, pc)
}

fn mathi<T: Word>(encoded: u32, regs: &mut Registers<T>, pc: &mut T, memory: &mut [u8]) -> (r: StepOutcome)
    requires
        opcode_of(encoded) == MATHI,
    ensures
        (hart(final(regs)@, *final(pc), final(memory)@), r) == base_spec(
            encoded,
            hart(old(regs)@, *old(pc), old(memory)@),
        ),
{
    let instruction = I::from_u32(encoded);
    let funct3 = instruction.funct3.get();
    let r = if funct3 == 0b001 || funct3 == 0b101 {
        T::shifti(Shift::from_i(instruction), regs)
    } else {
        T::mathi(instruction, regs)
    };
    regs_outcome(r, pc)
}

fn math<T: Word>(encoded: u32, regs: &mut Registers<T>, pc: &mut T, memory: &mut [u8]) -> (r: StepOutcome)
    requires
        opcode_of(encoded) == MATH,
    ensures
        (hart(final(regs)@, *final(pc), final(memory)@), r) == base_spec(
            encoded,
            hart(old(regs)@, *old(pc), old(memory)@),
        ),
{
    let instruction = R::from_u32(encoded);
    let r = T::math(instruction, regs);
    regs_outcome(r, pc)
}

fn fence<T: Word>(encoded: u32, regs: &mut Registers<T>, pc: &mut T, memory: &mut [u8]) -> (r: StepOutcome)
    requires
        opcode_of(encoded) == FENCE,
    ensures
        (hart(final(regs)@, *final(pc), final(memory)@), r) == base_spec(
            encoded,
            hart(old(regs)@, *old(pc), old(memory)@),
        ),
{
    let instruction = Fence::from_u32(encoded);
    if instruction.funct3.get() == 0 {
        *pc = advance(*pc);
        StepOutcome::Continue
    } else {
        StepOutcome::Fault(Error::IllegalInstruction)
    }
}

fn syscall<T: Word>(encoded: u32, regs: &mut Registers<T>, pc: &mut T, memory: &mut [u8]) -> (r: StepOutcome)
    requires
        opcode_of(encoded) == SYSCALL,
    ensures
        (hart(final(regs)@, *final(pc), final(memory)@), r) == base_spec(
            encoded,
            hart(old(regs)@, *old(pc), old(memory)@),
        ),
{
    if encoded == ECALL {
        StepOutcome::EnvCall
    } else if encoded == EBREAK {
        StepOutcome::Breakpoint
    } else {
        StepOutcome::Fault(Error::IllegalInstruction)
    }
}

fn mathiw<T: Word + MathW>(encoded: u32, regs: &mut Registers<T>, pc: &mut T, memory: &mut [u8]) -> (r: StepOutcome)
    requires
        opcode_of(encoded) == MATHIW,
        T::xlen() == 64,
    ensures
        (hart(final(regs)@, *final(pc), final(memory)@), r) == execute_spec(
            encoded,
            hart(old(regs)@, *old(pc), old(memory)@),
        ),
{
    let instruction = I::from_u32(encoded);
    let r = T::mathiw(instruction, regs);
    regs_outcome(r, pc)
}

fn mathw<T: Word + MathW>(encoded: u32, regs: &mut Registers<T>, pc: &mut T, memory: &mut [u8]) -> (r: StepOutcome)
    requires
        opcode_of(encoded) == MATHW,
        T::xlen() == 64,
    ensures
        (hart(final(regs)@, *final(pc), final(memory)@), r) == execute_spec(
            encoded,
            hart(old(regs)@, *old(pc), old(memory)@),
        ),
{
    let instruction = R::from_u32(encoded);
    let r = T::mathw(instruction, regs);
    regs_outcome(r, pc)
}

/// Executes one word of the base instruction set; the RV64 word opcodes are illegal here.
fn dispatch<T: Word>(encoded: u32, regs: &mut Registers<T>, pc: &mut T, memory: &mut [u8]) -> (r: StepOutcome)
    ensures
        (hart(final(regs)@, *final(pc), final(memory)@), r) == base_spec(
            encoded,
            hart(old(regs)@, *old(pc), old(memory)@),
        ),
{
    let opcode = encoded & 0b1111111;
    proof {
        assert(opcode == opcode_of(encoded));
    }
    if opcode == LUI {
        lui(encoded, regs, pc, memory)
    } else if opcode == AUIPC {
        auipc(encoded, regs, pc, memory)
    } else if opcode == JAL {
        jal(encoded, regs, pc, memory)
    } else if opcode == JALR {
        jalr(encoded, regs, pc, memory)
    } else if opcode == BRANCH {
        branch(encoded, regs, pc, memory)
    } else if opcode == LOAD {
        load(encoded, regs, pc, memory)
    } else if opcode == STORE {
        store(encoded, regs, pc, memory)
    } else if opcode == MATHI {
        mathi(encoded, regs, pc, memory)
    } else if opcode == MATH {
        math(encoded, regs, pc, memory)
    } else if opcode == FENCE {
        fence(encoded, regs, pc, memory)
    } else if opcode == SYSCALL {
        syscall(encoded, regs, pc, memory)
    } else {
        StepOutcome::Fault(Error::IllegalInstruction)
    }
}

impl Isa for u32 {
    fn execute(encoded: u32, regs: &mut Registers<u32>, pc: &mut u32, memory: &mut [u8]) -> StepOutcome {
        dispatch(encoded, regs, pc, memory)
    }
}

impl Isa for u64 {
    fn execute(encoded: u32, regs: &mut Registers<u64>, pc: &mut u64, memory: &mut [u8]) -> StepOutcome {
        let opcode = encoded & 0b1111111;
        if opcode == MATHIW {
            mathiw(encoded, regs, pc, memory)
        } else if opcode == MATHW {
            mathw(encoded, regs, pc, memory)
        } else {
            dispatch(encoded, regs, pc, memory)
        }
    }
}

/// Writes to x0 vanish: whatever the instruction word, when its destination
/// field names x0 the register file is left as it was.
pub proof fn lemma_x0_sink<T: Unsigned>(w: u32, h: Hart<T>)
    requires
        rd_of(w) == 0,
    ensures
        execute_spec(w, h).0.regs == h.regs,
{
}

/// `ADDI x0, x0, 0` is the canonical no-op: it never faults, and only the
/// program counter moves on.
pub proof fn lemma_nop<T: Unsigned>(h: Hart<T>)
    ensures
        execute_spec(0x0000_0013, h) == (
            Hart { regs: h.regs, pc: next_pc(h.pc), mem: h.mem },
            StepOutcome::Continue,
        ),
{
    assert(opcode_of(0x13) == MATHI && funct3_of(0x13) == 0 && rd_of(0x13) == 0 && rs1_of(0x13) == 0
        && imm_i_of(0x13) == 0) by (bit_vector);
    T::lemma_word();
    vstd::arithmetic::power2::lemma2_to64();
    lemma_wrap_mod::<T>(0, 0);
}

/// `BEQ x0, x0, 0` branches to itself: the program counter does not move.
/// `BEQ x0, x0, -4` branches to the instruction before it.
pub proof fn lemma_beq_x0_x0<T: Unsigned>(h: Hart<T>)
    ensures
        execute_spec(0x0000_0063, h) == (h, StepOutcome::Continue),
        execute_spec(0xfe00_0ee3, h) == (
            Hart { regs: h.regs, pc: T::wrap(h.pc.value() - 4), mem: h.mem },
            StepOutcome::Continue,
        ),
{
    assert(opcode_of(0x63) == BRANCH && funct3_of(0x63) == 0 && rs1_of(0x63) == 0 && rs2_of(0x63)
        == 0 && imm_b_of(0x63) == 0 && opcode_of(0xfe00_0ee3) == BRANCH && funct3_of(0xfe00_0ee3)
        == 0 && rs1_of(0xfe00_0ee3) == 0 && rs2_of(0xfe00_0ee3) == 0 && imm_b_of(0xfe00_0ee3)
        == 0x1ffc) by (bit_vector);
    T::lemma_word();
    vstd::arithmetic::power2::lemma2_to64();
    assert(sign_extend(0x1ffc, 13) == -4);
    assert(T::wrap(h.pc.value() as int) == h.pc);
}

/// A load or store whose bytes reach past the end of memory faults with
/// `MemoryOutOfBounds` and changes nothing.
pub proof fn lemma_out_of_bounds<T: Unsigned>(w: u32, h: Hart<T>)
    requires
        opcode_of(w) == LOAD ==> (load_width::<T>(funct3_of(w) as nat) matches Some(n) && !in_bounds(
            h.mem.len(),
            effective_address(read_reg(h.regs, rs1_of(w) as nat), imm_i_of(w) as nat).value() as int,
            n,
        )),
        opcode_of(w) == STORE ==> (store_bytes::<T>(funct3_of(w) as nat, read_reg(h.regs, rs2_of(w) as nat)) matches Some(b)
            && !in_bounds(
            h.mem.len(),
            effective_address(read_reg(h.regs, rs1_of(w) as nat), imm_s_of(w) as nat).value() as int,
            b.len(),
        )),
        opcode_of(w) == LOAD || opcode_of(w) == STORE,
    ensures
        execute_spec(w, h) == (h, StepOutcome::Fault(Error::MemoryOutOfBounds)),
{
}

} // verus!
