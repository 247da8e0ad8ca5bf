//! The host-facing machine: registers, program counter and memory of one hart.
use crate::error::Error;
use crate::instructions::Word;
use crate::isa::{execute_spec, hart, Hart, Isa, StepOutcome};
use crate::mem::{in_bounds, le_value, read_u32, splice, memw};
use crate::num::Unsigned;
use crate::registers::{read_reg, Registers, ZeroOrRegister};
use vstd::prelude::*;

verus! {

/// One step of the hart `h`: fetch at the program counter, then execute.
pub open spec fn step_spec<T: Unsigned>(h: Hart<T>) -> (Hart<T>, StepOutcome) {
    let pc = h.pc.value() as int;
    if pc % 4 != 0 {
        (h, StepOutcome::Fault(Error::MisalignedInstructionFetch))
    } else if !in_bounds(h.mem.len(), pc, 4) {
        (h, StepOutcome::Fault(Error::MemoryOutOfBounds))
    } else {
        execute_spec(le_value(h.mem, pc, 4) as u32, h)
    }
}

/// A step that faults, or that hands an ECALL or EBREAK to the host, leaves the
/// hart as it was: registers, memory and program counter.
pub proof fn lemma_trap_changes_nothing<T: Unsigned>(h: Hart<T>)
    ensures
        step_spec(h).1 != StepOutcome::Continue ==> step_spec(h).0 == h,
{
}

/// Up to `n` steps of `h`, stopping at the first that does not continue.
pub open spec fn run_spec<T: Unsigned>(h: Hart<T>, n: nat) -> (Hart<T>, StepOutcome)
    decreases n,
{
    if n == 0 {
        (h, StepOutcome::Continue)
    } else {
        let (next, outcome) = step_spec(h);
        if outcome == StepOutcome::Continue {
            run_spec(next, (n - 1) as nat)
        } else {
            (next, outcome)
        }
    }
}

/// All segments lie inside a memory of `len` bytes.
pub open spec fn segments_fit(len: nat, segments: Seq<(u64, Seq<u8>)>) -> bool {
    forall|i: int| 0 <= i < segments.len() ==> in_bounds(len, #[trigger] segments[i].0 as int, segments[i].1.len())
}

/// The segments as addresses and byte sequences.
pub open spec fn segments_view(segments: Seq<(u64, Vec<u8>)>) -> Seq<(u64, Seq<u8>)> {
    segments.map_values(|s: (u64, Vec<u8>)| (s.0, s.1@))
}

/// `mem` with the first `n` segments written, in order.
pub open spec fn load_spec(mem: Seq<u8>, segments: Seq<(u64, Seq<u8>)>, n: nat) -> Seq<u8>
    decreases n,
{
    if n == 0 {
        mem
    } else {
        let prev = load_spec(mem, segments, (n - 1) as nat);
        splice(prev, segments[n - 1].0 as int, segments[n - 1].1)
    }
}

/// A hart of XLEN-bit words with its own memory.
pub struct Emulator<T> {
    regs: Registers<T>,
    pc: T,
    memory: Vec<u8>,
}

impl<T> View for Emulator<T> {
    type V = Hart<T>;

    closed spec fn view(&self) -> Hart<T> {
        hart(self.regs@, self.pc, self.memory@)
    }
}

impl<T: Isa + Word> Emulator<T> {
    /// A machine with `memory_bytes` bytes of zeroed memory, zeroed registers and
    /// the program counter at zero.
    pub fn new(memory_bytes: usize) -> (r: Self)
        ensures
            r@.regs.len() == 31,
            forall|i: int| 0 <= i < 31 ==> r@.regs[i] == T::wrap(0),
            r@.pc == T::wrap(0),
            r@.mem == Seq::new(memory_bytes as nat, |i: int| 0u8),
    {
        let memory = vec![0u8; memory_bytes];
        let r = Emulator { regs: Registers::new(), pc: T::zero(), memory };
        assert(r.memory@ =~= Seq::new(memory_bytes as nat, |i: int| 0u8));
        r
    }

    /// Writes each segment at its address; fails, writing nothing, when one does not fit.
    pub fn load(&mut self, segments: &[(u64, Vec<u8>)]) -> (r: Result<(), Error>)
        ensures
            segments_fit(old(self)@.mem.len(), segments_view(segments@)) <==> r is Ok,
            r is Ok ==> final(self)@ == hart(
                old(self)@.regs,
                old(self)@.pc,
                load_spec(old(self)@.mem, segments_view(segments@), segments@.len()),
            ),
            r is Err ==> r == Err::<(), Error>(Error::MemoryOutOfBounds) && final(self)@ == old(self)@,
    {
        let len = self.memory.len();
        let mut i: usize = 0;
        while i < segments.len()
            invariant
                i <= segments@.len(),
                len == self.memory@.len(),
                forall|j: int| 0 <= j < i ==> in_bounds(len as nat, #[trigger] segments_view(segments@)[j].0 as int, segments_view(segments@)[j].1.len()),
            decreases segments@.len() - i,
        {
            let (addr, ref data) = segments[i];
            assert(segments_view(segments@)[i as int] == (addr, data@));
            if addr > len as u64 || data.len() as u64 > len as u64 - addr {
                assert(!in_bounds(len as nat, segments_view(segments@)[i as int].0 as int, segments_view(segments@)[i as int].1.len()));
                return Err(Error::MemoryOutOfBounds);
            }
            i = i + 1;
        }
        let ghost regs = self.regs@;
        let ghost pc = self.pc;
        let ghost mem0 = self.memory@;
        let mut i: usize = 0;
        while i < segments.len()
            invariant
                i <= segments@.len(),
                segments_fit(mem0.len(), segments_view(segments@)),
                self.regs@ == regs,
                self.pc == pc,
                self.memory@ == load_spec(mem0, segments_view(segments@), i as nat),
                self.memory@.len() == mem0.len(),
                len == mem0.len(),
            decreases segments@.len() - i,
        {
            let (addr, ref data) = segments[i];
            proof {
                assert(in_bounds(mem0.len(), segments_view(segments@)[i as int].0 as int, segments_view(segments@)[i as int].1.len()));
                assert(addr == segments@[i as int].0);
                assert(data@ == segments@[i as int].1@);
            }
            let r = memw(data.as_slice(), self.memory.as_mut_slice(), addr as usize);
            assert(r is Ok);
            i = i + 1;
        }
        Ok(())
    }

    /// Moves the program counter to `entry`.
    pub fn set_pc(&mut self, entry: T)
        ensures
            final(self)@ == hart(old(self)@.regs, entry, old(self)@.mem),
    {
        self.pc = entry;
    }

    /// The program counter.
    pub fn pc(&self) -> (r: T)
        ensures
            r == self@.pc,
    {
        self.pc
    }

    /// Register `number`: zero for x0.
    pub fn register(&self, number: u8) -> (r: T)
        requires
            number < 32,
        ensures
            r == read_reg(self@.regs, number as nat),
    {
        ZeroOrRegister::decode_unchecked(number).fetch(&self.regs)
    }

    /// Writes register `number`; a write to x0 is dropped.
    pub fn set_register(&mut self, number: u8, value: T)
        requires
            number < 32,
        ensures
            final(self)@ == hart(
                crate::registers::write_reg(old(self)@.regs, number as nat, value),
                old(self)@.pc,
                old(self)@.mem,
            ),
    {
        ZeroOrRegister::decode_unchecked(number).store(&mut self.regs, value);
    }

    /// The memory.
    pub fn memory(&self) -> (r: &[u8])
        ensures
            r@ == self@.mem,
    {
        self.memory.as_slice()
    }

    /// Executes exactly one instruction, the one at the program counter.
    pub fn step(&mut self) -> (r: StepOutcome)
        ensures
            (final(self)@, r) == step_spec(old(self)@),
    {
        let pc = self.pc.to_u64();
        if pc % 4 != 0 {
            return StepOutcome::Fault(Error::MisalignedInstructionFetch);
        }
        if pc > self.memory.len() as u64 {
            return StepOutcome::Fault(Error::MemoryOutOfBounds);
        }
        let word = match read_u32(self.memory.as_slice(), pc as usize) {
            Ok(w) => w,
            Err(e) => return StepOutcome::Fault(e),
        };
        T::execute(word, &mut self.regs, &mut self.pc, self.memory.as_mut_slice())
    }

    /// Steps until an instruction does not continue or `max_steps` have run;
    /// `Continue` when the budget ran out.
    pub fn run(&mut self, max_steps: u64) -> (r: StepOutcome)
        ensures
            (final(self)@, r) == run_spec(old(self)@, max_steps as nat),
    {
        let mut left = max_steps;
        while left > 0
            invariant
                run_spec(self@, left as nat) == run_spec(old(self)@, max_steps as nat),
            decreases left,
        {
            let outcome = self.step();
            if outcome != StepOutcome::Continue {
                return outcome;
            }
            left = left - 1;
        }
        StepOutcome::Continue
    }
}

} // verus!
