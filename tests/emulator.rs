use riscv_emu::emulator::Emulator;
use riscv_emu::error::Error;
use riscv_emu::isa::{Isa, StepOutcome};
use riscv_emu::registers::{Register, Registers};

fn bytes(program: &[u32]) -> Vec<u8> {
    program.iter().flat_map(|w| w.to_le_bytes()).collect()
}

fn machine32(at: u64, program: &[u32]) -> Emulator<u32> {
    let mut emu = Emulator::<u32>::new(8192);
    emu.load(&[(at, bytes(program))]).unwrap();
    emu.set_pc(at as u32);
    emu
}

fn machine64(at: u64, program: &[u32]) -> Emulator<u64> {
    let mut emu = Emulator::<u64>::new(4096);
    emu.load(&[(at, bytes(program))]).unwrap();
    emu.set_pc(at);
    emu
}

#[test]
fn addi_chain() {
    // ADDI x1, x0, 5; ADDI x2, x1, 7
    let mut emu = machine32(0, &[0x0050_0093, 0x0070_8113]);
    assert_eq!(emu.step(), StepOutcome::Continue);
    assert_eq!(emu.step(), StepOutcome::Continue);
    assert_eq!(emu.register(1), 5);
    assert_eq!(emu.register(2), 12);
    assert_eq!(emu.pc(), 8);
}

#[test]
fn lui_then_negative_addi() {
    // LUI x1, 0x12345; ADDI x1, x1, -1
    let mut emu = machine32(0, &[0x1234_50b7, 0xfff0_8093]);
    assert_eq!(emu.run(2), StepOutcome::Continue);
    assert_eq!(emu.register(1), 0x1234_4fff);
}

#[test]
fn auipc_zero() {
    // AUIPC x1, 0 at 0x1000
    let mut emu = machine32(0x1000, &[0x0000_0097]);
    assert_eq!(emu.step(), StepOutcome::Continue);
    assert_eq!(emu.register(1), 0x1000);
    assert_eq!(emu.pc(), 0x1004);
}

#[test]
fn jal_links_and_jumps() {
    // JAL x1, +16 at 0x100
    let mut emu = machine32(0x100, &[0x0100_00ef]);
    assert_eq!(emu.step(), StepOutcome::Continue);
    assert_eq!(emu.register(1), 0x104);
    assert_eq!(emu.pc(), 0x110);
}

#[test]
fn store_load_round_trip() {
    // SW x2, 0(x1); LW x3, 0(x1); LH x3, 0(x1)
    let mut emu = machine32(0x200, &[0x0020_a023, 0x0000_a183, 0x0000_9183]);
    emu.set_register(1, 64);
    emu.set_register(2, 0xdead_beef);
    assert_eq!(emu.step(), StepOutcome::Continue);
    assert_eq!(emu.memory()[64..68], [0xef, 0xbe, 0xad, 0xde]);
    assert_eq!(emu.step(), StepOutcome::Continue);
    assert_eq!(emu.register(3), 0xdead_beef);
    assert_eq!(emu.step(), StepOutcome::Continue);
    assert_eq!(emu.register(3), 0xffff_beef);
}

#[test]
fn rv64_word_ops() {
    // ADDIW x1, x0, -1; SRLIW x2, x1, 1
    let mut emu = machine64(0, &[0xfff0_009b, 0x0010_d11b]);
    assert_eq!(emu.run(2), StepOutcome::Continue);
    assert_eq!(emu.register(1), 0xffff_ffff_ffff_ffff);
    assert_eq!(emu.register(2), 0x0000_0000_7fff_ffff);
}

#[test]
fn word_ops_are_illegal_on_rv32() {
    let mut emu = machine32(0, &[0xfff0_009b]);
    assert_eq!(emu.step(), StepOutcome::Fault(Error::IllegalInstruction));
    assert_eq!(emu.pc(), 0);
    assert_eq!(emu.register(1), 0);
}

#[test]
fn nop_leaves_registers() {
    // ADDI x0, x0, 0 after ADDI x1, x0, 5
    let mut emu = machine32(0, &[0x0050_0093, 0x0000_0013]);
    emu.step();
    assert_eq!(emu.step(), StepOutcome::Continue);
    assert_eq!(emu.register(0), 0);
    assert_eq!(emu.register(1), 5);
    assert_eq!(emu.pc(), 8);
}

#[test]
fn writes_to_x0_vanish() {
    // ADDI x0, x0, 5; LUI x0, 1; JAL x0, +8
    let mut emu = machine32(0, &[0x0050_0013, 0x0000_1037, 0x0080_006f]);
    assert_eq!(emu.run(3), StepOutcome::Continue);
    assert_eq!(emu.register(0), 0);
    assert_eq!(emu.pc(), 16);
}

#[test]
fn beq_self_loop() {
    // BEQ x0, x0, 0
    let mut emu = machine32(0x40, &[0x0000_0063]);
    assert_eq!(emu.step(), StepOutcome::Continue);
    assert_eq!(emu.pc(), 0x40);
    // BEQ x0, x0, -4
    let mut emu = machine32(0x40, &[0xfe00_0ee3]);
    assert_eq!(emu.step(), StepOutcome::Continue);
    assert_eq!(emu.pc(), 0x3c);
}

#[test]
fn branch_not_taken_moves_on() {
    // ADDI x1, x0, 1; BNE x0, x0, +8 ; BLT x0, x1, +8
    let mut emu = machine32(0, &[0x0010_0093, 0x0000_1463, 0x0010_4463]);
    emu.run(2);
    assert_eq!(emu.pc(), 8);
    emu.step();
    assert_eq!(emu.pc(), 16);
}

#[test]
fn jalr_clears_low_bit() {
    // ADDI x5, x0, 0x101; JALR x1, 3(x5)
    let mut emu = machine32(0, &[0x1010_0293, 0x0032_80e7]);
    emu.run(2);
    assert_eq!(emu.pc(), 0x104);
    assert_eq!(emu.register(1), 8);
}

#[test]
fn load_out_of_bounds_changes_nothing() {
    // LW x3, 0(x1) with x1 past the end
    let mut emu = machine32(0, &[0x0000_a183]);
    emu.set_register(1, 8190);
    assert_eq!(emu.step(), StepOutcome::Fault(Error::MemoryOutOfBounds));
    assert_eq!(emu.register(3), 0);
    assert_eq!(emu.pc(), 0);
}

#[test]
fn store_out_of_bounds_changes_nothing() {
    // SW x2, 0(x1) with x1 past the end
    let mut emu = machine32(0, &[0x0020_a023]);
    emu.set_register(1, 8189);
    emu.set_register(2, 0xffff_ffff);
    let before = emu.memory().to_vec();
    assert_eq!(emu.step(), StepOutcome::Fault(Error::MemoryOutOfBounds));
    assert_eq!(emu.memory(), &before[..]);
    assert_eq!(emu.pc(), 0);
}

#[test]
fn x0_load_still_checks_bounds() {
    // LW x0, 0(x1)
    let mut emu = machine32(0, &[0x0000_a003]);
    emu.set_register(1, 9000);
    assert_eq!(emu.step(), StepOutcome::Fault(Error::MemoryOutOfBounds));
}

#[test]
fn system_and_fence() {
    let mut emu = machine32(0, &[0x0000_000f, 0x0000_0073, 0x0010_0073]);
    assert_eq!(emu.step(), StepOutcome::Continue);
    assert_eq!(emu.step(), StepOutcome::EnvCall);
    assert_eq!(emu.pc(), 4);
    emu.set_pc(8);
    assert_eq!(emu.step(), StepOutcome::Breakpoint);
    assert_eq!(emu.run(10), StepOutcome::Breakpoint);
}

#[test]
fn faults_on_fetch() {
    let mut emu = Emulator::<u32>::new(16);
    emu.set_pc(2);
    assert_eq!(emu.step(), StepOutcome::Fault(Error::MisalignedInstructionFetch));
    emu.set_pc(16);
    assert_eq!(emu.step(), StepOutcome::Fault(Error::MemoryOutOfBounds));
    emu.set_pc(0);
    assert_eq!(emu.step(), StepOutcome::Fault(Error::IllegalInstruction));
}

#[test]
fn illegal_encodings() {
    // SUB with funct7 0000001 (MUL), SRLI with a non-zero prefix on RV32, JALR with funct3 001
    let mut emu = machine32(0, &[0x0220_80b3]);
    assert_eq!(emu.step(), StepOutcome::Fault(Error::IllegalInstruction));
    let mut emu = machine32(0, &[0x0210_d093]);
    assert_eq!(emu.step(), StepOutcome::Fault(Error::IllegalInstruction));
    let mut emu = machine32(0, &[0x0000_90e7]);
    assert_eq!(emu.step(), StepOutcome::Fault(Error::IllegalInstruction));
}

#[test]
fn rv64_wide_shift_and_double_words() {
    // ADDI x1, x0, 1; SLLI x2, x1, 40; SD x2, 0(x0) at 512 via x3; LD x4
    // ADDI x3, x0, 512; SD x2, 0(x3); LD x4, 0(x3); LWU x5, 4(x3)
    let mut emu = machine64(0, &[0x0010_0093, 0x0280_9113, 0x2000_0193, 0x0021_b023, 0x0001_b203, 0x0041_e283]);
    assert_eq!(emu.run(6), StepOutcome::Continue);
    assert_eq!(emu.register(2), 1 << 40);
    assert_eq!(emu.register(4), 1 << 40);
    assert_eq!(emu.register(5), 1 << 8);
}

#[test]
fn sra_fills_with_ones() {
    // ADDI x1, x0, -16; SRAI x2, x1, 2; SRA x3, x1, x1 (by 16 mod 32... -16 mod 32 = 16)
    let mut emu = machine32(0, &[0xff00_0093, 0x4020_d113, 0x4010_d1b3]);
    emu.run(3);
    assert_eq!(emu.register(2), (-4i32) as u32);
    assert_eq!(emu.register(3), 0xffff_ffff);
}

#[test]
fn shift_by_xlen_is_no_shift() {
    // ADDI x1, x0, 3; ADDI x2, x0, 32; SLL x3, x1, x2; SRL x4, x1, x2
    let mut emu = machine32(0, &[0x0030_0093, 0x0200_0113, 0x0020_91b3, 0x0020_d233]);
    emu.run(4);
    assert_eq!(emu.register(3), 3);
    assert_eq!(emu.register(4), 3);
}

#[test]
fn segments_must_fit() {
    let mut emu = Emulator::<u32>::new(8);
    assert_eq!(emu.load(&[(0, vec![1, 2]), (7, vec![3, 4])]), Err(Error::MemoryOutOfBounds));
    assert_eq!(emu.memory(), &[0u8; 8]);
    assert_eq!(emu.load(&[(0, vec![1, 2]), (6, vec![3, 4])]), Ok(()));
    assert_eq!(emu.memory(), &[1, 2, 0, 0, 0, 0, 3, 4]);
}

#[test]
fn isa_execute_directly() {
    let mut regs = Registers::<u64>::new();
    let mut pc = 0u64;
    let mut memory = [0u8; 8];
    // ADDI x1, x0, -1 then SUBW x2, x0, x1
    assert_eq!(u64::execute(0xfff0_0093, &mut regs, &mut pc, &mut memory), StepOutcome::Continue);
    assert_eq!(u64::execute(0x4010_013b, &mut regs, &mut pc, &mut memory), StepOutcome::Continue);
    assert_eq!(regs.get(Register::X1), u64::MAX);
    assert_eq!(regs.get(Register::X2), 1);
    assert_eq!(pc, 8);
}

fn elf32(entry: u32, paddr: u32, data: &[u8]) -> Vec<u8> {
    elf32_typed(1, entry, paddr, data)
}

fn elf32_typed(kind: u32, entry: u32, paddr: u32, data: &[u8]) -> Vec<u8> {
    let mut f = vec![0u8; 52 + 32];
    f[0..4].copy_from_slice(&[0x7f, b'E', b'L', b'F']);
    f[4] = 1; // 32-bit
    f[5] = 1; // little-endian
    f[6] = 1; // version
    f[16..18].copy_from_slice(&2u16.to_le_bytes()); // executable
    f[18..20].copy_from_slice(&243u16.to_le_bytes()); // RISC-V
    f[20..24].copy_from_slice(&1u32.to_le_bytes());
    f[24..28].copy_from_slice(&entry.to_le_bytes());
    f[28..32].copy_from_slice(&52u32.to_le_bytes()); // program headers
    f[40..42].copy_from_slice(&52u16.to_le_bytes());
    f[42..44].copy_from_slice(&32u16.to_le_bytes());
    f[44..46].copy_from_slice(&1u16.to_le_bytes());
    f[46..48].copy_from_slice(&40u16.to_le_bytes());
    let ph = 52;
    f[ph..ph + 4].copy_from_slice(&kind.to_le_bytes());
    f[ph + 4..ph + 8].copy_from_slice(&84u32.to_le_bytes()); // offset
    f[ph + 8..ph + 12].copy_from_slice(&paddr.to_le_bytes());
    f[ph + 12..ph + 16].copy_from_slice(&paddr.to_le_bytes());
    f[ph + 16..ph + 20].copy_from_slice(&(data.len() as u32).to_le_bytes());
    f[ph + 20..ph + 24].copy_from_slice(&(data.len() as u32).to_le_bytes());
    f[ph + 24..ph + 28].copy_from_slice(&5u32.to_le_bytes());
    f[ph + 28..ph + 32].copy_from_slice(&4u32.to_le_bytes());
    f.extend_from_slice(data);
    f
}

#[test]
fn load_elf_image() {
    let program = bytes(&[0x0050_0093, 0x0000_0073]);
    let image = elf32(0x100, 0x100, &program);
    let mut emu = Emulator::<u32>::new(1024);
    assert_eq!(emu.load_elf(&image), Ok(()));
    assert_eq!(emu.pc(), 0x100);
    assert_eq!(emu.memory()[0x100..0x108], program[..]);
    assert_eq!(emu.run(10), StepOutcome::EnvCall);
    assert_eq!(emu.register(1), 5);
}

#[test]
fn load_elf_rejects() {
    let mut emu = Emulator::<u32>::new(64);
    assert_eq!(emu.load_elf(b"not an elf file at all, not at all, no"), Err(Error::InvalidImage));
    let image = elf32(0x100, 0x100, &[1, 2, 3, 4]);
    assert_eq!(emu.load_elf(&image), Err(Error::MemoryOutOfBounds));
    assert_eq!(emu.pc(), 0);
    assert_eq!(emu.memory(), &[0u8; 64]);
}

#[test]
fn load_elf_skips_other_segments() {
    let image = elf32_typed(4, 0x10, 0x10, &[1, 2, 3, 4]);
    let mut emu = Emulator::<u64>::new(64);
    assert_eq!(emu.load_elf(&image), Ok(()));
    assert_eq!(emu.pc(), 0x10);
    assert_eq!(emu.memory(), &[0u8; 64]);
}
