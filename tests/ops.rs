use riscv_emu::ops::branch::{Beq, Bge, Bgeu, Blt, Bltu, Bne};
use riscv_emu::ops::math::{
    Add, Addi, Addiw, Addw, And, Andi, Or, Ori, Sll, Slli, Slliw, Sllw, Slt, Slti, Sltiu, Sltu,
    Sra, Srai, Sraiw, Sraw, Srl, Srli, Srliw, Srlw, Sub, Subw, Xor, Xori,
};
use riscv_emu::ops::mem::{Imm, Lb, Lbu, Ld, Lh, Lhu, Lw, Lwu, Sb, Sd, Sh, Sw};
use riscv_emu::uint::U12;

#[test]
fn arithmetic_wraps() {
    assert_eq!(u32::MAX.add(2), 1);
    assert_eq!(1u32.sub(2), u32::MAX);
    assert_eq!(u64::MAX.add(1), 0);
    assert_eq!(0u64.sub(1), u64::MAX);
    assert_eq!(10u32.addi(U12::new_truncate(0xfff)), 9);
    assert_eq!(10u64.addi(U12::new_truncate(0x800)), (10i64 - 2048) as u64);
}

#[test]
fn shifts_mask_the_distance() {
    assert_eq!(1u32.sll(33), 2);
    assert_eq!(1u32.sll(32), 1);
    assert_eq!(1u64.sll(64), 1);
    assert_eq!(1u64.sll(63), 1 << 63);
    assert_eq!(0x8000_0000u32.srl(31), 1);
    assert_eq!(0x8000_0000u32.sra(31), u32::MAX);
    assert_eq!(0x8000_0000u32.sra(32), 0x8000_0000);
    assert_eq!((1u64 << 63).sra(60), 0xffff_ffff_ffff_fff8);
    assert_eq!(0xf0u32.slli(4), 0xf00);
    assert_eq!(0xf0u32.srli(4), 0xf);
    assert_eq!(0xffff_ff00u32.srai(4), 0xffff_fff0);
    assert_eq!(1u64.slli(40), 1 << 40);
    assert_eq!(u64::MAX.srli(60), 0xf);
}

#[test]
fn comparisons() {
    assert_eq!(u32::MAX.slt(0), 1);
    assert_eq!(u32::MAX.sltu(0), 0);
    assert_eq!(0u64.slt(u64::MAX), 0);
    assert_eq!(0u64.sltu(u64::MAX), 1);
    assert_eq!(u32::MAX.slti(U12::new_truncate(0)), 1);
    assert_eq!(5u32.sltiu(U12::new_truncate(0xfff)), 1);
    assert_eq!(u32::MAX.sltiu(U12::new_truncate(0xfff)), 0);
}

#[test]
fn logic_with_sign_extended_immediates() {
    assert_eq!(0x0fu32.xor(0xff), 0xf0);
    assert_eq!(0x0fu32.or(0xf0), 0xff);
    assert_eq!(0x0fu32.and(0xfc), 0x0c);
    assert_eq!(0x1234u32.xori(U12::new_truncate(0xfff)), !0x1234u32);
    assert_eq!(0u64.ori(U12::new_truncate(0x800)), 0xffff_ffff_ffff_f800);
    assert_eq!(u64::MAX.andi(U12::new_truncate(0x7ff)), 0x7ff);
}

#[test]
fn word_instructions() {
    assert_eq!(0x7fff_ffffu64.addw(1), 0xffff_ffff_8000_0000);
    assert_eq!(0u64.subw(1), u64::MAX);
    assert_eq!(1u64.sllw(31), 0xffff_ffff_8000_0000);
    assert_eq!(1u64.sllw(32), 1);
    assert_eq!(0xffff_ffff_0000_0000u64.srlw(4), 0);
    assert_eq!(0x8000_0000u64.sraw(4), 0xffff_ffff_f800_0000);
    assert_eq!(0u64.addiw(U12::new_truncate(0xfff)), u64::MAX);
    assert_eq!(0x1_0000_0001u64.slliw(1), 2);
    assert_eq!(u64::MAX.srliw(1), 0x7fff_ffff);
    assert_eq!(0x8000_0000u64.sraiw(31), u64::MAX);
}

#[test]
fn load_and_store_kernels() {
    assert_eq!(u32::lb(-1), u32::MAX);
    assert_eq!(u64::lbu(0xff), 0xff);
    assert_eq!(u64::lh(-2), u64::MAX - 1);
    assert_eq!(u32::lhu(0xffff), 0xffff);
    assert_eq!(u64::lw(i32::MIN), 0xffff_ffff_8000_0000);
    assert_eq!(u64::lwu(0x8000_0000), 0x8000_0000);
    assert_eq!(u64::ld(u64::MAX), u64::MAX);
    assert_eq!(0x1234_5678u32.sb(), 0x78);
    assert_eq!(0x1234_5678u32.sh(), 0x5678);
    assert_eq!(0x1_2345_6789u64.sw(), 0x2345_6789);
    assert_eq!(0x1_2345_6789u64.sd(), 0x1_2345_6789);
    assert_eq!(u32::imm(0xfff0_0000), 0xfff0_0000);
    assert_eq!(u64::imm(0xfff0_0000), 0xffff_ffff_fff0_0000);
    assert_eq!(u64::imm(0x7ff0_0000), 0x7ff0_0000);
}

#[test]
fn branch_conditions() {
    assert!(3u32.beq(3));
    assert!(3u32.bne(4));
    assert!(u32::MAX.blt(0));
    assert!(!u32::MAX.bltu(0));
    assert!(0u64.bge(u64::MAX));
    assert!(u64::MAX.bgeu(0));
    assert!(!0u64.bgeu(1));
}
