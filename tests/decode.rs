use riscv_emu::decode::{Fence, Shift, B, I, J, R, R4, S, U};
use riscv_emu::uint::{U12, U13, U2, U21, U3, U4, U5, U7};

#[test]
fn sign_extend() {
    assert_eq!(U13::new_truncate(0b1111111111110u16).sign_extend(), 0b1111111111111110u16 as i16);
    assert_eq!(U13::new_truncate(0b0111111111110u16).sign_extend(), 0b0000111111111110u16 as i16);
}

#[test]
fn decode_r() {
    assert_eq!(
        R::from_u32(0b0000000_00001_00010_000_00100_0110011),
        R {
            rd: U5::new_truncate(4),
            funct3: U3::new_truncate(0),
            rs1: U5::new_truncate(2),
            rs2: U5::new_truncate(1),
            funct7: U7::new_truncate(0)
        }
    );
}

#[test]
fn decode_i() {
    assert_eq!(
        I::from_u32(0b000000000000_00001_000_00010_0010011),
        I {
            rd: U5::new_truncate(2),
            funct3: U3::new_truncate(0),
            rs1: U5::new_truncate(1),
            imm: U12::new_truncate(0),
        }
    );
}

#[test]
fn decode_shift() {
    assert_eq!(
        Shift::from_u32(0b000000000011_00001_000_00010_0010011),
        Shift {
            rd: U5::new_truncate(2),
            funct3: U3::new_truncate(0),
            rs1: U5::new_truncate(1),
            prefix: U7::new_truncate(0),
            shamt: U5::new_truncate(3),
        }
    );
}

#[test]
fn decode_s() {
    assert_eq!(
        S::from_u32(0b0000000_00001_00010_010_00100_0100011),
        S {
            funct3: U3::new_truncate(2),
            imm: U12::new_truncate(4),
            rs1: U5::new_truncate(2),
            rs2: U5::new_truncate(1),
        }
    );
    assert_eq!(
        S::from_u32(0b0000000_00001_00010_011_11000_0100011),
        S {
            funct3: U3::new_truncate(3),
            imm: U12::new_truncate(24),
            rs1: U5::new_truncate(2),
            rs2: U5::new_truncate(1),
        }
    );
}

#[test]
fn decode_b() {
    assert_eq!(
        B::from_u32(0b1_000000_00000_00001_000_0000_0_0000000u32),
        B {
            imm: U13::new_truncate(0b1_0_000000_0000_0),
            rs2: U5::new_truncate(0),
            rs1: U5::new_truncate(1),
            funct3: U3::new_truncate(0),
        }
    );

    assert_eq!(
        B::from_u32(0b0_111111_00010_00011_000_0000_0_0000000u32),
        B {
            imm: U13::new_truncate(0b0_0_111111_0000_0),
            rs2: U5::new_truncate(2),
            rs1: U5::new_truncate(3),
            funct3: U3::new_truncate(0),
        }
    );

    assert_eq!(
        B::from_u32(0b0_000000_00100_00101_000_1111_0_0000000u32),
        B {
            imm: U13::new_truncate(0b0_0_000000_1111_0),
            rs2: U5::new_truncate(4),
            rs1: U5::new_truncate(5),
            funct3: U3::new_truncate(0),
        }
    );

    assert_eq!(
        B::from_u32(0b0_000000_00110_00111_000_0000_1_0000000u32),
        B {
            imm: U13::new_truncate(0b0_1_000000_0000_0),
            rs2: U5::new_truncate(6),
            rs1: U5::new_truncate(7),
            funct3: U3::new_truncate(0),
        }
    );
}

#[test]
fn decode_u() {
    assert_eq!(
        U::from_u32(0b00000000000000011000_00010_0010111),
        U {
            rd: U5::new_truncate(2),
            imm: 24u32 << 12,
        }
    );
}

#[test]
fn decode_j() {
    assert_eq!(
        J::from_u32((0b10000000000100000000 << 12) | (20 << 7)),
        J {
            imm: U21::new_truncate(1 << 20 | 1 << 11),
            rd: U5::new_truncate(20),
        }
    );

    assert_eq!(
        J::from_u32(0b01111111111011111111 << 12),
        J {
            imm: U21::new_truncate(!(1 << 20 | 1 << 11 | 1)),
            rd: U5::new_truncate(0),
        },
    );
}

#[test]
fn sign_extend_widths() {
    assert_eq!(U12::new_truncate(0x7ff).sign_extend(), 2047);
    assert_eq!(U12::new_truncate(0x800).sign_extend(), -2048);
    assert_eq!(U12::new_truncate(0xfff).sign_extend(), -1);
    assert_eq!(U13::new_truncate(0x1000).sign_extend(), -4096);
    assert_eq!(U21::new_truncate(0xf_ffff).sign_extend(), 0xf_ffff);
    assert_eq!(U21::new_truncate(0x10_0000).sign_extend(), -0x10_0000);
    assert_eq!(U21::new_truncate(0x1f_fffe).sign_extend(), -2);
}

#[test]
fn bounded_constructors() {
    assert_eq!(U5::new(31).map(|x| x.get()), Some(31));
    assert!(U5::new(32).is_none());
    assert_eq!(U5::new_truncate(33).get(), 1);
    assert_eq!(U3::new_unchecked(7).as_u32(), 7);
    assert_eq!(U2::new_truncate(7).get(), 3);
    assert_eq!(U4::new_truncate(0x1f).as_u64(), 0xf);
    assert_eq!(U7::new(0x80), None);
    assert_eq!(U12::new(0x1000), None);
    assert_eq!(U21::new(0x20_0000), None);
    assert_eq!(U21::new(0x1f_ffff).map(|x| x.get()), Some(0x1f_ffff));
}

#[test]
fn decode_immediate_bit_zero() {
    for w in [0xffff_ffffu32, 0x8000_0f80, 0x1234_5678, 0xdead_beef] {
        assert_eq!(B::from_u32(w).imm.get() % 2, 0);
        assert_eq!(J::from_u32(w).imm.get() % 2, 0);
    }
    assert_eq!(B::from_u32(0xffff_ffff).imm.get(), 0x1ffe);
    assert_eq!(J::from_u32(0xffff_ffff).imm.get(), 0x1f_fffe);
}

#[test]
fn decode_other_formats() {
    let r4 = R4::from_u32(0b00011_10_00010_00001_011_00100_1000011);
    assert_eq!(r4.rs3.get(), 3);
    assert_eq!(r4.funct2.get(), 2);
    assert_eq!(r4.rs2.get(), 2);
    assert_eq!(r4.rs1.get(), 1);
    assert_eq!(r4.funct3.get(), 3);
    assert_eq!(r4.rd.get(), 4);
    let fence = Fence::from_u32(0b1000_0011_0011_00101_000_00000_0001111);
    assert_eq!(fence.fm.get(), 8);
    assert_eq!(fence.pred.get(), 3);
    assert_eq!(fence.succ.get(), 3);
    assert_eq!(fence.rs1.get(), 5);
    assert_eq!(fence.funct3.get(), 0);
    assert_eq!(R::from_u32(0b0100000_00001_00010_101_00100_0110011).id(), 0b0100000_101);
    assert_eq!(Shift::from_u32(0b0100000_00011_00001_101_00010_0010011).id(), 0b0100000_101);
    assert_eq!(I::from_u32(0b000000000000_00001_110_00010_0010011).id(), 0b110);
    assert_eq!(S::from_u32(0b0000000_00001_00010_001_00100_0100011).id(), 0b001);
    assert_eq!(B::from_u32(0b0_000000_00110_00111_111_0000_1_1100011).id(), 0b111);
}
