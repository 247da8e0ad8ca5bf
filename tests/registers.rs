use riscv_emu::registers::{Register, Registers, ZeroOrRegister};

#[test]
fn test_registers() {
    let mut regs = Registers::<u32>::default();
    let x1 = regs.get_mut(Register::X1);
    *x1 = 20;
    let val = regs.get(Register::X1);
    assert_eq!(val, 20)
}

#[test]
fn test_register() {
    let mut regs = Registers::<u32>::default();
    let x1 = Register::X1;
    let x1_mut = x1.fetch_mut(&mut regs);
    *x1_mut = 20;
    assert_eq!(20, x1.fetch(&regs));
}

#[test]
fn test_zero_or_register() {
    let mut regs = Registers::<u32>::default();
    let reg = Register::X1;
    let x1 = reg.fetch_mut(&mut regs);
    *x1 = 20;
    match ZeroOrRegister::decode(1) {
        Some(ZeroOrRegister::Register(r)) => {
            assert_eq!(r, reg);
            assert_eq!(20, r.fetch(&regs));
        }
        _ => unreachable!(),
    };
    match ZeroOrRegister::decode(0) {
        Some(ZeroOrRegister::Zero) => {}
        _ => unreachable!(),
    }
}

#[test]
fn zero_register_drops_writes() {
    let mut regs = Registers::<u64>::new();
    assert!(ZeroOrRegister::Zero.fetch_mut(&mut regs).is_none());
    ZeroOrRegister::Zero.store(&mut regs, 99);
    assert_eq!(ZeroOrRegister::Zero.fetch(&regs), 0);
    ZeroOrRegister::decode_truncate(31 + 32).store(&mut regs, 5);
    assert_eq!(regs.get(Register::X31), 5);
    assert_eq!(ZeroOrRegister::decode(32), None);
    assert_eq!(Register::X17.index(), 16);
    assert_eq!(Register::from_number(17), Register::X17);
}
