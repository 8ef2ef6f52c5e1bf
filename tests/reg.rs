use embrs::arm_m::reg::{AtomicReg, ExclusiveOr, Reg};
use embrs::stm32f4::rcc::raw::Registers;
use embrs::stm32f4::rcc::{AhbPeripheral, Rcc};

#[test]
fn get_set_update() {
    let mut r = Reg::new(5u32);
    assert_eq!(r.get(), 5);
    r.set(7);
    assert_eq!(r.get(), 7);
    r.update(|v| v * 3);
    assert_eq!(r.get(), 21);
    let mut b = Reg::new(0x12u8);
    b.update(|v| v | 0x80);
    assert_eq!(b.get(), 0x92);
}

#[test]
fn atomic_operations() {
    let mut r = Reg::new(0b1010u32);
    r.atomic_or(0b0101);
    assert_eq!(r.get(), 0b1111);
    r.atomic_nand(0b0110);
    assert_eq!(r.get(), 0b1001);
    r.atomic_nand_and_or(0b1000, 0b0100);
    assert_eq!(r.get(), 0b0101);
    // Clearing happens before setting.
    r.atomic_nand_and_or(0b0001, 0b0001);
    assert_eq!(r.get(), 0b0101);
}

#[test]
fn exclusive_store_needs_reservation() {
    let mut r = Reg::new(1u32);
    assert!(!r.store_exclusive(9));
    assert_eq!(r.get(), 1);
    assert_eq!(r.load_exclusive(), 1);
    r.set(2);
    assert!(!r.store_exclusive(9));
    assert_eq!(r.get(), 2);
    assert_eq!(r.load_exclusive(), 2);
    assert!(r.store_exclusive(9));
    assert_eq!(r.get(), 9);
}

#[test]
fn interrupted_or_retries_and_keeps_both_bits() {
    let a = 1u32 << 3;
    let b = 1u32 << 5;
    let mut reg = Reg::new(1u32);
    let mut op = ExclusiveOr::new(a);
    op.step(&mut reg); // load-exclusive
    reg.atomic_or(b); // the interrupt handler runs here
    op.step(&mut reg); // store-exclusive fails: the reservation is gone
    assert!(!op.done);
    assert_eq!(reg.get(), 1 | b);
    op.step(&mut reg);
    op.step(&mut reg);
    assert!(op.done);
    assert_eq!(reg.get(), 1 | a | b);
}

#[test]
fn interrupt_before_load_or_after_store() {
    let a = 1u32 << 0;
    let b = 1u32 << 31;
    let mut reg = Reg::new(0u32);
    let mut op = ExclusiveOr::new(a);
    reg.atomic_or(b);
    op.step(&mut reg);
    op.step(&mut reg);
    assert!(op.done);
    reg.atomic_or(1 << 7);
    assert_eq!(reg.get(), a | b | (1 << 7));
}

fn regs3() -> [Reg<u32>; 3] {
    [Reg::new(0), Reg::new(0), Reg::new(0)]
}

fn regs2() -> [Reg<u32>; 2] {
    [Reg::new(0), Reg::new(0)]
}

#[test]
fn clock_enables_on_one_bus_under_interrupt() {
    let mut rcc = Rcc {
        reg: Registers {
            cr: Reg::new(0),
            pllcfgr: Reg::new(0),
            cfgr: Reg::new(0),
            cir: Reg::new(0),
            ahb_rstr: regs3(),
            apb_rstr: regs2(),
            ahb_enr: regs3(),
            apb_enr: regs2(),
            ahb_lpenr: regs3(),
            apb_lpenr: regs2(),
            bdcr: Reg::new(0),
            csr: Reg::new(0),
            sscgr: Reg::new(0),
            plli2scfgr: Reg::new(0),
        },
    };
    // The foreground enables GPIOA's clock and is interrupted between its
    // load and its store by a handler that enables GPIOD's clock.
    let mut op = ExclusiveOr::new(1 << AhbPeripheral::GpioA.get_bit_index());
    op.step(&mut rcc.reg.ahb_enr[0]);
    rcc.enable_clock(AhbPeripheral::GpioD);
    while !op.done {
        op.step(&mut rcc.reg.ahb_enr[0]);
    }
    assert_eq!(rcc.reg.ahb_enr[0].get(), (1 << 0) | (1 << 3));
}
