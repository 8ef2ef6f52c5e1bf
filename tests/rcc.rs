use embrs::arm_m::reg::Reg;
use embrs::bits::BitsWrapper;
use embrs::stm32f4::flash::Flash;
use embrs::stm32f4::rcc::raw::{
    AhbPrescaler, ApbPrescaler, Cfgr, ClockSwitch, Cr, McoPre, PllSource, Pllcfgr, Pllp,
    Registers,
};
use embrs::stm32f4::rcc::sequence::{ClockAction, ClockRegister, ClockSequencer, ClockStage};
use embrs::stm32f4::rcc::{
    AhbBus, AhbPeripheral, ApbBus, ApbPeripheral, ClockConfig, ClockDivisor, Rcc, SysPrescaler,
    BOOT_CLOCK_HZ,
};

fn regs3() -> [Reg<u32>; 3] {
    [Reg::new(0), Reg::new(0), Reg::new(0)]
}

fn regs2() -> [Reg<u32>; 2] {
    [Reg::new(0), Reg::new(0)]
}

fn rcc_at_reset() -> Rcc {
    Rcc {
        reg: Registers {
            cr: Reg::new(0x0000_0083),
            pllcfgr: Reg::new(0x2400_3010),
            cfgr: Reg::new(0),
            cir: Reg::new(0),
            ahb_rstr: regs3(),
            apb_rstr: regs2(),
            ahb_enr: regs3(),
            apb_enr: regs2(),
            ahb_lpenr: regs3(),
            apb_lpenr: regs2(),
            bdcr: Reg::new(0),
            csr: Reg::new(0),
            sscgr: Reg::new(0),
            plli2scfgr: Reg::new(0),
        },
    }
}

fn example_config() -> ClockConfig {
    ClockConfig {
        crystal_hz: 8_000_000,
        crystal_divisor: 4,
        vco_multiplier: 160,
        general_divisor: SysPrescaler::Div2,
        pll48_divisor: 4,
        ahb_divisor: None,
        apb1_divisor: Some(ApbPrescaler::Div4),
        apb2_divisor: Some(ApbPrescaler::Div2),
        flash_latency: 5,
    }
}

#[test]
fn clock_speeds_of_example_config() {
    let speeds = example_config().compute_speeds();
    assert_eq!(speeds.cpu, 160_000_000);
    assert_eq!(speeds.ahb, 160_000_000);
    assert_eq!(speeds.apb1, 40_000_000);
    assert_eq!(speeds.apb2, 80_000_000);
    assert_eq!(speeds.pll48, 80_000_000);
}

#[test]
fn clock_speeds_with_every_bus_divided() {
    let cfg = ClockConfig {
        crystal_hz: 25_000_000,
        crystal_divisor: 25,
        vco_multiplier: 336,
        general_divisor: SysPrescaler::Div4,
        pll48_divisor: 7,
        ahb_divisor: Some(AhbPrescaler::Div2),
        apb1_divisor: Some(ApbPrescaler::Div16),
        apb2_divisor: None,
        flash_latency: 2,
    };
    let speeds = cfg.compute_speeds();
    assert_eq!(speeds.cpu, 84_000_000);
    assert_eq!(speeds.ahb, 42_000_000);
    assert_eq!(speeds.apb1, 2_625_000);
    assert_eq!(speeds.apb2, 42_000_000);
    assert_eq!(speeds.pll48, 48_000_000);
}

#[test]
fn vco_is_rounded_once() {
    let cfg = ClockConfig {
        crystal_hz: 8_000_000,
        crystal_divisor: 3,
        vco_multiplier: 336,
        general_divisor: SysPrescaler::Div2,
        pll48_divisor: 7,
        ahb_divisor: None,
        apb1_divisor: None,
        apb2_divisor: None,
        flash_latency: 0,
    };
    let speeds = cfg.compute_speeds();
    assert_eq!(speeds.pll48, 896_000_000 / 7);
    assert_eq!(speeds.cpu, 448_000_000);
}

#[test]
fn apb_clocks_divide_the_ahb_clock() {
    let cfg = ClockConfig {
        ahb_divisor: Some(AhbPrescaler::Div2),
        ..example_config()
    };
    let speeds = cfg.compute_speeds();
    assert_eq!(speeds.ahb, 80_000_000);
    assert_eq!(speeds.apb1, 20_000_000);
    assert_eq!(speeds.apb2, 40_000_000);
    assert_eq!(speeds.get_clock_for(ApbPeripheral::Usart2), 20_000_000);
}

#[test]
fn clock_speeds_do_not_overflow() {
    let cfg = ClockConfig {
        crystal_hz: u32::MAX,
        crystal_divisor: 1,
        vco_multiplier: u32::MAX,
        general_divisor: Pllp::Div2,
        pll48_divisor: 1,
        ahb_divisor: None,
        apb1_divisor: None,
        apb2_divisor: None,
        flash_latency: 0,
    };
    let speeds = cfg.compute_speeds();
    let vco = (u32::MAX as u64) * (u32::MAX as u64);
    assert_eq!(speeds.pll48, vco);
    assert_eq!(speeds.cpu, vco / 2);
}

#[test]
fn clock_for_peripherals() {
    let speeds = example_config().compute_speeds();
    assert_eq!(speeds.get_clock_for(ApbPeripheral::Usart2), 40_000_000);
    assert_eq!(speeds.get_clock_for(ApbPeripheral::Usart1), 80_000_000);
    assert_eq!(speeds.get_clock_for(AhbPeripheral::GpioA), 160_000_000);
}

#[test]
fn divisors() {
    assert_eq!(ApbPrescaler::Div16.to_divisor(), 16);
    assert_eq!(AhbPrescaler::Div64.to_divisor(), 64);
    assert_eq!(AhbPrescaler::Div512.to_divisor(), 512);
    assert_eq!(Pllp::Div6.to_divisor(), 6);
    assert_eq!(None::<ApbPrescaler>.to_divisor(), 1);
    assert_eq!(Some(ApbPrescaler::Div8).to_divisor(), 8);
    assert_eq!(BOOT_CLOCK_HZ, 16_000_000);
}

#[test]
fn peripheral_table() {
    assert!(matches!(AhbPeripheral::GpioD.get_bus(), AhbBus::Ahb1));
    assert_eq!(AhbPeripheral::GpioD.get_bit_index(), 3);
    assert!(matches!(AhbPeripheral::Rng.get_bus(), AhbBus::Ahb2));
    assert_eq!(AhbPeripheral::Rng.get_bit_index(), 6);
    assert!(matches!(AhbPeripheral::Fsmc.get_bus(), AhbBus::Ahb3));
    assert!(!AhbPeripheral::FlashIface.has_enr());
    assert!(!AhbPeripheral::FlashIface.has_rst());
    assert!(AhbPeripheral::FlashIface.has_lpenr());
    assert!(AhbPeripheral::CcmDataRam.has_enr());
    assert!(!AhbPeripheral::CcmDataRam.has_lpenr());
    assert!(matches!(ApbPeripheral::Usart1.get_bus(), ApbBus::Apb2));
    assert_eq!(ApbPeripheral::Usart1.get_bit_index(), 4);
    assert!(!ApbPeripheral::Adc2.has_rst());
    assert!(ApbPeripheral::Adc2.has_enr());
}

#[test]
fn enable_clock_sets_one_bit() {
    let mut rcc = rcc_at_reset();
    rcc.enable_clock(AhbPeripheral::GpioD);
    assert_eq!(rcc.reg.ahb_enr[0].get(), 1 << 3);
    rcc.enable_clock(AhbPeripheral::GpioA);
    assert_eq!(rcc.reg.ahb_enr[0].get(), (1 << 3) | 1);
    rcc.enable_clock(ApbPeripheral::Usart2);
    assert_eq!(rcc.reg.apb_enr[0].get(), 1 << 17);
    rcc.enable_clock(ApbPeripheral::Usart1);
    assert_eq!(rcc.reg.apb_enr[1].get(), 1 << 4);
    rcc.enable_clock(AhbPeripheral::Fsmc);
    assert_eq!(rcc.reg.ahb_enr[2].get(), 1);
    assert_eq!(rcc.reg.ahb_enr[1].get(), 0);
}

#[test]
fn enable_bit_locations() {
    assert_eq!(AhbPeripheral::GpioD.enable_bit(), (0, 1 << 3));
    assert_eq!(AhbPeripheral::Rng.enable_bit(), (1, 1 << 6));
    assert_eq!(AhbPeripheral::Fsmc.enable_bit(), (2, 1));
    assert_eq!(ApbPeripheral::Usart2.enable_bit(), (0, 1 << 17));
    assert_eq!(ApbPeripheral::Tim11.enable_bit(), (1, 1 << 18));
}

#[test]
fn register_accessors() {
    let mut rcc = rcc_at_reset();
    assert!(rcc.read_cr().get_hsion());
    assert!(rcc.read_cr().get_hsirdy());
    assert!(!rcc.read_cr().get_pllon());
    rcc.update_cr(|v| v.with_hseon(true));
    assert_eq!(rcc.read_cr().0, 0x0001_0083);
    rcc.write_cfgr(Cfgr(0).with_sw(ClockSwitch::Pll));
    assert_eq!(rcc.read_cfgr().0, 0b10);
    rcc.update_pllcfgr(|v| v.with_pllsrc(PllSource::Hse));
    assert_eq!(rcc.read_pllcfgr().0, 0x2440_3010);
    assert_eq!(rcc.read_pllcfgr().get_pllm(), 16);
    assert_eq!(rcc.read_pllcfgr().get_plln(), 192);
}

#[test]
fn optional_prescalers() {
    let v = Cfgr(0).with_hpre(Some(AhbPrescaler::Div4));
    assert_eq!(v.0, 0x90);
    assert_eq!(v.get_hpre(), Some(AhbPrescaler::Div4));
    let v = v.with_hpre(None);
    assert_eq!(v.0, 0x10);
    assert_eq!(v.get_hpre(), None);
    let v = Cfgr(0).with_ppre1(Some(ApbPrescaler::Div4)).with_ppre2(Some(ApbPrescaler::Div2));
    assert_eq!(v.0, (0b101 << 10) | (0b100 << 13));
    assert_eq!(v.get_ppre1(), Some(ApbPrescaler::Div4));
    assert_eq!(v.get_ppre2(), Some(ApbPrescaler::Div2));
    let v = Cfgr(0).with_mco1pre(Some(McoPre::Div5));
    assert_eq!(v.0, 0b111 << 24);
}

#[test]
fn clock_switch_status_decoding() {
    assert_eq!(Cfgr(0b1000).get_sws(), Ok(ClockSwitch::Pll));
    assert_eq!(Cfgr(0b1100).get_sws(), Err(embrs::bits::BadBits(0b11)));
    assert_eq!(Cfgr::from_raw(0b01).get_sw(), Ok(ClockSwitch::Hse));
}

#[test]
fn pll_register_fields() {
    let v = Pllcfgr(0)
        .with_pllm(4)
        .with_plln(160)
        .with_pllp(Pllp::Div2)
        .with_pllq(4)
        .with_pllsrc(PllSource::Hse);
    assert_eq!(v.0, 4 | (160 << 6) | (4 << 24) | (1 << 22));
    // Out-of-range values keep only their low bits.
    assert_eq!(Pllcfgr(0).with_pllm(64 + 3).0, 3);
    assert_eq!(Cr(0).with_hsitrim(0xFF).0, 0b11111 << 3);
}

/// Models the hardware's answers: oscillators and the PLL become ready when
/// turned on, and the clock switch status follows the selection.
fn settle(rcc: &mut Rcc) {
    let cr = rcc.read_cr();
    let cr = cr
        .with_hsirdy(cr.get_hsion())
        .with_hserdy(cr.get_hseon())
        .with_pllrdy(cr.get_pllon());
    rcc.write_cr(cr);
    let cfgr = rcc.read_cfgr();
    if let Ok(sw) = cfgr.get_sw() {
        rcc.write_cfgr(cfgr.with_sws(sw));
    }
}

fn run_to_end(
    rcc: &mut Rcc,
    flash: &mut Flash,
    mut seq: ClockSequencer,
    hardware_answers: bool,
) -> (Vec<(ClockStage, ClockAction)>, ClockAction) {
    let mut trace = Vec::new();
    let mut observed = 0u32;
    for _ in 0..1000 {
        let action = seq.advance(observed);
        trace.push((seq.stage, action));
        match action {
            ClockAction::Read(_) | ClockAction::Write(_, _) => {
                observed = rcc.perform(flash, action);
                if hardware_answers {
                    settle(rcc);
                }
            }
            _ => return (trace, action),
        }
    }
    panic!("the reconfiguration did not end");
}

#[test]
fn configure_clocks_on_answering_hardware() {
    let mut rcc = rcc_at_reset();
    let mut flash = Flash { acr: Reg::new(0) };
    let seq = Rcc::configure_clocks(&example_config(), Some(10));
    let (trace, end) = run_to_end(&mut rcc, &mut flash, seq, true);
    assert_eq!(end, ClockAction::Done);

    let pos = |stage: ClockStage| trace.iter().position(|t| t.0 == stage).unwrap();
    let dividers = pos(ClockStage::DividersWritten);
    let latency = pos(ClockStage::LatencyWritten);
    let pll_on = pos(ClockStage::PllOnWritten);
    let switch = pos(ClockStage::PllSelectWritten);
    assert!(dividers < pll_on);
    assert!(latency < pll_on);
    assert!(pll_on < switch);
    assert!(pos(ClockStage::PllOffWritten) < pos(ClockStage::PllConfigWritten));
    assert_eq!(trace[switch - 1].0, ClockStage::PllSelectRead);
    assert_eq!(trace[switch - 2], (ClockStage::PllReadyPoll, ClockAction::Read(ClockRegister::Cr)));

    let writes: Vec<ClockRegister> = trace
        .iter()
        .filter_map(|t| match t.1 {
            ClockAction::Write(r, _) => Some(r),
            _ => None,
        })
        .collect();
    assert_eq!(
        writes,
        vec![
            ClockRegister::Cr,
            ClockRegister::Cfgr,
            ClockRegister::Cr,
            ClockRegister::Cfgr,
            ClockRegister::FlashAcr,
            ClockRegister::Cr,
            ClockRegister::Pllcfgr,
            ClockRegister::Cr,
            ClockRegister::Cfgr,
        ]
    );

    let pll = rcc.read_pllcfgr();
    assert_eq!(pll.get_pllm(), 4);
    assert_eq!(pll.get_plln(), 160);
    assert_eq!(pll.get_pllp(), Pllp::Div2);
    assert_eq!(pll.get_pllq(), 4);
    assert_eq!(pll.get_pllsrc(), PllSource::Hse);
    let cfgr = rcc.read_cfgr();
    assert_eq!(cfgr.get_hpre(), None);
    assert_eq!(cfgr.get_ppre1(), Some(ApbPrescaler::Div4));
    assert_eq!(cfgr.get_ppre2(), Some(ApbPrescaler::Div2));
    assert_eq!(cfgr.get_sws(), Ok(ClockSwitch::Pll));
    assert!(rcc.read_cr().get_pllon());
    assert!(rcc.read_cr().get_hseon());
    assert_eq!(flash.read_acr().get_latency(), 5);

    // Once done, the sequencer stays done.
    let mut seq = ClockSequencer { stage: ClockStage::Finished, ..seq };
    assert_eq!(seq.advance(0), ClockAction::Done);
}

#[test]
fn configure_clocks_times_out_on_dead_crystal() {
    let mut rcc = rcc_at_reset();
    let mut flash = Flash { acr: Reg::new(0) };
    let mut seq = Rcc::configure_clocks(&example_config(), Some(3));
    let mut observed = 0u32;
    let mut hse_polls = 0;
    loop {
        let action = seq.advance(observed);
        match action {
            ClockAction::Read(_) | ClockAction::Write(_, _) => {
                if seq.stage == ClockStage::HseReadyPoll {
                    hse_polls += 1;
                }
                observed = rcc.perform(&mut flash, action);
                // Everything answers but the HSE oscillator.
                settle(&mut rcc);
                let cr = rcc.read_cr();
                rcc.write_cr(cr.with_hserdy(false));
            }
            other => {
                assert_eq!(other, ClockAction::HardwareTimeout);
                break;
            }
        }
    }
    assert_eq!(seq.stage, ClockStage::TimedOut);
    assert_eq!(hse_polls, 4);
    // The bus prescalers and wait states were written; the PLL was not.
    assert_eq!(flash.read_acr().get_latency(), 5);
    assert!(!rcc.read_cr().get_pllon());
    assert_eq!(seq.advance(0), ClockAction::HardwareTimeout);
}

#[test]
fn unlimited_wait_keeps_polling() {
    let mut seq = ClockSequencer::new(example_config(), None);
    assert_eq!(seq.advance(0), ClockAction::Read(ClockRegister::Cr));
    assert_eq!(seq.advance(0), ClockAction::Write(ClockRegister::Cr, 1));
    assert_eq!(seq.advance(0), ClockAction::Read(ClockRegister::Cr));
    for _ in 0..10_000 {
        assert_eq!(seq.advance(0), ClockAction::Read(ClockRegister::Cr));
        assert_eq!(seq.stage, ClockStage::HsiReadyPoll);
        assert_eq!(seq.polls, 0);
    }
    assert_eq!(seq.advance(0b11), ClockAction::Read(ClockRegister::Cfgr));
}

#[test]
fn bus_divider_write_keeps_other_fields() {
    let mut seq = ClockSequencer {
        cfg: example_config(),
        stage: ClockStage::DividersRead,
        polls: 0,
        poll_limit: Some(1),
    };
    let before = 0xC000_0008u32 | (0b1111 << 4);
    let expected = 0xC000_0008u32 | (0b101 << 10) | (0b100 << 13) | (0b111 << 4);
    assert_eq!(seq.advance(before), ClockAction::Write(ClockRegister::Cfgr, expected));
}
