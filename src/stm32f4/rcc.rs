//! Reset and Clock Control (RCC) support.
//!
//! This module provides the register block with its peripheral clock gating,
//! the clock speeds that follow from a clock configuration, and (in
//! `sequence`) the reconfiguration algorithm.  For the registers' fields, see
//! the `raw` submodule.
pub mod raw;
pub mod sequence;

use vstd::prelude::*;

verus! {

use crate::arm_m::reg::AtomicReg;
use crate::bits::IntoBits;
pub use self::raw::{AhbPrescaler, ApbPrescaler, Cfgr, ClockDivisor, Cr, Pllcfgr, Registers};
pub use self::raw::Pllp as SysPrescaler;

/// At startup, before the RCC has been reconfigured, the STM32F4 runs at 16MHz.
pub const BOOT_CLOCK_HZ: u32 = 16_000_000;

/// The RCC, as the register block it owns.
pub struct Rcc {
    pub reg: Registers,
}

/// A clock configuration when using the High Speed External (HSE) crystal
/// oscillator and internal PLL.
#[derive(Clone, Copy, Debug, PartialEq, Eq, Structural)]
pub struct ClockConfig {
    /// Frequency of external crystal, in Hz.
    ///
    /// This is used to answer queries about the current clock speeds, but does
    /// not affect clock settings.
    pub crystal_hz: u32,
    /// Divisor used to derive the PLL input frequency from the crystal.  This
    /// maps to the `PLLM` field of `Pllcfgr`.
    pub crystal_divisor: u32,
    /// Multiplier used to derive the VCO frequency from the PLL input
    /// frequency.  This maps to the `PLLN` field of `Pllcfgr`.
    pub vco_multiplier: u32,
    /// Divisor used to derive the PLL general system clock output from the VCO
    /// frequency.  This maps to the `PLLP` field of `Pllcfgr`.
    pub general_divisor: SysPrescaler,
    /// Divisor used to derive the PLL48 output from the VCO frequency.  This
    /// maps to the `PLLQ` field of `Pllcfgr`.
    pub pll48_divisor: u32,
    /// Optional divisor used to derive the AHB clock from the system clock.
    pub ahb_divisor: Option<AhbPrescaler>,
    /// Optional divisor used to derive the APB1 clock from the system clock.
    pub apb1_divisor: Option<ApbPrescaler>,
    /// Optional divisor used to derive the APB2 clock from the system clock.
    pub apb2_divisor: Option<ApbPrescaler>,
    /// Number of wait states desired for Flash accesses.  It is changed
    /// together with the CPU frequency, since code may be running from Flash.
    pub flash_latency: u32,
}

/// The internal clock speeds, in Hz, that follow from a `ClockConfig`.
#[derive(Clone, Copy, Debug, PartialEq, Eq, Structural)]
pub struct ClockSpeeds {
    pub cpu: u64,
    pub ahb: u64,
    pub apb1: u64,
    pub apb2: u64,
    pub pll48: u64,
}

impl ClockConfig {
    /// The VCO frequency: the crystal multiplied by the VCO multiplier and
    /// divided by the input divisor, rounded down once.
    pub open spec fn vco_out_hz(self) -> int {
        (self.crystal_hz as int * self.vco_multiplier as int) / self.crystal_divisor as int
    }

    /// The system (CPU) clock: the VCO divided by the general divisor.
    pub open spec fn cpu_hz(self) -> int {
        self.vco_out_hz() / self.general_divisor.divisor() as int
    }

    /// The AHB clock: the system clock divided by the AHB prescaler.
    pub open spec fn ahb_hz(self) -> int {
        self.cpu_hz() / self.ahb_divisor.divisor() as int
    }

    /// Computes the clock speeds of every domain, following the clock tree:
    /// the VCO feeds the system clock and the PLL48 domain, the system clock
    /// feeds the AHB, and the AHB feeds both APBs.  Each division is rounded
    /// down to a whole number of Hz.
    pub fn compute_speeds(&self) -> (r: ClockSpeeds)
        requires
            self.crystal_divisor > 0,
            self.pll48_divisor > 0,
        ensures
            r.cpu == self.cpu_hz(),
            r.ahb == self.ahb_hz(),
            r.apb1 == self.ahb_hz() / self.apb1_divisor.divisor() as int,
            r.apb2 == self.ahb_hz() / self.apb2_divisor.divisor() as int,
            r.pll48 == self.vco_out_hz() / self.pll48_divisor as int,
    {
        let crystal = self.crystal_hz as u64;
        let mult = self.vco_multiplier as u64;
        proof {
            assert(crystal * mult <= 0xffff_ffffu64 * 0xffff_ffffu64) by (nonlinear_arith)
                requires
                    crystal <= 0xffff_ffffu64,
                    mult <= 0xffff_ffffu64,
            ;
        }
        let vco_out = crystal * mult / (self.crystal_divisor as u64);
        let cpu = vco_out / (self.general_divisor.to_divisor() as u64);
        let ahb = cpu / (self.ahb_divisor.to_divisor() as u64);
        ClockSpeeds {
            cpu: cpu,
            ahb: ahb,
            apb1: ahb / (self.apb1_divisor.to_divisor() as u64),
            apb2: ahb / (self.apb2_divisor.to_divisor() as u64),
            pll48: vco_out / (self.pll48_divisor as u64),
        }
    }
}

impl ClockSpeeds {
    /// The speed of the bus clock that drives peripheral `p`.
    pub fn get_clock_for<P: PeripheralName>(&self, p: P) -> (r: u64)
        ensures
            r == p.clock_spec(*self),
    {
        p.get_clock(self)
    }
}

/// Describes types that name peripherals in the RCC: `AhbPeripheral` and
/// `ApbPeripheral`.
pub trait PeripheralName: Sized {
    /// Whether the peripheral's clock has an enable bit.
    spec fn clock_controllable(self) -> bool;

    /// The speed of the clock that drives the peripheral.
    spec fn clock_spec(self, speeds: ClockSpeeds) -> u64;

    /// Whether `after` is `before` with the peripheral's clock-enable bit set,
    /// and no other register changed.
    spec fn clock_enabled(self, before: Rcc, after: Rcc) -> bool;

    /// Alters the RCC to enable the clock for the named peripheral.  Only a
    /// peripheral whose clock has an enable bit may be named.
    fn enable_clock(self, rcc: &mut Rcc)
        requires
            self.clock_controllable(),
        ensures
            self.clock_enabled(*old(rcc), *final(rcc)),
    ;

    /// Gets the clock speed for this peripheral, given the current speeds.
    fn get_clock(self, speeds: &ClockSpeeds) -> (r: u64)
        ensures
            r == self.clock_spec(*speeds),
    ;
}

/// Whether the registers `after` equal `before` but for one enable register,
/// in which `bit` has been set.
pub open spec fn one_enable_bit_set(
    before: Registers,
    after: Registers,
    ahb: bool,
    bus: int,
    bit: u32,
) -> bool {
    if ahb {
        &&& after == Registers { ahb_enr: after.ahb_enr, ..before }
        &&& after.ahb_enr[bus].value() == before.ahb_enr[bus].value() | (1u32 << bit)
        &&& forall|k: int| 0 <= k < 3 && k != bus ==> after.ahb_enr[k] == before.ahb_enr[k]
    } else {
        &&& after == Registers { apb_enr: after.apb_enr, ..before }
        &&& after.apb_enr[bus].value() == before.apb_enr[bus].value() | (1u32 << bit)
        &&& forall|k: int| 0 <= k < 2 && k != bus ==> after.apb_enr[k] == before.apb_enr[k]
    }
}

impl Rcc {
    /// Enables clock to peripheral `p`.  Only a peripheral whose clock has an
    /// enable bit may be named; asking for another is a configuration error.
    ///
    /// The bit is set with an exclusive read-modify-write, so an interrupt
    /// that enables another peripheral's clock on the same bus meanwhile loses
    /// nothing.  Whoever writes these values to the hardware issues a data
    /// synchronization barrier after the write, before the peripheral is
    /// accessed.
    pub fn enable_clock<P: PeripheralName>(&mut self, p: P)
        requires
            p.clock_controllable(),
        ensures
            p.clock_enabled(*old(self), *final(self)),
    {
        p.enable_clock(self)
    }

    pub fn read_cr(&self) -> (r: Cr)
        ensures
            r.0 == self.reg.cr.value(),
    {
        Cr(self.reg.cr.get())
    }

    pub fn write_cr(&mut self, v: Cr)
        ensures
            final(self).reg.cr.value() == v.0,
            final(self).reg == (Registers { cr: final(self).reg.cr, ..old(self).reg }),
    {
        self.reg.cr.set(v.0)
    }

    pub fn update_cr<F: FnOnce(Cr) -> Cr>(&mut self, f: F)
        requires
            f.requires((Cr(old(self).reg.cr.value()),)),
        ensures
            f.ensures((Cr(old(self).reg.cr.value()),), Cr(final(self).reg.cr.value())),
            final(self).reg == (Registers { cr: final(self).reg.cr, ..old(self).reg }),
    {
        let v = f(self.read_cr());
        self.write_cr(v)
    }

    pub fn read_cfgr(&self) -> (r: Cfgr)
        ensures
            r.0 == self.reg.cfgr.value(),
    {
        Cfgr(self.reg.cfgr.get())
    }

    pub fn write_cfgr(&mut self, v: Cfgr)
        ensures
            final(self).reg.cfgr.value() == v.0,
            final(self).reg == (Registers { cfgr: final(self).reg.cfgr, ..old(self).reg }),
    {
        self.reg.cfgr.set(v.0)
    }

    pub fn update_cfgr<F: FnOnce(Cfgr) -> Cfgr>(&mut self, f: F)
        requires
            f.requires((Cfgr(old(self).reg.cfgr.value()),)),
        ensures
            f.ensures((Cfgr(old(self).reg.cfgr.value()),), Cfgr(final(self).reg.cfgr.value())),
            final(self).reg == (Registers { cfgr: final(self).reg.cfgr, ..old(self).reg }),
    {
        let v = f(self.read_cfgr());
        self.write_cfgr(v)
    }

    pub fn read_pllcfgr(&self) -> (r: Pllcfgr)
        ensures
            r.0 == self.reg.pllcfgr.value(),
    {
        Pllcfgr(self.reg.pllcfgr.get())
    }

    pub fn write_pllcfgr(&mut self, v: Pllcfgr)
        ensures
            final(self).reg.pllcfgr.value() == v.0,
            final(self).reg == (Registers { pllcfgr: final(self).reg.pllcfgr, ..old(self).reg }),
    {
        self.reg.pllcfgr.set(v.0)
    }

    pub fn update_pllcfgr<F: FnOnce(Pllcfgr) -> Pllcfgr>(&mut self, f: F)
        requires
            f.requires((Pllcfgr(old(self).reg.pllcfgr.value()),)),
        ensures
            f.ensures(
                (Pllcfgr(old(self).reg.pllcfgr.value()),),
                Pllcfgr(final(self).reg.pllcfgr.value()),
            ),
            final(self).reg == (Registers { pllcfgr: final(self).reg.pllcfgr, ..old(self).reg }),
    {
        let v = f(self.read_pllcfgr());
        self.write_pllcfgr(v)
    }
}

/// Names the processor's AHB buses.
#[derive(Clone, Copy, Debug, PartialEq, Eq, Structural)]
pub enum AhbBus {
    Ahb1,
    Ahb2,
    Ahb3,
}

impl IntoBits for AhbBus {
    open spec fn bits_of(self) -> u32 {
        match self {
            AhbBus::Ahb1 => 0,
            AhbBus::Ahb2 => 1,
            AhbBus::Ahb3 => 2,
        }
    }

    fn into_bits(self) -> u32 {
        match self {
            AhbBus::Ahb1 => 0,
            AhbBus::Ahb2 => 1,
            AhbBus::Ahb3 => 2,
        }
    }
}

/// Names the processor's APB buses.
#[derive(Clone, Copy, Debug, PartialEq, Eq, Structural)]
pub enum ApbBus {
    Apb1,
    Apb2,
}

impl IntoBits for ApbBus {
    open spec fn bits_of(self) -> u32 {
        match self {
            ApbBus::Apb1 => 0,
            ApbBus::Apb2 => 1,
        }
    }

    fn into_bits(self) -> u32 {
        match self {
            ApbBus::Apb1 => 0,
            ApbBus::Apb2 => 1,
        }
    }
}

/// Names the processor's AHB-connected peripherals, for the purposes of
/// clock and reset domain control.
#[derive(Clone, Copy, Debug, PartialEq, Eq, Structural)]
pub enum AhbPeripheral {
    GpioA,
    GpioB,
    GpioC,
    GpioD,
    GpioE,
    GpioF,
    GpioG,
    GpioH,
    GpioI,
    Crc,
    FlashIface,
    Sram1,
    Sram2,
    BackupSram,
    CcmDataRam,
    Dma1,
    Dma2,
    Ethernet,
    EthernetTx,
    EthernetRx,
    EthernetPtp,
    UsbOtgHs,
    UsbOtgHsUlpi,
    Dcmi,
    Cryp,
    Hash,
    Rng,
    UsbOtgFs,
    Fsmc,
}

impl AhbPeripheral {
    /// The peripheral's row of the RCC's control table: its bus, the index of
    /// its bit in that bus's registers, and whether it has a reset bit, a
    /// clock-enable bit and a low-power clock-enable bit.
    pub open spec fn entry(self) -> (AhbBus, u32, bool, bool, bool) {
        match self {
            AhbPeripheral::GpioA => (AhbBus::Ahb1, 0, true, true, true),
            AhbPeripheral::GpioB => (AhbBus::Ahb1, 1, true, true, true),
            AhbPeripheral::GpioC => (AhbBus::Ahb1, 2, true, true, true),
            AhbPeripheral::GpioD => (AhbBus::Ahb1, 3, true, true, true),
            AhbPeripheral::GpioE => (AhbBus::Ahb1, 4, true, true, true),
            AhbPeripheral::GpioF => (AhbBus::Ahb1, 5, true, true, true),
            AhbPeripheral::GpioG => (AhbBus::Ahb1, 6, true, true, true),
            AhbPeripheral::GpioH => (AhbBus::Ahb1, 7, true, true, true),
            AhbPeripheral::GpioI => (AhbBus::Ahb1, 8, true, true, true),
            AhbPeripheral::Crc => (AhbBus::Ahb1, 12, true, true, true),
            AhbPeripheral::FlashIface => (AhbBus::Ahb1, 15, false, false, true),
            AhbPeripheral::Sram1 => (AhbBus::Ahb1, 16, false, false, true),
            AhbPeripheral::Sram2 => (AhbBus::Ahb1, 17, false, false, true),
            AhbPeripheral::BackupSram => (AhbBus::Ahb1, 18, false, true, true),
            AhbPeripheral::CcmDataRam => (AhbBus::Ahb1, 20, false, true, false),
            AhbPeripheral::Dma1 => (AhbBus::Ahb1, 21, true, true, true),
            AhbPeripheral::Dma2 => (AhbBus::Ahb1, 22, true, true, true),
            AhbPeripheral::Ethernet => (AhbBus::Ahb1, 25, true, true, true),
            AhbPeripheral::EthernetTx => (AhbBus::Ahb1, 26, false, true, true),
            AhbPeripheral::EthernetRx => (AhbBus::Ahb1, 27, false, true, true),
            AhbPeripheral::EthernetPtp => (AhbBus::Ahb1, 28, false, true, true),
            AhbPeripheral::UsbOtgHs => (AhbBus::Ahb1, 29, true, true, true),
            AhbPeripheral::UsbOtgHsUlpi => (AhbBus::Ahb1, 30, false, true, true),
            AhbPeripheral::Dcmi => (AhbBus::Ahb2, 0, true, true, true),
            AhbPeripheral::Cryp => (AhbBus::Ahb2, 4, true, true, true),
            AhbPeripheral::Hash => (AhbBus::Ahb2, 5, true, true, true),
            AhbPeripheral::Rng => (AhbBus::Ahb2, 6, true, true, true),
            AhbPeripheral::UsbOtgFs => (AhbBus::Ahb2, 7, true, true, true),
            AhbPeripheral::Fsmc => (AhbBus::Ahb3, 0, true, true, true),
        }
    }

    fn lookup(self) -> (r: (AhbBus, u32, bool, bool, bool))
        ensures
            r == self.entry(),
    {
        match self {
            AhbPeripheral::GpioA => (AhbBus::Ahb1, 0, true, true, true),
            AhbPeripheral::GpioB => (AhbBus::Ahb1, 1, true, true, true),
            AhbPeripheral::GpioC => (AhbBus::Ahb1, 2, true, true, true),
            AhbPeripheral::GpioD => (AhbBus::Ahb1, 3, true, true, true),
            AhbPeripheral::GpioE => (AhbBus::Ahb1, 4, true, true, true),
            AhbPeripheral::GpioF => (AhbBus::Ahb1, 5, true, true, true),
            AhbPeripheral::GpioG => (AhbBus::Ahb1, 6, true, true, true),
            AhbPeripheral::GpioH => (AhbBus::Ahb1, 7, true, true, true),
            AhbPeripheral::GpioI => (AhbBus::Ahb1, 8, true, true, true),
            AhbPeripheral::Crc => (AhbBus::Ahb1, 12, true, true, true),
            AhbPeripheral::FlashIface => (AhbBus::Ahb1, 15, false, false, true),
            AhbPeripheral::Sram1 => (AhbBus::Ahb1, 16, false, false, true),
            AhbPeripheral::Sram2 => (AhbBus::Ahb1, 17, false, false, true),
            AhbPeripheral::BackupSram => (AhbBus::Ahb1, 18, false, true, true),
            AhbPeripheral::CcmDataRam => (AhbBus::Ahb1, 20, false, true, false),
            AhbPeripheral::Dma1 => (AhbBus::Ahb1, 21, true, true, true),
            AhbPeripheral::Dma2 => (AhbBus::Ahb1, 22, true, true, true),
            AhbPeripheral::Ethernet => (AhbBus::Ahb1, 25, true, true, true),
            AhbPeripheral::EthernetTx => (AhbBus::Ahb1, 26, false, true, true),
            AhbPeripheral::EthernetRx => (AhbBus::Ahb1, 27, false, true, true),
            AhbPeripheral::EthernetPtp => (AhbBus::Ahb1, 28, false, true, true),
            AhbPeripheral::UsbOtgHs => (AhbBus::Ahb1, 29, true, true, true),
            AhbPeripheral::UsbOtgHsUlpi => (AhbBus::Ahb1, 30, false, true, true),
            AhbPeripheral::Dcmi => (AhbBus::Ahb2, 0, true, true, true),
            AhbPeripheral::Cryp => (AhbBus::Ahb2, 4, true, true, true),
            AhbPeripheral::Hash => (AhbBus::Ahb2, 5, true, true, true),
            AhbPeripheral::Rng => (AhbBus::Ahb2, 6, true, true, true),
            AhbPeripheral::UsbOtgFs => (AhbBus::Ahb2, 7, true, true, true),
            AhbPeripheral::Fsmc => (AhbBus::Ahb3, 0, true, true, true),
        }
    }

    /// The bus the peripheral is connected to.
    pub fn get_bus(self) -> (r: AhbBus)
        ensures
            r == self.entry().0,
    {
        self.lookup().0
    }

    /// The index of the peripheral's bit in its bus's control registers.
    pub fn get_bit_index(self) -> (r: u32)
        ensures
            r == self.entry().1,
    {
        self.lookup().1
    }

    /// Whether the peripheral can be reset through the RCC.
    pub fn has_rst(self) -> (r: bool)
        ensures
            r == self.entry().2,
    {
        self.lookup().2
    }

    /// Whether the peripheral's clock can be switched on and off.
    pub fn has_enr(self) -> (r: bool)
        ensures
            r == self.entry().3,
    {
        self.lookup().3
    }

    /// Whether the peripheral's clock in low-power mode can be controlled.
    pub fn has_lpenr(self) -> (r: bool)
        ensures
            r == self.entry().4,
    {
        self.lookup().4
    }
}

/// Names the processor's APB-connected peripherals, for the purposes of
/// clock and reset domain control.
#[derive(Clone, Copy, Debug, PartialEq, Eq, Structural)]
pub enum ApbPeripheral {
    Tim2,
    Tim3,
    Tim4,
    Tim5,
    Tim6,
    Tim7,
    Tim12,
    Tim13,
    Tim14,
    Wwdg,
    Spi2,
    Spi3,
    Usart2,
    Usart3,
    Uart4,
    Uart5,
    I2c1,
    I2c2,
    I2c3,
    Can1,
    Can2,
    Pwr,
    Dac,
    Tim1,
    Tim8,
    Usart1,
    Usart6,
    Adc1,
    Adc2,
    Adc3,
    Sdio,
    Spi1,
    Syscfg,
    Tim9,
    Tim10,
    Tim11,
}

impl ApbPeripheral {
    /// The peripheral's row of the RCC's control table: its bus, the index of
    /// its bit in that bus's registers, and whether it has a reset bit, a
    /// clock-enable bit and a low-power clock-enable bit.
    pub open spec fn entry(self) -> (ApbBus, u32, bool, bool, bool) {
        match self {
            ApbPeripheral::Tim2 => (ApbBus::Apb1, 0, true, true, true),
            ApbPeripheral::Tim3 => (ApbBus::Apb1, 1, true, true, true),
            ApbPeripheral::Tim4 => (ApbBus::Apb1, 2, true, true, true),
            ApbPeripheral::Tim5 => (ApbBus::Apb1, 3, true, true, true),
            ApbPeripheral::Tim6 => (ApbBus::Apb1, 4, true, true, true),
            ApbPeripheral::Tim7 => (ApbBus::Apb1, 5, true, true, true),
            ApbPeripheral::Tim12 => (ApbBus::Apb1, 6, true, true, true),
            ApbPeripheral::Tim13 => (ApbBus::Apb1, 7, true, true, true),
            ApbPeripheral::Tim14 => (ApbBus::Apb1, 8, true, true, true),
            ApbPeripheral::Wwdg => (ApbBus::Apb1, 11, true, true, true),
            ApbPeripheral::Spi2 => (ApbBus::Apb1, 14, true, true, true),
            ApbPeripheral::Spi3 => (ApbBus::Apb1, 15, true, true, true),
            ApbPeripheral::Usart2 => (ApbBus::Apb1, 17, true, true, true),
            ApbPeripheral::Usart3 => (ApbBus::Apb1, 18, true, true, true),
            ApbPeripheral::Uart4 => (ApbBus::Apb1, 19, true, true, true),
            ApbPeripheral::Uart5 => (ApbBus::Apb1, 20, true, true, true),
            ApbPeripheral::I2c1 => (ApbBus::Apb1, 21, true, true, true),
            ApbPeripheral::I2c2 => (ApbBus::Apb1, 22, true, true, true),
            ApbPeripheral::I2c3 => (ApbBus::Apb1, 23, true, true, true),
            ApbPeripheral::Can1 => (ApbBus::Apb1, 25, true, true, true),
            ApbPeripheral::Can2 => (ApbBus::Apb1, 26, true, true, true),
            ApbPeripheral::Pwr => (ApbBus::Apb1, 28, true, true, true),
            ApbPeripheral::Dac => (ApbBus::Apb1, 29, true, true, true),
            ApbPeripheral::Tim1 => (ApbBus::Apb2, 0, true, true, true),
            ApbPeripheral::Tim8 => (ApbBus::Apb2, 1, true, true, true),
            ApbPeripheral::Usart1 => (ApbBus::Apb2, 4, true, true, true),
            ApbPeripheral::Usart6 => (ApbBus::Apb2, 5, true, true, true),
            ApbPeripheral::Adc1 => (ApbBus::Apb2, 8, true, true, true),
            ApbPeripheral::Adc2 => (ApbBus::Apb2, 9, false, true, true),
            ApbPeripheral::Adc3 => (ApbBus::Apb2, 10, false, true, true),
            ApbPeripheral::Sdio => (ApbBus::Apb2, 11, true, true, true),
            ApbPeripheral::Spi1 => (ApbBus::Apb2, 12, true, true, true),
            ApbPeripheral::Syscfg => (ApbBus::Apb2, 14, true, true, true),
            ApbPeripheral::Tim9 => (ApbBus::Apb2, 16, true, true, true),
            ApbPeripheral::Tim10 => (ApbBus::Apb2, 17, true, true, true),
            ApbPeripheral::Tim11 => (ApbBus::Apb2, 18, true, true, true),
        }
    }

    fn lookup(self) -> (r: (ApbBus, u32, bool, bool, bool))
        ensures
            r == self.entry(),
    {
        match self {
            ApbPeripheral::Tim2 => (ApbBus::Apb1, 0, true, true, true),
            ApbPeripheral::Tim3 => (ApbBus::Apb1, 1, true, true, true),
            ApbPeripheral::Tim4 => (ApbBus::Apb1, 2, true, true, true),
            ApbPeripheral::Tim5 => (ApbBus::Apb1, 3, true, true, true),
            ApbPeripheral::Tim6 => (ApbBus::Apb1, 4, true, true, true),
            ApbPeripheral::Tim7 => (ApbBus::Apb1, 5, true, true, true),
            ApbPeripheral::Tim12 => (ApbBus::Apb1, 6, true, true, true),
            ApbPeripheral::Tim13 => (ApbBus::Apb1, 7, true, true, true),
            ApbPeripheral::Tim14 => (ApbBus::Apb1, 8, true, true, true),
            ApbPeripheral::Wwdg => (ApbBus::Apb1, 11, true, true, true),
            ApbPeripheral::Spi2 => (ApbBus::Apb1, 14, true, true, true),
            ApbPeripheral::Spi3 => (ApbBus::Apb1, 15, true, true, true),
            ApbPeripheral::Usart2 => (ApbBus::Apb1, 17, true, true, true),
            ApbPeripheral::Usart3 => (ApbBus::Apb1, 18, true, true, true),
            ApbPeripheral::Uart4 => (ApbBus::Apb1, 19, true, true, true),
            ApbPeripheral::Uart5 => (ApbBus::Apb1, 20, true, true, true),
            ApbPeripheral::I2c1 => (ApbBus::Apb1, 21, true, true, true),
            ApbPeripheral::I2c2 => (ApbBus::Apb1, 22, true, true, true),
            ApbPeripheral::I2c3 => (ApbBus::Apb1, 23, true, true, true),
            ApbPeripheral::Can1 => (ApbBus::Apb1, 25, true, true, true),
            ApbPeripheral::Can2 => (ApbBus::Apb1, 26, true, true, true),
            ApbPeripheral::Pwr => (ApbBus::Apb1, 28, true, true, true),
            ApbPeripheral::Dac => (ApbBus::Apb1, 29, true, true, true),
            ApbPeripheral::Tim1 => (ApbBus::Apb2, 0, true, true, true),
            ApbPeripheral::Tim8 => (ApbBus::Apb2, 1, true, true, true),
            ApbPeripheral::Usart1 => (ApbBus::Apb2, 4, true, true, true),
            ApbPeripheral::Usart6 => (ApbBus::Apb2, 5, true, true, true),
            ApbPeripheral::Adc1 => (ApbBus::Apb2, 8, true, true, true),
            ApbPeripheral::Adc2 => (ApbBus::Apb2, 9, false, true, true),
            ApbPeripheral::Adc3 => (ApbBus::Apb2, 10, false, true, true),
            ApbPeripheral::Sdio => (ApbBus::Apb2, 11, true, true, true),
            ApbPeripheral::Spi1 => (ApbBus::Apb2, 12, true, true, true),
            ApbPeripheral::Syscfg => (ApbBus::Apb2, 14, true, true, true),
            ApbPeripheral::Tim9 => (ApbBus::Apb2, 16, true, true, true),
            ApbPeripheral::Tim10 => (ApbBus::Apb2, 17, true, true, true),
            ApbPeripheral::Tim11 => (ApbBus::Apb2, 18, true, true, true),
        }
    }

    /// The bus the peripheral is connected to.
    pub fn get_bus(self) -> (r: ApbBus)
        ensures
            r == self.entry().0,
    {
        self.lookup().0
    }

    /// The index of the peripheral's bit in its bus's control registers.
    pub fn get_bit_index(self) -> (r: u32)
        ensures
            r == self.entry().1,
    {
        self.lookup().1
    }

    /// Whether the peripheral can be reset through the RCC.
    pub fn has_rst(self) -> (r: bool)
        ensures
            r == self.entry().2,
    {
        self.lookup().2
    }

    /// Whether the peripheral's clock can be switched on and off.
    pub fn has_enr(self) -> (r: bool)
        ensures
            r == self.entry().3,
    {
        self.lookup().3
    }

    /// Whether the peripheral's clock in low-power mode can be controlled.
    pub fn has_lpenr(self) -> (r: bool)
        ensures
            r == self.entry().4,
    {
        self.lookup().4
    }
}

impl AhbPeripheral {
    /// Where the peripheral's clock-enable bit is: the index of its bus's
    /// enable register in `ahb_enr`, and the mask of the bit in it.  Only a
    /// peripheral whose clock has an enable bit has one.
    pub fn enable_bit(self) -> (r: (usize, u32))
        requires
            self.entry().3,
        ensures
            r.0 == self.entry().0.bits_of(),
            r.0 < 3,
            r.1 == 1u32 << self.entry().1,
    {
        let bus = self.get_bus().into_bits() as usize;
        let bit = self.get_bit_index();
        (bus, 1u32 << bit)
    }
}

impl PeripheralName for AhbPeripheral {
    open spec fn clock_controllable(self) -> bool {
        self.entry().3
    }

    open spec fn clock_spec(self, speeds: ClockSpeeds) -> u64 {
        speeds.ahb
    }

    open spec fn clock_enabled(self, before: Rcc, after: Rcc) -> bool {
        one_enable_bit_set(before.reg, after.reg, true, self.entry().0.bits_of() as int, self.entry().1)
    }

    fn enable_clock(self, rcc: &mut Rcc) {
        let (bus, mask) = self.enable_bit();
        rcc.reg.ahb_enr[bus].atomic_or(mask)
    }

    fn get_clock(self, speeds: &ClockSpeeds) -> (r: u64) {
        speeds.ahb
    }
}

impl ApbPeripheral {
    /// Where the peripheral's clock-enable bit is: the index of its bus's
    /// enable register in `apb_enr`, and the mask of the bit in it.  Only a
    /// peripheral whose clock has an enable bit has one.
    pub fn enable_bit(self) -> (r: (usize, u32))
        requires
            self.entry().3,
        ensures
            r.0 == self.entry().0.bits_of(),
            r.0 < 2,
            r.1 == 1u32 << self.entry().1,
    {
        let bus = self.get_bus().into_bits() as usize;
        let bit = self.get_bit_index();
        (bus, 1u32 << bit)
    }
}

impl PeripheralName for ApbPeripheral {
    open spec fn clock_controllable(self) -> bool {
        self.entry().3
    }

    open spec fn clock_spec(self, speeds: ClockSpeeds) -> u64 {
        match self.entry().0 {
            ApbBus::Apb1 => speeds.apb1,
            ApbBus::Apb2 => speeds.apb2,
        }
    }

    open spec fn clock_enabled(self, before: Rcc, after: Rcc) -> bool {
        one_enable_bit_set(before.reg, after.reg, false, self.entry().0.bits_of() as int, self.entry().1)
    }

    fn enable_clock(self, rcc: &mut Rcc) {
        let (bus, mask) = self.enable_bit();
        rcc.reg.apb_enr[bus].atomic_or(mask)
    }

    fn get_clock(self, speeds: &ClockSpeeds) -> (r: u64) {
        match self.get_bus() {
            ApbBus::Apb1 => speeds.apb1,
            ApbBus::Apb2 => speeds.apb2,
        }
    }
}

} // verus!
