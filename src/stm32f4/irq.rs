//! Interrupt support for the STM32F4: its interrupt numbers and priority
//! levels, and operations of the NVIC in those terms.
use vstd::prelude::*;

verus! {

use crate::arm_m::nvic::{bank_written, Nvic};
use crate::bits::{lemma_small_masks, BadBits, BitsResult, FromBits, FromBitsTotal, IntoBits};

/// Enumeration of the STM32F4 interrupts.  This names an interrupt vector,
/// like an integer, but without the risk of receiving out-of-range values.
#[derive(Clone, Copy, Debug, PartialEq, Eq, Structural)]
pub enum Interrupt {
    Wwdg,
    Pvd,
    TampStamp,
    RtcWkup,
    Flash,
    Rcc,
    Exti0,
    Exti1,
    Exti2,
    Exti3,
    Exti4,
    Dma1Stream0,
    Dma1Stream1,
    Dma1Stream2,
    Dma1Stream3,
    Dma1Stream4,
    Dma1Stream5,
    Dma1Stream6,
    Adc,
    Can1Tx,
    Can1Rx0,
    Can1Rx1,
    Can1Sce,
    Exti95,
    Tim1BrkTim9,
    Tim1UpTim10,
    Tim1TrgComTim11,
    Tim1Cc,
    Tim2,
    Tim3,
    Tim4,
    I2c1Ev,
    I2c1Er,
    I2c2Ev,
    I2c2Er,
    Spi1,
    Spi2,
    Usart1,
    Usart2,
    Usart3,
    Exti1510,
    RtcAlarm,
    OtgFsWkup,
    Tim8BrkTim12,
    Tim8UpTim13,
    Tim8TrgComTim14,
    Tim8Cc,
    Dma1Stream7,
    Fsmc,
    Sdio,
    Tim5,
    Spi3,
    Uart4,
    Uart5,
    Tim6Dac,
    Tim7,
    Dma2Stream0,
    Dma2Stream1,
    Dma2Stream2,
    Dma2Stream3,
    Dma2Stream4,
    Eth,
    EthWkup,
    Can2Tx,
    Can2Rx0,
    Can2Rx1,
    Can2Sce,
    OtgFs,
    Dma2Stream5,
    Dma2Stream6,
    Dma2Stream7,
    Usart6,
    I2c3Ev,
    I2c3Er,
    OtgHsEp1Out,
    OtgHsEp1In,
    OtgHsWkup,
    OtgHs,
    Dcmi,
    Cryp,
    HashRng,
    Fpu,
    Uart7,
    Uart8,
    Spi4,
    Spi5,
    Spi6,
    Sai1,
    Ltdc,
    LtdcEr,
    Dma2d,
}

impl IntoBits for Interrupt {
    open spec fn bits_of(self) -> u32 {
        match self {
            Interrupt::Wwdg => 0,
            Interrupt::Pvd => 1,
            Interrupt::TampStamp => 2,
            Interrupt::RtcWkup => 3,
            Interrupt::Flash => 4,
            Interrupt::Rcc => 5,
            Interrupt::Exti0 => 6,
            Interrupt::Exti1 => 7,
            Interrupt::Exti2 => 8,
            Interrupt::Exti3 => 9,
            Interrupt::Exti4 => 10,
            Interrupt::Dma1Stream0 => 11,
            Interrupt::Dma1Stream1 => 12,
            Interrupt::Dma1Stream2 => 13,
            Interrupt::Dma1Stream3 => 14,
            Interrupt::Dma1Stream4 => 15,
            Interrupt::Dma1Stream5 => 16,
            Interrupt::Dma1Stream6 => 17,
            Interrupt::Adc => 18,
            Interrupt::Can1Tx => 19,
            Interrupt::Can1Rx0 => 20,
            Interrupt::Can1Rx1 => 21,
            Interrupt::Can1Sce => 22,
            Interrupt::Exti95 => 23,
            Interrupt::Tim1BrkTim9 => 24,
            Interrupt::Tim1UpTim10 => 25,
            Interrupt::Tim1TrgComTim11 => 26,
            Interrupt::Tim1Cc => 27,
            Interrupt::Tim2 => 28,
            Interrupt::Tim3 => 29,
            Interrupt::Tim4 => 30,
            Interrupt::I2c1Ev => 31,
            Interrupt::I2c1Er => 32,
            Interrupt::I2c2Ev => 33,
            Interrupt::I2c2Er => 34,
            Interrupt::Spi1 => 35,
            Interrupt::Spi2 => 36,
            Interrupt::Usart1 => 37,
            Interrupt::Usart2 => 38,
            Interrupt::Usart3 => 39,
            Interrupt::Exti1510 => 40,
            Interrupt::RtcAlarm => 41,
            Interrupt::OtgFsWkup => 42,
            Interrupt::Tim8BrkTim12 => 43,
            Interrupt::Tim8UpTim13 => 44,
            Interrupt::Tim8TrgComTim14 => 45,
            Interrupt::Tim8Cc => 46,
            Interrupt::Dma1Stream7 => 47,
            Interrupt::Fsmc => 48,
            Interrupt::Sdio => 49,
            Interrupt::Tim5 => 50,
            Interrupt::Spi3 => 51,
            Interrupt::Uart4 => 52,
            Interrupt::Uart5 => 53,
            Interrupt::Tim6Dac => 54,
            Interrupt::Tim7 => 55,
            Interrupt::Dma2Stream0 => 56,
            Interrupt::Dma2Stream1 => 57,
            Interrupt::Dma2Stream2 => 58,
            Interrupt::Dma2Stream3 => 59,
            Interrupt::Dma2Stream4 => 60,
            Interrupt::Eth => 61,
            Interrupt::EthWkup => 62,
            Interrupt::Can2Tx => 63,
            Interrupt::Can2Rx0 => 64,
            Interrupt::Can2Rx1 => 65,
            Interrupt::Can2Sce => 66,
            Interrupt::OtgFs => 67,
            Interrupt::Dma2Stream5 => 68,
            Interrupt::Dma2Stream6 => 69,
            Interrupt::Dma2Stream7 => 70,
            Interrupt::Usart6 => 71,
            Interrupt::I2c3Ev => 72,
            Interrupt::I2c3Er => 73,
            Interrupt::OtgHsEp1Out => 74,
            Interrupt::OtgHsEp1In => 75,
            Interrupt::OtgHsWkup => 76,
            Interrupt::OtgHs => 77,
            Interrupt::Dcmi => 78,
            Interrupt::Cryp => 79,
            Interrupt::HashRng => 80,
            Interrupt::Fpu => 81,
            Interrupt::Uart7 => 82,
            Interrupt::Uart8 => 83,
            Interrupt::Spi4 => 84,
            Interrupt::Spi5 => 85,
            Interrupt::Spi6 => 86,
            Interrupt::Sai1 => 87,
            Interrupt::Ltdc => 88,
            Interrupt::LtdcEr => 89,
            Interrupt::Dma2d => 90,
        }
    }

    fn into_bits(self) -> u32 {
        match self {
            Interrupt::Wwdg => 0,
            Interrupt::Pvd => 1,
            Interrupt::TampStamp => 2,
            Interrupt::RtcWkup => 3,
            Interrupt::Flash => 4,
            Interrupt::Rcc => 5,
            Interrupt::Exti0 => 6,
            Interrupt::Exti1 => 7,
            Interrupt::Exti2 => 8,
            Interrupt::Exti3 => 9,
            Interrupt::Exti4 => 10,
            Interrupt::Dma1Stream0 => 11,
            Interrupt::Dma1Stream1 => 12,
            Interrupt::Dma1Stream2 => 13,
            Interrupt::Dma1Stream3 => 14,
            Interrupt::Dma1Stream4 => 15,
            Interrupt::Dma1Stream5 => 16,
            Interrupt::Dma1Stream6 => 17,
            Interrupt::Adc => 18,
            Interrupt::Can1Tx => 19,
            Interrupt::Can1Rx0 => 20,
            Interrupt::Can1Rx1 => 21,
            Interrupt::Can1Sce => 22,
            Interrupt::Exti95 => 23,
            Interrupt::Tim1BrkTim9 => 24,
            Interrupt::Tim1UpTim10 => 25,
            Interrupt::Tim1TrgComTim11 => 26,
            Interrupt::Tim1Cc => 27,
            Interrupt::Tim2 => 28,
            Interrupt::Tim3 => 29,
            Interrupt::Tim4 => 30,
            Interrupt::I2c1Ev => 31,
            Interrupt::I2c1Er => 32,
            Interrupt::I2c2Ev => 33,
            Interrupt::I2c2Er => 34,
            Interrupt::Spi1 => 35,
            Interrupt::Spi2 => 36,
            Interrupt::Usart1 => 37,
            Interrupt::Usart2 => 38,
            Interrupt::Usart3 => 39,
            Interrupt::Exti1510 => 40,
            Interrupt::RtcAlarm => 41,
            Interrupt::OtgFsWkup => 42,
            Interrupt::Tim8BrkTim12 => 43,
            Interrupt::Tim8UpTim13 => 44,
            Interrupt::Tim8TrgComTim14 => 45,
            Interrupt::Tim8Cc => 46,
            Interrupt::Dma1Stream7 => 47,
            Interrupt::Fsmc => 48,
            Interrupt::Sdio => 49,
            Interrupt::Tim5 => 50,
            Interrupt::Spi3 => 51,
            Interrupt::Uart4 => 52,
            Interrupt::Uart5 => 53,
            Interrupt::Tim6Dac => 54,
            Interrupt::Tim7 => 55,
            Interrupt::Dma2Stream0 => 56,
            Interrupt::Dma2Stream1 => 57,
            Interrupt::Dma2Stream2 => 58,
            Interrupt::Dma2Stream3 => 59,
            Interrupt::Dma2Stream4 => 60,
            Interrupt::Eth => 61,
            Interrupt::EthWkup => 62,
            Interrupt::Can2Tx => 63,
            Interrupt::Can2Rx0 => 64,
            Interrupt::Can2Rx1 => 65,
            Interrupt::Can2Sce => 66,
            Interrupt::OtgFs => 67,
            Interrupt::Dma2Stream5 => 68,
            Interrupt::Dma2Stream6 => 69,
            Interrupt::Dma2Stream7 => 70,
            Interrupt::Usart6 => 71,
            Interrupt::I2c3Ev => 72,
            Interrupt::I2c3Er => 73,
            Interrupt::OtgHsEp1Out => 74,
            Interrupt::OtgHsEp1In => 75,
            Interrupt::OtgHsWkup => 76,
            Interrupt::OtgHs => 77,
            Interrupt::Dcmi => 78,
            Interrupt::Cryp => 79,
            Interrupt::HashRng => 80,
            Interrupt::Fpu => 81,
            Interrupt::Uart7 => 82,
            Interrupt::Uart8 => 83,
            Interrupt::Spi4 => 84,
            Interrupt::Spi5 => 85,
            Interrupt::Spi6 => 86,
            Interrupt::Sai1 => 87,
            Interrupt::Ltdc => 88,
            Interrupt::LtdcEr => 89,
            Interrupt::Dma2d => 90,
        }
    }
}


/// The STM32F4 interrupt priority levels.  The STM32F4 implements four bits
/// of priority, or 16 levels, held in the top half of each priority byte.
#[derive(Clone, Copy, Debug, PartialEq, Eq, Structural)]
pub enum Priority {
    P0,
    P1,
    P2,
    P3,
    P4,
    P5,
    P6,
    P7,
    P8,
    P9,
    P10,
    P11,
    P12,
    P13,
    P14,
    P15,
}

impl IntoBits for Priority {
    open spec fn bits_of(self) -> u32 {
        match self {
            Priority::P0 => 0,
            Priority::P1 => 1,
            Priority::P2 => 2,
            Priority::P3 => 3,
            Priority::P4 => 4,
            Priority::P5 => 5,
            Priority::P6 => 6,
            Priority::P7 => 7,
            Priority::P8 => 8,
            Priority::P9 => 9,
            Priority::P10 => 10,
            Priority::P11 => 11,
            Priority::P12 => 12,
            Priority::P13 => 13,
            Priority::P14 => 14,
            Priority::P15 => 15,
        }
    }

    fn into_bits(self) -> u32 {
        match self {
            Priority::P0 => 0,
            Priority::P1 => 1,
            Priority::P2 => 2,
            Priority::P3 => 3,
            Priority::P4 => 4,
            Priority::P5 => 5,
            Priority::P6 => 6,
            Priority::P7 => 7,
            Priority::P8 => 8,
            Priority::P9 => 9,
            Priority::P10 => 10,
            Priority::P11 => 11,
            Priority::P12 => 12,
            Priority::P13 => 13,
            Priority::P14 => 14,
            Priority::P15 => 15,
        }
    }
}

impl FromBits for Priority {
    open spec fn valid_bits(bits: u32) -> bool {
        bits < 16
    }

    fn from_bits(bits: u32) -> (r: BitsResult<Self>) {
        match bits {
            0 => Ok(Priority::P0),
            1 => Ok(Priority::P1),
            2 => Ok(Priority::P2),
            3 => Ok(Priority::P3),
            4 => Ok(Priority::P4),
            5 => Ok(Priority::P5),
            6 => Ok(Priority::P6),
            7 => Ok(Priority::P7),
            8 => Ok(Priority::P8),
            9 => Ok(Priority::P9),
            10 => Ok(Priority::P10),
            11 => Ok(Priority::P11),
            12 => Ok(Priority::P12),
            13 => Ok(Priority::P13),
            14 => Ok(Priority::P14),
            15 => Ok(Priority::P15),
            _ => Err(BadBits(bits)),
        }
    }
}

impl FromBitsTotal for Priority {
    open spec fn total_width() -> u32 {
        4
    }

    fn from_bits_total(bits: u32) -> (r: Self) {
        proof {
            lemma_small_masks();
        }
        match bits {
            0 => Priority::P0,
            1 => Priority::P1,
            2 => Priority::P2,
            3 => Priority::P3,
            4 => Priority::P4,
            5 => Priority::P5,
            6 => Priority::P6,
            7 => Priority::P7,
            8 => Priority::P8,
            9 => Priority::P9,
            10 => Priority::P10,
            11 => Priority::P11,
            12 => Priority::P12,
            13 => Priority::P13,
            14 => Priority::P14,
            _ => Priority::P15,
        }
    }
}

/// Where the STM32F4's four priority bits sit in a priority byte.
pub const PRIO_SHIFT: u32 = 4;

/// Operations of the NVIC in terms of STM32F4 interrupts and priorities.
pub trait NvicExt {
    /// The priority byte of interrupt `irq`.
    spec fn priority_byte(&self, irq: Interrupt) -> u8;

    /// Whether `after` is `self` with `word` written to the bank of enable
    /// registers (`set` or clear ones) that interrupt `irq` belongs to.
    spec fn enable_written(&self, after: &Self, irq: Interrupt, set: bool) -> bool;

    /// Whether `after` is `self` with `byte` as the priority byte of
    /// interrupt `irq`, and nothing else changed.
    spec fn priority_written(&self, after: &Self, irq: Interrupt, byte: u8) -> bool;

    /// Enables interrupt `irq`.
    fn enable_irq(&mut self, irq: Interrupt)
        ensures
            old(self).enable_written(&*final(self), irq, true),
    ;

    /// Disables interrupt `irq`.
    fn disable_irq(&mut self, irq: Interrupt)
        ensures
            old(self).enable_written(&*final(self), irq, false),
    ;

    /// Sets the priority of interrupt `irq`.
    fn set_priority(&mut self, irq: Interrupt, priority: Priority)
        ensures
            old(self).priority_written(
                &*final(self),
                irq,
                (priority.bits_of() << PRIO_SHIFT) as u8,
            ),
    ;

    /// Reads the priority of interrupt `irq`, from the top four bits of its
    /// priority byte.
    fn get_priority(&self, irq: Interrupt) -> (r: Priority)
        ensures
            r.bits_of() == (self.priority_byte(irq) >> 4u8) as u32,
    ;
}

impl NvicExt for Nvic {
    open spec fn priority_byte(&self, irq: Interrupt) -> u8 {
        self.ipr[irq.bits_of() as int].value()
    }

    open spec fn priority_written(&self, after: &Self, irq: Interrupt, byte: u8) -> bool {
        &&& after.ipr[irq.bits_of() as int].value() == byte
        &&& forall|k: int| 0 <= k < 496 && k != irq.bits_of() ==> after.ipr[k] == self.ipr[k]
        &&& *after == (Nvic { ipr: after.ipr, ..*self })
    }

    open spec fn enable_written(&self, after: &Self, irq: Interrupt, set: bool) -> bool {
        let bank = irq.bits_of() as int / 32;
        let word = 1u32 << (irq.bits_of() % 32);
        if set {
            bank_written(self.iser, after.iser, bank, word) && *after == (Nvic {
                iser: after.iser,
                ..*self
            })
        } else {
            bank_written(self.icer, after.icer, bank, word) && *after == (Nvic {
                icer: after.icer,
                ..*self
            })
        }
    }

    fn enable_irq(&mut self, irq: Interrupt) {
        self.enable_irq_raw(irq.into_bits())
    }

    fn disable_irq(&mut self, irq: Interrupt) {
        self.disable_irq_raw(irq.into_bits())
    }

    fn set_priority(&mut self, irq: Interrupt, priority: Priority) {
        let byte = (priority.into_bits() << PRIO_SHIFT) as u8;
        self.set_priority_raw(irq.into_bits(), byte)
    }

    fn get_priority(&self, irq: Interrupt) -> (r: Priority) {
        let level = self.get_priority_raw(irq.into_bits()) >> 4u8;
        proof {
            lemma_high_nibble(self.ipr[irq.bits_of() as int].value());
            lemma_small_masks();
        }
        Priority::from_bits_total(level as u32)
    }
}

proof fn lemma_high_nibble(b: u8)
    by (bit_vector)
    ensures
        b >> 4u8 <= 15,
{
}

} // verus!
