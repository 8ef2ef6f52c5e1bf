//! Support for the ARM Nested Vector Interrupt Controller, or NVIC.
//!
//! This is the interrupt controller used across all (current) M-profile
//! processors.
use vstd::prelude::*;

verus! {

use crate::arm_m::reg::Reg;

/// The NVIC's register block.
pub struct Nvic {
    /// The Interrupt Set Enable Registers have one bit for each potential
    /// interrupt source.  Writing ones enables the corresponding interrupts;
    /// others remain unchanged.
    pub iser: [Reg<u32>; 16],
    /// The Interrupt Clear Enable Registers: writing ones disables the
    /// corresponding interrupts; others remain unchanged.
    pub icer: [Reg<u32>; 16],
    /// The Interrupt Set Pending Registers.
    pub ispr: [Reg<u32>; 16],
    /// The Interrupt Clear Pending Registers.
    pub icpr: [Reg<u32>; 16],
    /// The Interrupt Active Bit Registers.
    pub iabr: [Reg<u32>; 16],
    /// The Interrupt Priority Registers: one byte per interrupt, holding its
    /// priority.  SoC vendors may leave some low bits unimplemented.
    pub ipr: [Reg<u8>; 496],
}

/// Whether `after` equals `before` but for register `bank` of the bank
/// array that both `before_regs` and `after_regs` are, which holds `word`.
pub open spec fn bank_written(before: [Reg<u32>; 16], after: [Reg<u32>; 16], bank: int, word: u32) -> bool {
    &&& after[bank].value() == word
    &&& forall|k: int| 0 <= k < 16 && k != bank ==> after[k] == before[k]
}

impl Nvic {
    /// Enables interrupt `irq`: writes its bit, alone, to its Interrupt Set
    /// Enable Register.
    pub fn enable_irq_raw(&mut self, irq: u32)
        requires
            irq < 512,
        ensures
            bank_written(old(self).iser, final(self).iser, irq as int / 32, 1u32 << (irq % 32)),
            *final(self) == (Nvic { iser: final(self).iser, ..*old(self) }),
    {
        let bank = (irq / 32) as usize;
        let index = irq % 32;
        self.iser[bank].set(1u32 << index);
    }

    /// Disables interrupt `irq`: writes its bit, alone, to its Interrupt Clear
    /// Enable Register.
    pub fn disable_irq_raw(&mut self, irq: u32)
        requires
            irq < 512,
        ensures
            bank_written(old(self).icer, final(self).icer, irq as int / 32, 1u32 << (irq % 32)),
            *final(self) == (Nvic { icer: final(self).icer, ..*old(self) }),
    {
        let bank = (irq / 32) as usize;
        let index = irq % 32;
        self.icer[bank].set(1u32 << index);
    }

    /// Sets the priority of interrupt `irq`.
    pub fn set_priority_raw(&mut self, irq: u32, priority: u8)
        requires
            irq < 496,
        ensures
            final(self).ipr[irq as int].value() == priority,
            forall|k: int| 0 <= k < 496 && k != irq ==> final(self).ipr[k] == old(self).ipr[k],
            *final(self) == (Nvic { ipr: final(self).ipr, ..*old(self) }),
    {
        self.ipr[irq as usize].set(priority);
    }

    /// Reads the priority of interrupt `irq`.
    pub fn get_priority_raw(&self, irq: u32) -> (r: u8)
        requires
            irq < 496,
        ensures
            r == self.ipr[irq as int].value(),
    {
        self.ipr[irq as usize].get()
    }
}

} // verus!
