//! Typed access to the registers of ARM Cortex-M (STM32F4) peripherals, with
//! the clock-tree reconfiguration algorithm of the STM32F4 RCC.
//!
//! Registers are modelled as the values they hold: a register value type wraps
//! the raw word and offers typed accessors over its packed fields, and a
//! peripheral is the block of registers it owns.
pub mod arm_m;
pub mod bits;
pub mod stm32f4;
