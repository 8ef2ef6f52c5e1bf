//! ARMv7-M processor support: registers, the SysTick timer, the System
//! Control Block and the interrupt controller.
pub mod nvic;
pub mod reg;
pub mod scb;
pub mod sys_tick;
