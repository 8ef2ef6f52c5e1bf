//! Support for the STM32F4 series of SoCs.
pub mod dma;
pub mod flash;
pub mod gpio;
pub mod irq;
pub mod rcc;
pub mod usart;
