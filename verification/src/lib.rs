//! A hardware abstraction layer for a two-channel 12-bit digital-to-analog
//! converter peripheral.
//!
//! The crate binds physical output pins to converter channels at compile
//! time, performs the one-time bring-up sequence of the peripheral, and
//! exposes a typed enable / set / get interface for output values.  The
//! memory-mapped register block is represented by an explicitly passed
//! context object, so that exclusive access to the registers is visible in
//! every signature and every register effect can be stated bit-exactly.

pub mod dac;
pub mod laws;
pub mod regs;

pub use regs::BringUpStep;
pub use regs::DacRegs;
pub use regs::Rcc;
