//! Register-block models for the pieces of hardware the driver touches.
//!
//! Two blocks are modelled: the reset-and-clock controller (the registers the
//! bring-up sequence writes) and the converter's own block (the registers the
//! channel operations write).  Each model is an ordinary struct holding the
//! register values, passed by exclusive reference wherever the driver needs
//! it; the reset-and-clock model additionally records every bring-up action
//! it observes, so that the order of the sequence is part of its state.

use vstd::prelude::*;

verus! {

/// One action of the bring-up sequence, as observed by the
/// reset-and-clock-controller model.
#[derive(Clone, Copy, Debug, PartialEq, Eq, Structural)]
pub enum BringUpStep {
    /// The converter's clock-domain enable bit was set.
    ClockEnable,
    /// A data synchronization barrier was issued.  On the target this is a
    /// CPU instruction, not a register write; the model records it so the
    /// place of the barrier inside the sequence is observable.
    Barrier,
    /// The converter's reset bit was asserted.
    ResetAssert,
    /// The converter's reset bit was cleared.
    ResetClear,
}

/// Clock-enable bit of the converter in the peripheral-clock-enable register.
pub const DACEN_MASK: u32 = 0x2000_0000;

/// Reset bit of the converter in the peripheral-reset register.
pub const DACRST_MASK: u32 = 0x2000_0000;

/// Enable bit of channel 1 in the converter's shared control register.
pub const EN1_MASK: u32 = 0x0000_0001;

/// Enable bit of channel 2 in the converter's shared control register.
pub const EN2_MASK: u32 = 0x0001_0000;

/// The bits of a data-holding register that the hardware implements: the
/// converter has 12-bit resolution, higher bits of a written value are
/// discarded by the register itself.
pub const DATA_MASK: u32 = 0x0000_0FFF;

/// Model of the reset-and-clock controller: the two registers the bring-up
/// sequence touches, plus the trace of observed bring-up actions.
pub struct Rcc {
    /// Peripheral-clock-enable register (read-modify-write).
    pub apb1enr: u32,
    /// Peripheral-reset register (whole-register writes).
    pub apb1rstr: u32,
    /// Every bring-up action observed so far, oldest first.
    pub trace: Vec<BringUpStep>,
}

impl Rcc {
    /// A controller in its power-on state: no clock enabled, no reset
    /// asserted, nothing observed yet.
    pub fn new() -> (rcc: Rcc)
        ensures
            rcc.apb1enr == 0u32,
            rcc.apb1rstr == 0u32,
            rcc.trace@ == Seq::<BringUpStep>::empty(),
    {
        Rcc { apb1enr: 0, apb1rstr: 0, trace: Vec::new() }
    }

    /// Gates the converter's clock domain on: a read-modify-write that sets
    /// the clock-enable bit and leaves every other bit of the register as it
    /// was.
    pub fn enable_dac_clock(&mut self)
        ensures
            final(self).apb1enr == old(self).apb1enr | DACEN_MASK,
            final(self).apb1rstr == old(self).apb1rstr,
            final(self).trace@ == old(self).trace@.push(BringUpStep::ClockEnable),
    {
        self.apb1enr = self.apb1enr | DACEN_MASK;
        self.trace.push(BringUpStep::ClockEnable);
    }

    /// Records the data synchronization barrier that the driver issues
    /// between the clock enable and the reset toggle.  The barrier changes no
    /// register; on the target it stalls the pipeline so the clock-enable
    /// write has retired before the reset is issued (without it, one silicon
    /// revision can drop the reset).  The instruction itself is
    /// target-specific and lives outside this library.
    pub fn barrier(&mut self)
        ensures
            final(self).apb1enr == old(self).apb1enr,
            final(self).apb1rstr == old(self).apb1rstr,
            final(self).trace@ == old(self).trace@.push(BringUpStep::Barrier),
    {
        self.trace.push(BringUpStep::Barrier);
    }

    /// Asserts the converter's reset line: a whole-register write that sets
    /// the reset bit and writes every other bit of the register to its reset
    /// value, zero.
    pub fn assert_dac_reset(&mut self)
        ensures
            final(self).apb1enr == old(self).apb1enr,
            final(self).apb1rstr == DACRST_MASK,
            final(self).trace@ == old(self).trace@.push(BringUpStep::ResetAssert),
    {
        self.apb1rstr = DACRST_MASK;
        self.trace.push(BringUpStep::ResetAssert);
    }

    /// Releases the converter's reset line: a whole-register write that
    /// clears the reset bit and writes every other bit to zero.
    pub fn clear_dac_reset(&mut self)
        ensures
            final(self).apb1enr == old(self).apb1enr,
            final(self).apb1rstr == 0u32,
            final(self).trace@ == old(self).trace@.push(BringUpStep::ResetClear),
    {
        self.apb1rstr = 0;
        self.trace.push(BringUpStep::ResetClear);
    }
}

/// Model of the converter's own register block: the shared control register,
/// one data-holding register per channel, and one output data register per
/// channel.
pub struct DacRegs {
    /// Shared control register; holds both channels' enable bits.
    pub cr: u32,
    /// Channel-1 data-holding register, 12-bit right-aligned.
    pub dhr12r1: u32,
    /// Channel-2 data-holding register, 12-bit right-aligned.
    pub dhr12r2: u32,
    /// Channel-1 output data register: the value last latched by the
    /// converter.
    pub dor1: u32,
    /// Channel-2 output data register.
    pub dor2: u32,
}

impl DacRegs {
    /// The block in its power-on state, which the reset toggle of the
    /// bring-up sequence also restores: every register zero.
    pub fn new() -> (regs: DacRegs)
        ensures
            regs.cr == 0u32,
            regs.dhr12r1 == 0u32,
            regs.dhr12r2 == 0u32,
            regs.dor1 == 0u32,
            regs.dor2 == 0u32,
    {
        DacRegs { cr: 0, dhr12r1: 0, dhr12r2: 0, dor1: 0, dor2: 0 }
    }

    /// The block after the converter latches the held values into the output
    /// data registers.
    pub open spec fn latched(self) -> DacRegs {
        DacRegs { dor1: self.dhr12r1, dor2: self.dhr12r2, ..self }
    }

    /// Models the converter's internal transfer: after its own conversion
    /// delay, the hardware copies each channel's held value into that
    /// channel's output data register.  Software does not trigger this on the
    /// target; the model exposes it as a step so behaviour after the latch
    /// can be stated.
    pub fn latch(&mut self)
        ensures
            *final(self) == old(self).latched(),
    {
        self.dor1 = self.dhr12r1;
        self.dor2 = self.dhr12r2;
    }
}

} // verus!
