//! Pin-to-channel binding and the channel driver of the converter.
//!
//! A pin capability token ([`PA4`] or [`PA5`] in analog mode) witnesses that
//! its physical pin is configured for analog use.  The [`Pins`] relation maps
//! each eligible token, or the pair of both, to the channel handle type it
//! may be bound to; only the pairings the relation defines can be written at
//! all, so a wrong pairing is rejected before the program runs.  The
//! bring-up operation [`dac`] consumes the peripheral handle and the tokens,
//! runs the one-time initialization sequence against the reset-and-clock
//! controller, and returns the zero-size channel handles.  The handles then
//! drive the converter's registers through [`DacPin`] and [`DacOut`].

use vstd::prelude::*;

use crate::regs::BringUpStep;
use crate::regs::DacRegs;
use crate::regs::Rcc;
use crate::regs::DACEN_MASK;
use crate::regs::DATA_MASK;
use crate::regs::EN1_MASK;
use crate::regs::EN2_MASK;

verus! {

/// Converter errors.  The driver itself has no runtime failure path: every
/// operation is an unconditional register access.
#[allow(non_camel_case_types)]
#[derive(Debug)]
pub enum Error {
    /// general
    error,
}

/// Marker: a pin configured in analog mode.
pub struct Analog;

/// Physical pin PA4, in the electrical mode `MODE`.
pub struct PA4<MODE> {
    mode: MODE,
}

/// Physical pin PA5, in the electrical mode `MODE`.
pub struct PA5<MODE> {
    mode: MODE,
}

impl PA4<Analog> {
    /// Stands in for the pin-configuration subsystem: hands out the token
    /// witnessing that PA4 has been placed into analog mode.
    pub fn analog() -> PA4<Analog> {
        PA4 { mode: Analog }
    }
}

impl PA5<Analog> {
    /// Stands in for the pin-configuration subsystem: hands out the token
    /// witnessing that PA5 has been placed into analog mode.
    pub fn analog() -> PA5<Analog> {
        PA5 { mode: Analog }
    }
}

/// Exclusive ownership of the converter peripheral before bring-up.  The
/// single instance per process is consumed by [`dac`], so the bring-up
/// sequence cannot be run twice against the same ownership.
pub struct Dac;

/// Handle of converter channel 1.  Zero-size: the channel identity lives in
/// the type, not in any field.
#[verifier::ext_equal]
pub struct C1;

/// Handle of converter channel 2.
#[verifier::ext_equal]
pub struct C2;

/// The pin-to-channel binding relation, parameterized by the peripheral the
/// binding is against.  It is defined for exactly three inputs: pin A alone
/// binds channel 1, pin B alone binds channel 2, and the pair binds both
/// channels.  Any other token fails to compile when handed to [`dac`], so
/// the relation is closed without a runtime error path.
pub trait Pins<DAC> {
    /// The channel handle type (or pair of them) this token binds.
    type Output;

    /// Constructs the bound channel handles.  The handles carry no data, so
    /// construction is the plain empty-payload value of the output type.
    fn channels(self) -> Self::Output;
}

impl Pins<Dac> for PA4<Analog> {
    type Output = C1;

    fn channels(self) -> C1 {
        C1
    }
}

impl Pins<Dac> for PA5<Analog> {
    type Output = C2;

    fn channels(self) -> C2 {
        C2
    }
}

impl Pins<Dac> for (PA4<Analog>, PA5<Analog>) {
    type Output = (C1, C2);

    fn channels(self) -> (C1, C2) {
        (C1, C2)
    }
}

/// The bring-up actions in the one order the hardware requires: clock enable
/// first, then the barrier, then the reset toggle.
pub open spec fn bring_up_sequence() -> Seq<BringUpStep> {
    seq![
        BringUpStep::ClockEnable,
        BringUpStep::Barrier,
        BringUpStep::ResetAssert,
        BringUpStep::ResetClear,
    ]
}

/// One-time bring-up of the converter: consumes the peripheral handle and
/// the pin token(s), runs the initialization sequence against the
/// reset-and-clock controller, and returns the channel handle(s) the binding
/// relation assigns to the token(s).
///
/// The sequence sets the converter's clock-enable bit (leaving the rest of
/// that register untouched), issues the synchronization barrier, and toggles
/// the converter's reset bit high then low; afterwards the reset register is
/// wholly zero and the controller has observed exactly the four actions of
/// [`bring_up_sequence`], in order, appended to whatever it had observed
/// before.
pub fn dac<PINS: Pins<Dac>>(_dac: Dac, rcc: &mut Rcc, pins: PINS) -> (channels: PINS::Output)
    ensures
        final(rcc).apb1enr == old(rcc).apb1enr | DACEN_MASK,
        final(rcc).apb1rstr == 0u32,
        final(rcc).trace@ == old(rcc).trace@ + bring_up_sequence(),
{
    rcc.enable_dac_clock();
    rcc.barrier();
    rcc.assert_dac_reset();
    rcc.clear_dac_reset();
    proof {
        assert(rcc.trace@ =~= old(rcc).trace@ + bring_up_sequence());
    }
    pins.channels()
}

/// Extension interface on the peripheral handle: bring-up as a method.
pub trait DacExt {
    /// Binds `pins` and brings the converter up, exactly as [`dac`] does.
    fn constrain<PINS: Pins<Dac>>(self, rcc: &mut Rcc, pins: PINS) -> (channels: PINS::Output)
        ensures
            final(rcc).apb1enr == old(rcc).apb1enr | DACEN_MASK,
            final(rcc).apb1rstr == 0u32,
            final(rcc).trace@ == old(rcc).trace@ + bring_up_sequence(),
    ;
}

impl DacExt for Dac {
    fn constrain<PINS: Pins<Dac>>(self, rcc: &mut Rcc, pins: PINS) -> PINS::Output {
        dac(self, rcc, pins)
    }
}

/// Enable interface of a bound channel.
pub trait DacPin {
    /// This channel's enable bit in the shared control register.
    spec fn en_mask(&self) -> u32;

    /// Enables the channel: a read-modify-write on the shared control
    /// register that sets exactly this channel's enable bit and leaves every
    /// other bit — the other channel's enable bit included — as it was.  No
    /// other register of the block changes.
    fn enable(&mut self, dac: &mut DacRegs)
        ensures
            final(dac).cr == old(dac).cr | old(self).en_mask(),
            final(dac).dhr12r1 == old(dac).dhr12r1,
            final(dac).dhr12r2 == old(dac).dhr12r2,
            final(dac).dor1 == old(dac).dor1,
            final(dac).dor2 == old(dac).dor2,
    ;
}

impl DacPin for C1 {
    open spec fn en_mask(&self) -> u32 {
        EN1_MASK
    }

    fn enable(&mut self, dac: &mut DacRegs) {
        dac.cr = dac.cr | EN1_MASK;
    }
}

impl DacPin for C2 {
    open spec fn en_mask(&self) -> u32 {
        EN2_MASK
    }

    fn enable(&mut self, dac: &mut DacRegs) {
        dac.cr = dac.cr | EN2_MASK;
    }
}

/// Value interface of a bound channel.
pub trait DacOut<V> {
    /// The register image the hardware keeps of a written value: the
    /// holding register implements only the converter's native bit width,
    /// higher bits of the value are discarded.
    spec fn encode(&self, val: V) -> u32;

    /// The value read back from a register image.
    spec fn decode(&self, bits: u32) -> V;

    /// This channel's output data register within the block.
    spec fn dor(&self, regs: DacRegs) -> u32;

    /// The block after a write of `bits` to this channel's data-holding
    /// register: only that register changes.
    spec fn with_dhr(&self, regs: DacRegs, bits: u32) -> DacRegs;

    /// Writes `val` into this channel's data-holding register.  The whole
    /// effect on the block is `with_dhr` of the encoded value: the shared
    /// control register, both output registers and the other channel's
    /// holding register keep their values.  The converter moves the held
    /// value to the output on its own timing (modelled by
    /// [`DacRegs::latch`]); no conversion trigger is issued here.
    fn set_value(&mut self, dac: &mut DacRegs, val: V)
        ensures
            *final(dac) == old(self).with_dhr(*old(dac), old(self).encode(val)),
    ;

    /// Reads this channel's output data register — the value the converter
    /// last latched, which trails the last written value until the latch —
    /// widened back to `V`.  No register changes.
    fn get_value(&mut self, dac: &DacRegs) -> (val: V)
        ensures
            val == old(self).decode(old(self).dor(*dac)),
    ;
}

impl DacOut<u16> for C1 {
    open spec fn encode(&self, val: u16) -> u32 {
        (val as u32) & DATA_MASK
    }

    open spec fn decode(&self, bits: u32) -> u16 {
        bits as u16
    }

    open spec fn dor(&self, regs: DacRegs) -> u32 {
        regs.dor1
    }

    open spec fn with_dhr(&self, regs: DacRegs, bits: u32) -> DacRegs {
        DacRegs { dhr12r1: bits, ..regs }
    }

    fn set_value(&mut self, dac: &mut DacRegs, val: u16) {
        dac.dhr12r1 = (val as u32) & DATA_MASK;
    }

    fn get_value(&mut self, dac: &DacRegs) -> u16 {
        #[verifier::truncate]
        (dac.dor1 as u16)
    }
}

impl DacOut<u16> for C2 {
    open spec fn encode(&self, val: u16) -> u32 {
        (val as u32) & DATA_MASK
    }

    open spec fn decode(&self, bits: u32) -> u16 {
        bits as u16
    }

    open spec fn dor(&self, regs: DacRegs) -> u32 {
        regs.dor2
    }

    open spec fn with_dhr(&self, regs: DacRegs, bits: u32) -> DacRegs {
        DacRegs { dhr12r2: bits, ..regs }
    }

    fn set_value(&mut self, dac: &mut DacRegs, val: u16) {
        dac.dhr12r2 = (val as u32) & DATA_MASK;
    }

    fn get_value(&mut self, dac: &DacRegs) -> u16 {
        #[verifier::truncate]
        (dac.dor2 as u16)
    }
}

} // verus!
