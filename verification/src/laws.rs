//! Laws of the channel driver, stated over the same spec functions its
//! contracts use: independence of the two enable bits under arbitrary call
//! sequences, the write–latch–read round trip, and interchangeability of
//! handles of the same channel.

use vstd::prelude::*;

use crate::dac::C1;
use crate::dac::C2;
use crate::dac::DacOut;
use crate::regs::DacRegs;
use crate::regs::DATA_MASK;
use crate::regs::EN1_MASK;
use crate::regs::EN2_MASK;

verus! {

/// Identity of a converter channel, for stating laws about sequences of
/// enable calls.
pub enum Channel {
    One,
    Two,
}

/// The enable bit a call on the given channel sets.
pub open spec fn en_mask_of(c: Channel) -> u32 {
    match c {
        Channel::One => EN1_MASK,
        Channel::Two => EN2_MASK,
    }
}

/// The control register left by a sequence of enable calls, starting from
/// `cr0`: each call ORs its channel's mask into the register, which is
/// exactly what `DacPin::enable` ensures of one call.
pub open spec fn cr_after_enables(cr0: u32, calls: Seq<Channel>) -> u32
    decreases calls.len(),
{
    if calls.len() == 0 {
        cr0
    } else {
        cr_after_enables(cr0 | en_mask_of(calls[0]), calls.drop_first())
    }
}

/// The OR of the enable masks of a sequence of calls.
pub open spec fn or_of(calls: Seq<Channel>) -> u32
    decreases calls.len(),
{
    if calls.len() == 0 {
        0u32
    } else {
        en_mask_of(calls[0]) | or_of(calls.drop_first())
    }
}

/// A sequence of enable calls ORs all its masks into the register at once:
/// the register a sequence leaves depends only on the set of masks it
/// mentions, not on their order or multiplicity.
pub proof fn lemma_cr_after_enables_is_or(cr0: u32, calls: Seq<Channel>)
    ensures
        cr_after_enables(cr0, calls) == cr0 | or_of(calls),
    decreases calls.len(),
{
    if calls.len() == 0 {
        let r = cr_after_enables(cr0, calls);
        assert(cr0 | 0u32 == cr0) by (bit_vector);
    } else {
        let m: u32 = en_mask_of(calls[0]);
        let rest: u32 = or_of(calls.drop_first());
        lemma_cr_after_enables_is_or(cr0 | m, calls.drop_first());
        assert((cr0 | m) | rest == cr0 | (m | rest)) by (bit_vector);
    }
}

/// Every mask a call sequence mentions lies within the two enable bits.
proof fn lemma_or_of_bounded(calls: Seq<Channel>)
    ensures
        or_of(calls) | (EN1_MASK | EN2_MASK) == EN1_MASK | EN2_MASK,
    decreases calls.len(),
{
    if calls.len() == 0 {
        assert(0u32 | (EN1_MASK | EN2_MASK) == EN1_MASK | EN2_MASK) by (bit_vector);
    } else {
        let m: u32 = en_mask_of(calls[0]);
        let rest: u32 = or_of(calls.drop_first());
        lemma_or_of_bounded(calls.drop_first());
        assert(m == EN1_MASK || m == EN2_MASK);
        assert((rest | (EN1_MASK | EN2_MASK) == EN1_MASK | EN2_MASK && (m == EN1_MASK || m
            == EN2_MASK)) ==> (m | rest) | (EN1_MASK | EN2_MASK) == EN1_MASK | EN2_MASK)
            by (bit_vector);
    }
}

/// The mask of any channel a call sequence mentions is contained in the OR
/// of the sequence's masks.
proof fn lemma_or_of_contains(calls: Seq<Channel>, c: Channel)
    requires
        calls.contains(c),
    ensures
        or_of(calls) | en_mask_of(c) == or_of(calls),
    decreases calls.len(),
{
    let m: u32 = en_mask_of(calls[0]);
    let mc: u32 = en_mask_of(c);
    let rest: u32 = or_of(calls.drop_first());
    if calls[0] == c {
        assert((m | rest) | m == m | rest) by (bit_vector);
    } else {
        let i: int = choose|i: int| 0 <= i < calls.len() && calls[i] == c;
        assert(calls.drop_first()[i - 1] == c);
        assert(calls.drop_first().contains(c));
        lemma_or_of_contains(calls.drop_first(), c);
        assert(rest | mc == rest ==> (m | rest) | mc == m | rest) by (bit_vector);
    }
}

/// Law: the two enable bits are independent.  Every sequence of enable calls
/// that mentions both channels — in whatever order, with whatever
/// repetitions — leaves the control register at its starting value with
/// exactly the two enable masks ORed in; from the all-zero register after
/// bring-up, that is the OR of the two masks alone.
pub proof fn lemma_enable_order_irrelevant(cr0: u32, calls: Seq<Channel>)
    requires
        calls.contains(Channel::One),
        calls.contains(Channel::Two),
    ensures
        cr_after_enables(cr0, calls) == cr0 | (EN1_MASK | EN2_MASK),
        cr_after_enables(0u32, calls) == EN1_MASK | EN2_MASK,
{
    lemma_cr_after_enables_is_or(cr0, calls);
    lemma_cr_after_enables_is_or(0u32, calls);
    lemma_or_of_bounded(calls);
    lemma_or_of_contains(calls, Channel::One);
    lemma_or_of_contains(calls, Channel::Two);
    let r: u32 = or_of(calls);
    assert((r | (EN1_MASK | EN2_MASK) == EN1_MASK | EN2_MASK && r | EN1_MASK == r && r
        | EN2_MASK == r) ==> r == EN1_MASK | EN2_MASK) by (bit_vector);
    assert(cr0 | r == cr0 | (EN1_MASK | EN2_MASK));
    assert(0u32 | r == r) by (bit_vector);
}

/// Law: enabling one channel leaves the other channel's enable bit exactly
/// as it was, and enabling a channel twice is the same as enabling it once.
pub proof fn lemma_enable_leaves_other_bit(cr: u32)
    ensures
        (cr | EN1_MASK) & EN2_MASK == cr & EN2_MASK,
        (cr | EN2_MASK) & EN1_MASK == cr & EN1_MASK,
        (cr | EN1_MASK) | EN1_MASK == cr | EN1_MASK,
        (cr | EN2_MASK) | EN2_MASK == cr | EN2_MASK,
{
    assert((cr | EN1_MASK) & EN2_MASK == cr & EN2_MASK) by (bit_vector);
    assert((cr | EN2_MASK) & EN1_MASK == cr & EN1_MASK) by (bit_vector);
    assert((cr | EN1_MASK) | EN1_MASK == cr | EN1_MASK) by (bit_vector);
    assert((cr | EN2_MASK) | EN2_MASK == cr | EN2_MASK) by (bit_vector);
}

/// Law: after `set_value(v)` on channel 1 and the converter's latch, reading
/// channel 1 back yields `v` truncated to the 12-bit register width; a value
/// already within 12 bits comes back unchanged.  This holds from any
/// starting state of the block.
pub proof fn lemma_value_round_trip_c1(c: C1, regs: DacRegs, v: u16)
    ensures
        c.decode(c.dor(c.with_dhr(regs, c.encode(v)).latched())) == (v & 0x0FFF),
        v <= 0x0FFF ==> c.decode(c.dor(c.with_dhr(regs, c.encode(v)).latched())) == v,
{
    assert((((v as u32) & DATA_MASK) as u16) == (v & 0x0FFF)) by (bit_vector);
    assert(v <= 0x0FFF ==> (v & 0x0FFF) == v) by (bit_vector);
}

/// Law: the write–latch–read round trip of channel 2, exactly as for
/// channel 1.
pub proof fn lemma_value_round_trip_c2(c: C2, regs: DacRegs, v: u16)
    ensures
        c.decode(c.dor(c.with_dhr(regs, c.encode(v)).latched())) == (v & 0x0FFF),
        v <= 0x0FFF ==> c.decode(c.dor(c.with_dhr(regs, c.encode(v)).latched())) == v,
{
    assert((((v as u32) & DATA_MASK) as u16) == (v & 0x0FFF)) by (bit_vector);
    assert(v <= 0x0FFF ==> (v & 0x0FFF) == v) by (bit_vector);
}

/// Law: a channel handle carries no state, so any two handles of the same
/// channel are equal.  In particular, the channel-1 handle from binding
/// pin A alone and the channel-1 handle from binding both pins are the same
/// value, and every operation behaves identically on them.
pub proof fn lemma_channel_handles_interchangeable(a: C1, b: C1, x: C2, y: C2)
    ensures
        a == b,
        x == y,
{
    assert(a =~= b);
    assert(x =~= y);
}

} // verus!
