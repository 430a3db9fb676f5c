use dac_hal::dac::dac;
use dac_hal::dac::Analog;
use dac_hal::dac::Dac;
use dac_hal::dac::DacExt;
use dac_hal::dac::DacOut;
use dac_hal::dac::DacPin;
use dac_hal::dac::Error;
use dac_hal::dac::C1;
use dac_hal::dac::C2;
use dac_hal::dac::PA4;
use dac_hal::dac::PA5;
use dac_hal::regs::BringUpStep;
use dac_hal::regs::DacRegs;
use dac_hal::regs::Rcc;

const DACEN: u32 = 0x2000_0000;
const EN1: u32 = 0x0000_0001;
const EN2: u32 = 0x0001_0000;

fn expected_sequence() -> Vec<BringUpStep> {
    vec![
        BringUpStep::ClockEnable,
        BringUpStep::Barrier,
        BringUpStep::ResetAssert,
        BringUpStep::ResetClear,
    ]
}

#[test]
fn bring_up_single_pin_observes_exact_sequence() {
    let mut rcc = Rcc::new();
    let _c1: C1 = dac(Dac, &mut rcc, PA4::analog());
    assert_eq!(rcc.trace, expected_sequence());
    assert_eq!(rcc.apb1enr, DACEN);
    assert_eq!(rcc.apb1rstr, 0);
}

#[test]
fn bring_up_dual_pin_observes_exact_sequence() {
    let mut rcc = Rcc::new();
    let (_c1, _c2): (C1, C2) = dac(Dac, &mut rcc, (PA4::analog(), PA5::analog()));
    assert_eq!(rcc.trace, expected_sequence());
    assert_eq!(rcc.apb1enr, DACEN);
    assert_eq!(rcc.apb1rstr, 0);
}

#[test]
fn bring_up_pin_b_alone_binds_channel2() {
    let mut rcc = Rcc::new();
    let mut c2: C2 = dac(Dac, &mut rcc, PA5::analog());
    let mut regs = DacRegs::new();
    c2.enable(&mut regs);
    assert_eq!(regs.cr, EN2);
}

#[test]
fn constrain_behaves_as_free_function() {
    let mut rcc = Rcc::new();
    let _c1: C1 = Dac.constrain(&mut rcc, PA4::analog());
    assert_eq!(rcc.trace, expected_sequence());
    assert_eq!(rcc.apb1enr, DACEN);
    assert_eq!(rcc.apb1rstr, 0);
}

#[test]
fn clock_enable_preserves_other_enable_bits() {
    let mut rcc = Rcc {
        apb1enr: 0x0000_0005,
        apb1rstr: 0,
        trace: Vec::new(),
    };
    let _c1: C1 = dac(Dac, &mut rcc, PA4::analog());
    assert_eq!(rcc.apb1enr, 0x0000_0005 | DACEN);
}

#[test]
fn enable_channel1_sets_only_its_bit() {
    let mut regs = DacRegs::new();
    let mut c1 = C1;
    c1.enable(&mut regs);
    assert_eq!(regs.cr, EN1);
    assert_eq!(regs.dhr12r1, 0);
    assert_eq!(regs.dhr12r2, 0);
    assert_eq!(regs.dor1, 0);
    assert_eq!(regs.dor2, 0);
}

#[test]
fn enable_order_does_not_matter() {
    let mut first = DacRegs::new();
    let mut second = DacRegs::new();
    let mut c1 = C1;
    let mut c2 = C2;

    c1.enable(&mut first);
    c2.enable(&mut first);

    c2.enable(&mut second);
    c1.enable(&mut second);

    assert_eq!(first.cr, EN1 | EN2);
    assert_eq!(second.cr, EN1 | EN2);
}

#[test]
fn enable_twice_equals_enable_once() {
    let mut regs = DacRegs::new();
    let mut c1 = C1;
    c1.enable(&mut regs);
    c1.enable(&mut regs);
    assert_eq!(regs.cr, EN1);
}

#[test]
fn enable_channel2_leaves_channel1_bit() {
    let mut regs = DacRegs::new();
    let mut c1 = C1;
    let mut c2 = C2;
    c1.enable(&mut regs);
    c2.enable(&mut regs);
    assert_eq!(regs.cr & EN1, EN1);
    assert_eq!(regs.cr & EN2, EN2);
}

#[test]
fn set_latch_get_round_trips_in_range_values() {
    for v in [0u16, 1u16, 0x0FFF_u16] {
        let mut regs = DacRegs::new();
        let mut c1 = C1;
        let mut c2 = C2;

        c1.set_value(&mut regs, v);
        regs.latch();
        assert_eq!(c1.get_value(&regs), v);

        c2.set_value(&mut regs, v);
        regs.latch();
        assert_eq!(c2.get_value(&regs), v);
    }
}

#[test]
fn set_latch_get_truncates_to_twelve_bits() {
    let mut regs = DacRegs::new();
    let mut c1 = C1;
    let mut c2 = C2;

    c1.set_value(&mut regs, 0xFFFF);
    c2.set_value(&mut regs, 0xABCD);
    regs.latch();
    assert_eq!(c1.get_value(&regs), 0x0FFF);
    assert_eq!(c2.get_value(&regs), 0x0BCD);
}

#[test]
fn get_reads_last_latched_not_last_written() {
    let mut regs = DacRegs::new();
    let mut c1 = C1;

    c1.set_value(&mut regs, 5);
    regs.latch();
    c1.set_value(&mut regs, 9);
    assert_eq!(c1.get_value(&regs), 5);
    regs.latch();
    assert_eq!(c1.get_value(&regs), 9);
}

#[test]
fn set_value_touches_only_own_channel() {
    let mut regs = DacRegs::new();
    let mut c1 = C1;
    let mut c2 = C2;

    c1.set_value(&mut regs, 0x123);
    c2.set_value(&mut regs, 0x456);
    assert_eq!(regs.dhr12r1, 0x123);
    assert_eq!(regs.dhr12r2, 0x456);
    assert_eq!(regs.cr, 0);
    assert_eq!(regs.dor1, 0);
    assert_eq!(regs.dor2, 0);
}

#[test]
fn channel_handles_are_zero_size() {
    assert_eq!(core::mem::size_of::<C1>(), 0);
    assert_eq!(core::mem::size_of::<C2>(), 0);
    assert_eq!(core::mem::size_of::<(C1, C2)>(), 0);
    assert_eq!(core::mem::size_of::<PA4<Analog>>(), 0);
    assert_eq!(core::mem::size_of::<PA5<Analog>>(), 0);
    assert_eq!(core::mem::size_of::<Dac>(), 0);
}

#[test]
fn single_and_dual_binding_give_equivalent_channel1() {
    let mut rcc_single = Rcc::new();
    let mut c1_single: C1 = dac(Dac, &mut rcc_single, PA4::analog());

    let mut rcc_dual = Rcc::new();
    let (mut c1_dual, _c2): (C1, C2) = dac(Dac, &mut rcc_dual, (PA4::analog(), PA5::analog()));

    assert_eq!(rcc_single.trace, rcc_dual.trace);
    assert_eq!(rcc_single.apb1enr, rcc_dual.apb1enr);
    assert_eq!(rcc_single.apb1rstr, rcc_dual.apb1rstr);

    let mut regs_single = DacRegs::new();
    let mut regs_dual = DacRegs::new();

    c1_single.enable(&mut regs_single);
    c1_single.set_value(&mut regs_single, 0x234);
    regs_single.latch();

    c1_dual.enable(&mut regs_dual);
    c1_dual.set_value(&mut regs_dual, 0x234);
    regs_dual.latch();

    assert_eq!(regs_single.cr, regs_dual.cr);
    assert_eq!(regs_single.dhr12r1, regs_dual.dhr12r1);
    assert_eq!(regs_single.dhr12r2, regs_dual.dhr12r2);
    assert_eq!(regs_single.dor1, regs_dual.dor1);
    assert_eq!(regs_single.dor2, regs_dual.dor2);
    assert_eq!(c1_single.get_value(&regs_single), c1_dual.get_value(&regs_dual));
}

#[test]
fn error_variant_is_debug_printable() {
    assert_eq!(format!("{:?}", Error::error), "error");
}
