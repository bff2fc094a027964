//! Behavioural tests for the Debug Control Block model, on simulated
//! register values chosen per case.

use dcb::dcb::debugger_attached_value;
use dcb::dcb::trace_disabled_value;
use dcb::dcb::trace_enabled_value;
use dcb::dcb::DEMCR_TRCENA;
use dcb::Peripherals;
use dcb::RegisterBlock;
use dcb::RwReg;
use dcb::Slot;
use dcb::StatusReg;
use dcb::WoReg;
use dcb::DCB;

fn take_handle(p: &mut Peripherals) -> DCB {
    p.take_dcb().expect("handle should be available")
}

fn demcr_of(d: &mut DCB) -> u32 {
    d.read_slot(Slot::ExceptionMonitor)
        .expect("Exception/Monitor Control slot is readable")
}

#[test]
fn trcena_mask_is_bit_24() {
    assert_eq!(DEMCR_TRCENA, 0x0100_0000);
}

#[test]
fn enable_trace_sets_bit_24_and_nothing_else() {
    // bit 24 initially clear, a mix of other bits set
    let mut p = Peripherals::new(0, 0, 0, 0x54AA_1234);
    let mut d = take_handle(&mut p);
    d.enable_trace();
    assert_eq!(demcr_of(&mut d), 0x55AA_1234);
}

#[test]
fn enable_trace_keeps_bit_24_when_already_set() {
    let mut p = Peripherals::new(0, 0, 0, 0xFFFF_FFFF);
    let mut d = take_handle(&mut p);
    d.enable_trace();
    assert_eq!(demcr_of(&mut d), 0xFFFF_FFFF);
}

#[test]
fn disable_trace_clears_bit_24_and_nothing_else() {
    let mut p = Peripherals::new(0, 0, 0, 0xFFFF_FFFF);
    let mut d = take_handle(&mut p);
    d.disable_trace();
    assert_eq!(demcr_of(&mut d), 0xFEFF_FFFF);
}

#[test]
fn disable_trace_keeps_bit_24_clear_when_already_clear() {
    let mut p = Peripherals::new(0, 0, 0, 0x0000_0000);
    let mut d = take_handle(&mut p);
    d.disable_trace();
    assert_eq!(demcr_of(&mut d), 0x0000_0000);
}

#[test]
fn enable_trace_is_idempotent() {
    let mut p = Peripherals::new(0, 0, 0, 0x54AA_1234);
    let mut d = take_handle(&mut p);
    d.enable_trace();
    let once = demcr_of(&mut d);
    d.enable_trace();
    let twice = demcr_of(&mut d);
    assert_eq!(once, 0x55AA_1234);
    assert_eq!(twice, once);
}

#[test]
fn disable_trace_is_idempotent() {
    let mut p = Peripherals::new(0, 0, 0, 0x55AA_1234);
    let mut d = take_handle(&mut p);
    d.disable_trace();
    let once = demcr_of(&mut d);
    d.disable_trace();
    let twice = demcr_of(&mut d);
    assert_eq!(once, 0x54AA_1234);
    assert_eq!(twice, once);
}

#[test]
fn disable_after_enable_restores_slot_when_bit_started_clear() {
    let mut p = Peripherals::new(0, 0, 0, 0x54AA_1234);
    let mut d = take_handle(&mut p);
    d.enable_trace();
    d.disable_trace();
    assert_eq!(demcr_of(&mut d), 0x54AA_1234);
}

#[test]
fn last_toggle_decides_bit_24_whatever_came_before() {
    // bit 24 initially set
    let mut p = Peripherals::new(0, 0, 0, 0x55AA_1234);
    let mut d = take_handle(&mut p);
    d.enable_trace();
    assert_eq!(demcr_of(&mut d), 0x55AA_1234);
    d.disable_trace();
    assert_eq!(demcr_of(&mut d), 0x54AA_1234);
    d.enable_trace();
    d.enable_trace();
    d.disable_trace();
    assert_eq!(demcr_of(&mut d), 0x54AA_1234);
    d.disable_trace();
    d.enable_trace();
    assert_eq!(demcr_of(&mut d), 0x55AA_1234);
}

#[test]
fn debugger_attached_exactly_when_bit_0_set() {
    let mut p = Peripherals::new(0x0000_0001, 0, 0, 0);
    let mut d = take_handle(&mut p);
    assert!(d.is_debugger_attached());

    let mut p2 = Peripherals::new(0x0000_0000, 0, 0, 0);
    let mut d2 = take_handle(&mut p2);
    assert!(!d2.is_debugger_attached());

    // every bit except bit 0 set: still not attached
    let mut p3 = Peripherals::new(0xFFFF_FFFE, 0, 0, 0);
    let mut d3 = take_handle(&mut p3);
    assert!(!d3.is_debugger_attached());

    let mut p4 = Peripherals::new(0x0000_0003, 0, 0, 0);
    let mut d4 = take_handle(&mut p4);
    assert!(d4.is_debugger_attached());
}

#[test]
fn status_read_clears_reset_and_retire_flags() {
    // bits 24 (retire-occurred) and 25 (reset-occurred) set beside bit 0
    let mut p = Peripherals::new(0x0300_0001, 0, 0, 0);
    let mut d = take_handle(&mut p);
    assert!(d.is_debugger_attached());
    // the query's read consumed the two transient flags
    assert_eq!(d.read_slot(Slot::ControlStatus), Some(0x0000_0001));
}

#[test]
fn status_read_keeps_other_bits() {
    let mut p = Peripherals::new(0xFFFF_FFFF, 0, 0, 0);
    let mut d = take_handle(&mut p);
    assert_eq!(d.read_slot(Slot::ControlStatus), Some(0xFFFF_FFFF));
    assert_eq!(d.read_slot(Slot::ControlStatus), Some(0xFCFF_FFFF));
}

#[test]
fn second_acquisition_fails_while_handle_is_live() {
    let mut p = Peripherals::new(1, 2, 3, 4);
    let first = p.take_dcb();
    assert!(first.is_some());
    let second = p.take_dcb();
    assert!(second.is_none());
    p.release_dcb(first.unwrap());
    let third = p.take_dcb();
    assert!(third.is_some());
}

#[test]
fn selector_slot_rejects_reads() {
    let mut p = Peripherals::new(1, 2, 3, 4);
    let mut d = take_handle(&mut p);
    assert_eq!(d.read_slot(Slot::Selector), None);
    d.write_slot(Slot::Selector, 0xDEAD_BEEF);
    assert_eq!(d.read_slot(Slot::Selector), None);
}

#[test]
fn slot_writes_land_in_their_slot_only() {
    let mut b = RegisterBlock::new(1, 2, 3, 4);
    assert_eq!(b.read_slot(Slot::Data), Some(3));
    assert_eq!(b.read_slot(Slot::ExceptionMonitor), Some(4));
    b.write_slot(Slot::Data, 30);
    b.write_slot(Slot::ExceptionMonitor, 40);
    assert_eq!(b.read_slot(Slot::Data), Some(30));
    assert_eq!(b.read_slot(Slot::ExceptionMonitor), Some(40));
    assert_eq!(b.read_slot(Slot::ControlStatus), Some(1));
}

#[test]
fn rw_reg_read_write_modify() {
    let mut r = RwReg::new(0x0F);
    assert_eq!(r.read(), 0x0F);
    r.write(0xF0);
    assert_eq!(r.read(), 0xF0);
    r.modify(|w| w | 0x01);
    assert_eq!(r.read(), 0xF1);
}

#[test]
fn wo_reg_accepts_writes() {
    let mut w = WoReg::new(0);
    w.write(7);
    w.write(9);
}

#[test]
fn status_reg_read_is_destructive_write_is_not() {
    let mut s = StatusReg::new(0x0300_00FF);
    s.write(0x0300_0001);
    assert_eq!(s.read(), 0x0300_0001);
    assert_eq!(s.read(), 0x0000_0001);
}

#[test]
fn value_helpers_compute_exact_masks() {
    assert_eq!(trace_enabled_value(0), 0x0100_0000);
    assert_eq!(trace_enabled_value(0x55AA_1234), 0x55AA_1234);
    assert_eq!(trace_disabled_value(0xFFFF_FFFF), 0xFEFF_FFFF);
    assert_eq!(trace_disabled_value(0), 0);
    assert!(debugger_attached_value(1));
    assert!(!debugger_attached_value(0));
    assert!(!debugger_attached_value(0xFFFF_FFFE));
}
