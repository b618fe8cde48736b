//! Run-time behavior: the GPIO register values, the toggle loop, and the
//! peripheral singletons.

use blinky::blinker::{levels, rising_edges_in, Blinker, TOGGLE_DELAY_MS};
use blinky::gpio::{led_cfg_value, out_inv_value, DRIVE_MODE_STRONG};
use blinky::peripherals::{startup_plan, PeripheralSingleton, CORE_CLOCK_HZ};

#[test]
fn led_cfg_sets_strong_and_nothing_else() {
    let v = led_cfg_value();
    assert_eq!(v & 0x7, u32::from(DRIVE_MODE_STRONG));
    assert_eq!(v & 0x7, 6);
    assert_eq!(v & 0xffff_fff8, 0);
    assert_eq!(v, 6);
}

#[test]
fn out_inv_drives_only_pin_zero() {
    let low = out_inv_value(false);
    let high = out_inv_value(true);
    assert_eq!(low, 0);
    assert_eq!(high, 1);
    assert_eq!(low & 0xffff_fffe, 0);
    assert_eq!(high & 0xffff_fffe, 0);
}

#[test]
fn first_level_is_low() {
    assert_eq!(levels(1), vec![false]);
}

#[test]
fn levels_alternate_every_cycle() {
    assert_eq!(levels(6), vec![false, true, false, true, false, true]);
}

#[test]
fn step_hands_out_level_then_flips() {
    let mut b = Blinker::new();
    let s0 = b.step();
    let s1 = b.step();
    let s2 = b.step();
    assert!(!s0.level);
    assert!(s1.level);
    assert!(!s2.level);
    assert_eq!(s0.delay_ms, 250);
    assert_eq!(s1.delay_ms, TOGGLE_DELAY_MS);
}

#[test]
fn five_seconds_see_ten_rising_edges() {
    // 5 s at 250 ms per cycle is 20 cycles.
    assert_eq!(rising_edges_in(20), 10);
}

#[test]
fn rising_edge_rate_is_half_the_cycles() {
    assert_eq!(rising_edges_in(0), 0);
    assert_eq!(rising_edges_in(1), 0);
    assert_eq!(rising_edges_in(2), 1);
    assert_eq!(rising_edges_in(3), 1);
    assert_eq!(rising_edges_in(40), 20);
}

#[test]
fn second_acquisition_is_refused() {
    let mut core = PeripheralSingleton::new();
    assert!(core.take());
    assert!(!core.take());
    assert!(!core.take());
    let mut device = PeripheralSingleton::new();
    assert!(device.take());
    assert!(!device.take());
}

#[test]
fn startup_proceeds_only_with_both_singletons() {
    let plan = startup_plan(true, true).unwrap();
    assert_eq!(plan.cfg_value, led_cfg_value());
    assert_eq!(plan.clock_hz, CORE_CLOCK_HZ);
    assert_eq!(plan.clock_hz, 100_000_000);
    assert!(startup_plan(false, true).is_none());
    assert!(startup_plan(true, false).is_none());
    assert!(startup_plan(false, false).is_none());
}

#[test]
fn before_main_is_a_no_op() {
    blinky::peripherals::before_main();
}
