//! Unit scenarios for the individual puzzle parts and the controller.

use puzzle_core::charge_balance::ChargeBalance;
use puzzle_core::controller::GameController;
use puzzle_core::hold_release::{HoldAndRelease, HoldPhase, HoldStepOutcome};
use puzzle_core::time_scale::TimeScaleToggle;
use puzzle_core::timed_button::TimedButton;

#[test]
fn controller_timeout_fires_only_when_armed() {
    let mut c = GameController::new(30_000);
    assert!(!c.countdown_armed);
    assert!(!c.on_timeout());
    c.start();
    assert!(c.countdown_armed);
    assert!(c.on_timeout());
    assert!(!c.countdown_armed);
    assert!(!c.on_timeout());
}

#[test]
fn controller_stop_releases_countdown() {
    let mut c = GameController::new(30_000);
    c.start();
    c.stop();
    assert!(!c.countdown_armed);
    c.stop();
    assert!(!c.countdown_armed);
}

#[test]
fn timed_button_consumes_press_per_tick() {
    let mut t = TimedButton::new(7, 1_000);
    t.start();
    t.input(7, true, false);
    assert!(t.pressed);
    assert!(!t.on_timer_timeout());
    assert!(!t.pressed);
    // Flag was consumed: the next tick without a new press misses.
    assert!(t.on_timer_timeout());
    assert!(!t.active);
    assert!(!t.timer_armed);
}

#[test]
fn timed_button_stale_tick_when_inactive() {
    let mut t = TimedButton::new(7, 1_000);
    assert!(!t.on_timer_timeout());
    t.input(7, true, false);
    assert!(!t.pressed);
}

#[test]
fn timed_button_start_clears_stale_press() {
    let mut t = TimedButton::new(7, 1_000);
    t.start();
    t.input(7, true, false);
    t.stop();
    t.start();
    assert!(!t.pressed);
}

#[test]
fn timed_button_reconfiguration() {
    let mut t = TimedButton::new(7, 1_000);
    t.set_required_key(9);
    t.set_time_limit(2_500);
    assert_eq!(t.required_key, 9);
    assert_eq!(t.time_limit_ms, 2_500);
    t.start();
    t.input(7, true, false);
    assert!(!t.pressed);
    t.input(9, true, false);
    assert!(t.pressed);
}

#[test]
fn charge_breach_is_detected_at_the_boundary() {
    let mut c = ChargeBalance::new(0, 100, 10, 10, 1_000);
    c.start();
    assert_eq!(c.power, 10);
    assert!(c.decrease_power());
    assert_eq!(c.power, 0);
    assert!(c.ended);
    // Ticks after the breach are ignored until the next session.
    assert!(!c.decrease_power());
    assert_eq!(c.power, 0);
    c.start();
    assert_eq!(c.power, 10);
    assert!(!c.ended);
}

#[test]
fn charge_press_ignored_while_inactive() {
    let mut c = ChargeBalance::new(0, 100, 50, 10, 1_000);
    c.press_begin();
    assert!(!c.charging);
    c.start();
    c.press_begin();
    assert!(c.charging);
    c.stop();
    assert!(!c.charging);
}

#[test]
fn scale_nudges_are_guarded_at_the_rim() {
    // The reset value may sit on a rim; the delta divides its distance to
    // both rims, so nudges stop exactly at the range's edges.
    let mut s = TimeScaleToggle::new(500, 3_000, 100, 3_000, 1_000);
    s.start();
    assert_eq!(s.scale, 3_000);
    // Already at the ceiling: the tick does not nudge past it.
    s.on_timeout();
    assert_eq!(s.scale, 3_000);
    s.on_press();
    assert_eq!(s.scale, 2_900);
    s.on_timeout();
    assert_eq!(s.scale, 3_000);

    let mut s = TimeScaleToggle::new(500, 3_000, 250, 500, 1_000);
    s.start();
    assert_eq!(s.scale, 500);
    // Already at the floor: the press does not nudge past it.
    s.on_press();
    assert_eq!(s.scale, 500);
    s.on_timeout();
    assert_eq!(s.scale, 750);
    s.on_press();
    assert_eq!(s.scale, 500);
}

#[test]
fn scale_inactive_part_holds_still() {
    let mut s = TimeScaleToggle::new(500, 3_000, 100, 1_000, 1_000);
    s.on_timeout();
    s.on_press();
    assert_eq!(s.scale, 1_000);
}

#[test]
fn hold_part_cycles_through_phases() {
    let mut h = HoldAndRelease::new(5_000, 10_000, 5_000, 2_000);
    h.start();
    assert_eq!(h.phase, HoldPhase::Waiting);
    assert!(h.delay_armed);
    h.start_check_press();
    assert_eq!(h.phase, HoldPhase::Armed);
    assert!(h.window_armed);
    assert!(h.light);
    assert_eq!(h.step(true, 100), HoldStepOutcome::Nothing);
    assert_eq!(h.step(true, 2_100), HoldStepOutcome::Satisfied);
    assert_eq!(h.phase, HoldPhase::Waiting);
    assert!(h.delay_armed);
    assert!(!h.light);
}

#[test]
fn hold_window_timeout_only_fires_once() {
    let mut h = HoldAndRelease::new(5_000, 10_000, 5_000, 2_000);
    h.start();
    h.start_check_press();
    assert!(h.on_timeout());
    assert!(!h.on_timeout());
}

#[test]
fn hold_release_reported_to_the_caller() {
    let mut h = HoldAndRelease::new(5_000, 10_000, 5_000, 2_000);
    h.start();
    h.start_check_press();
    assert_eq!(h.step(true, 100), HoldStepOutcome::Nothing);
    assert_eq!(h.step(false, 1_900), HoldStepOutcome::Released);
}

#[test]
fn hold_delay_in_range_maps_raw_samples_exactly() {
    let h = HoldAndRelease::new(5_000, 10_000, 5_000, 2_000);
    // The range spans 5001 values, chosen by the raw sample modulo the span.
    assert_eq!(h.delay_in_range(0), 5_000);
    assert_eq!(h.delay_in_range(1), 5_001);
    assert_eq!(h.delay_in_range(5_000), 10_000);
    assert_eq!(h.delay_in_range(5_001), 5_000);
    assert_eq!(h.delay_in_range(u64::MAX), 5_000 + u64::MAX % 5_001);
}

#[test]
fn hold_degenerate_delay_range() {
    let h = HoldAndRelease::new(7_000, 7_000, 5_000, 2_000);
    assert_eq!(h.delay_in_range(0), 7_000);
    assert_eq!(h.delay_in_range(123_456), 7_000);
}
