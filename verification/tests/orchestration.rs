//! Whole-world scenarios: sessions driven through the serialized operations,
//! observed through the event log.

use puzzle_core::charge_balance::ChargeBalance;
use puzzle_core::controller::GameController;
use puzzle_core::event::{Event, SessionState};
use puzzle_core::hold_release::{HoldAndRelease, HoldPhase, HoldStepOutcome};
use puzzle_core::time_scale::TimeScaleToggle;
use puzzle_core::timed_button::TimedButton;
use puzzle_core::world::World;

const KEY: u32 = 32;

fn standard_world() -> World {
    World::new(
        GameController::new(60_000),
        TimedButton::new(KEY, 1_000),
        ChargeBalance::new(0, 100, 50, 10, 1_000),
        TimeScaleToggle::new(500, 3_000, 100, 1_000, 1_000),
        HoldAndRelease::new(5_000, 10_000, 5_000, 2_000),
    )
}

fn started_world() -> World {
    let mut w = standard_world();
    w.emit_started();
    w
}

#[test]
fn end_to_end_drain_failure() {
    let mut w = standard_world();
    w.emit_started();
    assert_eq!(w.charge.power, 50);
    assert_eq!(*w.events(), vec![Event::Started]);

    let expected = [40, 30, 20, 10];
    for p in expected {
        w.drain_tick();
        assert_eq!(w.charge.power, p);
        assert_eq!(*w.events(), vec![Event::Started]);
    }

    w.drain_tick();
    assert_eq!(w.charge.power, 0);
    assert_eq!(*w.events(), vec![Event::Started, Event::Failure, Event::Stopped]);
    assert!(w.charge.ended);

    // Every other part is observed inactive immediately after.
    assert_eq!(w.session, SessionState::Idle);
    assert!(!w.controller.countdown_armed);
    assert!(!w.timed.active);
    assert!(!w.timed.timer_armed);
    assert!(!w.charge.active);
    assert!(!w.scale.active);
    assert_eq!(w.hold.phase, HoldPhase::Waiting);
    assert!(!w.hold.delay_armed);
    assert!(!w.hold.window_armed);

    // Stale drain ticks after the failure mutate nothing.
    w.drain_tick();
    assert_eq!(w.charge.power, 0);
    assert_eq!(*w.events(), vec![Event::Started, Event::Failure, Event::Stopped]);
}

#[test]
fn started_twice_is_ignored() {
    let mut w = standard_world();
    w.emit_started();
    w.drain_tick();
    w.emit_started();
    assert_eq!(*w.events(), vec![Event::Started]);
    assert_eq!(w.charge.power, 40);
}

#[test]
fn stop_is_idempotent() {
    let mut w = started_world();
    w.emit_stopped();
    let controller = w.controller.countdown_armed;
    let timed = (w.timed.active, w.timed.timer_armed, w.timed.pressed);
    let charge = (w.charge.power, w.charge.active, w.charge.ended, w.charge.charging);
    let scale = (w.scale.scale, w.scale.active, w.scale.timer_armed);
    let hold = (w.hold.phase, w.hold.pressed, w.hold.delay_armed, w.hold.window_armed);

    w.emit_stopped();
    assert_eq!(w.controller.countdown_armed, controller);
    assert_eq!((w.timed.active, w.timed.timer_armed, w.timed.pressed), timed);
    assert_eq!((w.charge.power, w.charge.active, w.charge.ended, w.charge.charging), charge);
    assert_eq!((w.scale.scale, w.scale.active, w.scale.timer_armed), scale);
    assert_eq!((w.hold.phase, w.hold.pressed, w.hold.delay_armed, w.hold.window_armed), hold);
    assert_eq!(w.session, SessionState::Idle);
    assert_eq!(*w.events(), vec![Event::Started, Event::Stopped, Event::Stopped]);
}

#[test]
fn countdown_expiry_yields_one_victory_and_one_stop() {
    let mut w = started_world();
    assert!(w.controller.countdown_armed);
    w.countdown_timeout();
    assert_eq!(*w.events(), vec![Event::Started, Event::Victory, Event::Stopped]);
    assert_eq!(w.session, SessionState::Idle);

    // A stale expiry of the released countdown is ignored.
    w.countdown_timeout();
    assert_eq!(*w.events(), vec![Event::Started, Event::Victory, Event::Stopped]);
}

#[test]
fn stop_before_expiry_cancels_countdown() {
    let mut w = started_world();
    w.emit_stopped();
    assert!(!w.controller.countdown_armed);
    w.countdown_timeout();
    assert_eq!(*w.events(), vec![Event::Started, Event::Stopped]);
}

#[test]
fn timed_button_fed_every_interval_never_fails() {
    let mut w = started_world();
    for _ in 0..10 {
        w.timed_key(KEY, true, false);
        w.timed_tick();
    }
    assert_eq!(*w.events(), vec![Event::Started]);
    assert!(w.timed.active);
}

#[test]
fn timed_button_missed_interval_fails_once() {
    let mut w = started_world();
    w.timed_key(KEY, true, false);
    w.timed_tick();
    w.timed_tick();
    assert_eq!(*w.events(), vec![Event::Started, Event::Failure, Event::Stopped]);
    assert!(!w.timed.active);

    // Further stale ticks never raise a second failure.
    w.timed_tick();
    assert_eq!(*w.events(), vec![Event::Started, Event::Failure, Event::Stopped]);
}

#[test]
fn timed_button_ignores_echo_and_wrong_key() {
    let mut w = started_world();
    w.timed_key(KEY, true, true);
    w.timed_key(KEY + 1, true, false);
    w.timed_key(KEY, false, false);
    assert!(!w.timed.pressed);
    w.timed_tick();
    assert_eq!(*w.events(), vec![Event::Started, Event::Failure, Event::Stopped]);
}

#[test]
fn charge_while_held_rises_and_breaches_high() {
    let mut w = started_world();
    w.charge_press_begin();
    assert!(w.charge.charging);
    for p in [60, 70, 80, 90] {
        w.charge_tick();
        assert_eq!(w.charge.power, p);
    }
    assert_eq!(*w.events(), vec![Event::Started]);
    w.charge_tick();
    assert_eq!(w.charge.power, 100);
    assert_eq!(*w.events(), vec![Event::Started, Event::Failure, Event::Stopped]);
    assert!(w.charge.ended);
}

#[test]
fn charge_release_stops_charging() {
    let mut w = started_world();
    w.charge_press_begin();
    w.charge_tick();
    assert_eq!(w.charge.power, 60);
    w.charge_press_end();
    assert!(!w.charge.charging);
    // A stale charge tick after release mutates nothing.
    w.charge_tick();
    assert_eq!(w.charge.power, 60);
    w.drain_tick();
    assert_eq!(w.charge.power, 50);
    assert_eq!(*w.events(), vec![Event::Started]);
}

#[test]
fn scale_tug_of_war_respects_bounds() {
    let mut w = started_world();
    assert_eq!(w.scale.scale, 1_000);
    w.scale_tick();
    assert_eq!(w.scale.scale, 1_100);
    w.scale_press();
    assert_eq!(w.scale.scale, 1_000);

    // The timer nudges up only below the ceiling.
    for _ in 0..30 {
        w.scale_tick();
    }
    assert_eq!(w.scale.scale, 3_000);
    w.scale_tick();
    assert_eq!(w.scale.scale, 3_000);

    // A press nudges down only above the floor.
    for _ in 0..30 {
        w.scale_press();
    }
    assert_eq!(w.scale.scale, 500);
    w.scale_press();
    assert_eq!(w.scale.scale, 500);
    assert_eq!(*w.events(), vec![Event::Started]);
}

#[test]
fn scale_resets_on_stop() {
    let mut w = started_world();
    w.scale_tick();
    w.scale_tick();
    assert_eq!(w.scale.scale, 1_200);
    w.emit_stopped();
    assert_eq!(w.scale.scale, 1_000);
    assert!(!w.scale.timer_armed);
}

#[test]
fn hold_sustained_press_wins_the_round() {
    let mut w = started_world();
    assert!(w.hold.delay_armed);
    w.hold_delay_timeout();
    assert_eq!(w.hold.phase, HoldPhase::Armed);
    assert!(w.hold.window_armed);
    assert!(w.hold.light);

    assert_eq!(w.hold_step(true, 10_000), HoldStepOutcome::Nothing);
    assert!(w.hold.pressed);
    assert_eq!(w.hold.press_start_ms, 10_000);
    assert_eq!(w.hold_step(true, 11_500), HoldStepOutcome::Nothing);
    assert_eq!(w.hold_step(true, 12_000), HoldStepOutcome::Satisfied);
    assert_eq!(w.hold.phase, HoldPhase::Waiting);
    assert!(w.hold.delay_armed);
    assert!(!w.hold.window_armed);
    assert!(!w.hold.light);
    assert_eq!(*w.events(), vec![Event::Started]);
}

#[test]
fn hold_release_before_required_duration_fails_once() {
    let mut w = started_world();
    w.hold_delay_timeout();
    assert_eq!(w.hold_step(true, 10_000), HoldStepOutcome::Nothing);
    assert_eq!(w.hold_step(false, 11_000), HoldStepOutcome::Released);
    assert_eq!(*w.events(), vec![Event::Started, Event::Failure, Event::Stopped]);
    assert_eq!(w.hold.phase, HoldPhase::Waiting);
    assert!(!w.hold.delay_armed);
}

#[test]
fn hold_window_expiry_fails_once() {
    let mut w = started_world();
    w.hold_delay_timeout();
    w.hold_step(true, 10_000);
    w.hold_window_timeout();
    assert_eq!(*w.events(), vec![Event::Started, Event::Failure, Event::Stopped]);

    // A stale window expiry after the stop broadcast is ignored.
    w.hold_window_timeout();
    assert_eq!(*w.events(), vec![Event::Started, Event::Failure, Event::Stopped]);
}

#[test]
fn hold_release_takes_precedence_over_window_expiry() {
    let mut w = started_world();
    w.hold_delay_timeout();
    w.hold_step(true, 10_000);
    // Release and window expiry in the same instant: the step poll runs
    // first, and its failure cascade cancels the window timer.
    assert_eq!(w.hold_step(false, 15_000), HoldStepOutcome::Released);
    w.hold_window_timeout();
    assert_eq!(*w.events(), vec![Event::Started, Event::Failure, Event::Stopped]);
}

#[test]
fn hold_unpressed_steps_do_nothing() {
    let mut w = started_world();
    w.hold_delay_timeout();
    assert_eq!(w.hold_step(false, 10_000), HoldStepOutcome::Nothing);
    assert_eq!(*w.events(), vec![Event::Started]);
    assert_eq!(w.hold.phase, HoldPhase::Armed);
}

#[test]
fn hold_stale_delay_timeout_after_stop_is_ignored() {
    let mut w = started_world();
    w.emit_stopped();
    w.hold_delay_timeout();
    assert_eq!(w.hold.phase, HoldPhase::Waiting);
    assert!(!w.hold.window_armed);
    assert_eq!(*w.events(), vec![Event::Started, Event::Stopped]);
}

#[test]
fn collaborator_victory_is_forwarded_into_one_stop() {
    let mut w = started_world();
    w.emit_victory();
    assert_eq!(*w.events(), vec![Event::Started, Event::Victory, Event::Stopped]);
    assert_eq!(w.session, SessionState::Idle);
    assert!(!w.timed.active);
}

#[test]
fn collaborator_failure_is_forwarded_into_one_stop() {
    let mut w = started_world();
    w.emit_failure();
    assert_eq!(*w.events(), vec![Event::Started, Event::Failure, Event::Stopped]);
    assert_eq!(w.session, SessionState::Idle);
    assert!(!w.charge.active);
}

#[test]
fn collaborator_terminal_on_idle_session_is_suppressed() {
    let mut w = standard_world();
    w.emit_victory();
    w.emit_failure();
    assert!(w.events().is_empty());
    let mut w = started_world();
    w.emit_failure();
    // The session already ended: a second terminal from any collaborator is
    // suppressed.
    w.emit_victory();
    w.emit_failure();
    assert_eq!(*w.events(), vec![Event::Started, Event::Failure, Event::Stopped]);
}

#[test]
fn retry_after_failure_starts_fresh_session() {
    let mut w = started_world();
    w.timed_tick();
    assert_eq!(*w.events(), vec![Event::Started, Event::Failure, Event::Stopped]);
    w.emit_started();
    assert_eq!(w.charge.power, 50);
    assert!(!w.charge.ended);
    assert!(w.timed.active);
    assert!(w.controller.countdown_armed);
    assert_eq!(
        *w.events(),
        vec![Event::Started, Event::Failure, Event::Stopped, Event::Started]
    );
}
