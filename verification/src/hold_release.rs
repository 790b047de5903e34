//! The hold-and-release part: after a randomized delay the part arms itself,
//! and the player must then press and hold its key for a required duration
//! before a bounded window elapses.
//!
//! The part cycles through two phases while a session runs. In the waiting
//! phase a one-shot host timer with a uniformly random delay is pending; its
//! expiry arms the part, lights the indicator, and starts the bounded-window
//! one-shot timer. In the armed phase every simulation step samples the held
//! key: reaching the required hold duration ends the round successfully and
//! returns to waiting with a fresh random delay, while releasing early or
//! letting the window elapse raises failure. A release observed by the step
//! poll takes precedence over a same-instant window expiry, because the
//! failure it raises deactivates the part before the stale timer callback
//! runs.

use vstd::prelude::*;

verus! {

/// Magnitude bound on the configured durations, in milliseconds.
pub const HOLD_TIME_BOUND: u64 = 1_000_000_000_000;

/// Phase of the hold-and-release cycle.
#[derive(Clone, Copy, Debug, PartialEq, Eq, Structural)]
pub enum HoldPhase {
    /// The random pre-arm delay is pending; input is not yet evaluated.
    Waiting,
    /// The indicator is lit and the bounded window is running; the step poll
    /// is evaluating the held key.
    Armed,
}

/// What one simulation step decided, telling the host what to do next.
#[derive(Clone, Copy, Debug, PartialEq, Eq, Structural)]
pub enum HoldStepOutcome {
    /// No transition this step.
    Nothing,
    /// The hold was sustained long enough: the round was won and the part is
    /// waiting again, so the host must arm the delay timer with a fresh
    /// random duration.
    Satisfied,
    /// The key was released before the required duration: failure must be
    /// raised.
    Released,
}

/// State of the hold-and-release part.
pub struct HoldAndRelease {
    /// Lower bound of the random pre-arm delay, in milliseconds.
    pub delay_min_ms: u64,
    /// Upper bound of the random pre-arm delay, in milliseconds.
    pub delay_max_ms: u64,
    /// Length of the bounded window the hold must succeed within, in
    /// milliseconds; the host arms the window timer with this value.
    pub window_ms: u64,
    /// Duration the key must be held continuously, in milliseconds.
    pub hold_required_ms: u64,
    /// Current phase of the cycle.
    pub phase: HoldPhase,
    /// Whether a press is in progress in the armed phase.
    pub pressed: bool,
    /// Timestamp captured at press begin, in milliseconds.
    pub press_start_ms: u64,
    /// Whether the one-shot random-delay timer is pending on the host.
    pub delay_armed: bool,
    /// Whether the one-shot bounded-window timer is pending on the host.
    pub window_armed: bool,
    /// Whether the indicator light is on; cosmetic, lit exactly in the armed
    /// phase.
    pub light: bool,
}

impl HoldAndRelease {
    /// Well-formed configuration: an ordered delay range and magnitudes small
    /// enough that range arithmetic cannot overflow.
    pub open spec fn cfg_wf(self) -> bool {
        &&& self.delay_min_ms <= self.delay_max_ms <= HOLD_TIME_BOUND
        &&& self.window_ms <= HOLD_TIME_BOUND
        &&& self.hold_required_ms <= HOLD_TIME_BOUND
    }

    /// Well-formed part state: a press only exists in the armed phase, the
    /// armed phase has exactly the window pending and the indicator lit, and
    /// the waiting phase has neither.
    pub open spec fn wf(self) -> bool {
        &&& self.cfg_wf()
        &&& self.pressed ==> self.phase is Armed
        &&& self.phase is Armed ==> !self.delay_armed && self.window_armed && self.light
        &&& self.phase is Waiting ==> !self.window_armed && !self.light
    }

    /// State at the start of a waiting round: fresh random delay pending,
    /// indicator off, no press. Entered on a start broadcast and again after
    /// every successful hold.
    pub open spec fn started_spec(self) -> HoldAndRelease {
        HoldAndRelease {
            phase: HoldPhase::Waiting,
            pressed: false,
            press_start_ms: 0,
            delay_armed: true,
            window_armed: false,
            light: false,
            ..self
        }
    }

    /// State after a stop broadcast: waiting with both one-shot timers
    /// cancelled and the indicator off. Stopping an already stopped part
    /// changes nothing.
    pub open spec fn stopped_spec(self) -> HoldAndRelease {
        HoldAndRelease {
            phase: HoldPhase::Waiting,
            pressed: false,
            delay_armed: false,
            window_armed: false,
            light: false,
            ..self
        }
    }

    /// State after the random delay expires: the part arms, the indicator
    /// lights, and the bounded window starts. A stale expiry after a stop
    /// broadcast cancelled the delay is ignored.
    pub open spec fn delay_timeout_spec(self) -> HoldAndRelease {
        if self.delay_armed && self.phase is Waiting {
            HoldAndRelease {
                phase: HoldPhase::Armed,
                delay_armed: false,
                window_armed: true,
                light: true,
                ..self
            }
        } else {
            self
        }
    }

    /// State after the bounded window expires, and whether failure must be
    /// raised: the window elapsed before the hold was sustained. A stale
    /// expiry after cancellation is ignored.
    pub open spec fn window_timeout_spec(self) -> (HoldAndRelease, bool) {
        if self.window_armed && self.phase is Armed {
            (HoldAndRelease { window_armed: false, ..self }, true)
        } else {
            (self, false)
        }
    }

    /// Duration the key has been held at time `now`, measured from the
    /// captured press start.
    pub open spec fn held_for(self, now: u64) -> u64 {
        if now >= self.press_start_ms {
            (now - self.press_start_ms) as u64
        } else {
            0
        }
    }

    /// State after one simulation step sampling the held key at time `now`,
    /// and what the step decided. Outside the armed phase the step does
    /// nothing. While armed: the first held sample captures the press start;
    /// a later held sample that reaches the required duration wins the round,
    /// cancelling the window and returning to waiting; an unheld sample with
    /// a press in progress is an early release and raises failure.
    pub open spec fn step_spec(self, held: bool, now: u64) -> (HoldAndRelease, HoldStepOutcome) {
        if !(self.phase is Armed) {
            (self, HoldStepOutcome::Nothing)
        } else if held {
            if !self.pressed {
                (HoldAndRelease { pressed: true, press_start_ms: now, ..self }, HoldStepOutcome::Nothing)
            } else if self.held_for(now) >= self.hold_required_ms {
                (self.started_spec(), HoldStepOutcome::Satisfied)
            } else {
                (self, HoldStepOutcome::Nothing)
            }
        } else {
            if self.pressed {
                (self, HoldStepOutcome::Released)
            } else {
                (self, HoldStepOutcome::Nothing)
            }
        }
    }

    /// Creates a stopped part with the given delay range, window length and
    /// required hold duration.
    pub fn new(delay_min_ms: u64, delay_max_ms: u64, window_ms: u64, hold_required_ms: u64) -> (r:
        HoldAndRelease)
        requires
            delay_min_ms <= delay_max_ms <= HOLD_TIME_BOUND,
            window_ms <= HOLD_TIME_BOUND,
            hold_required_ms <= HOLD_TIME_BOUND,
        ensures
            r == (HoldAndRelease {
                delay_min_ms,
                delay_max_ms,
                window_ms,
                hold_required_ms,
                phase: HoldPhase::Waiting,
                pressed: false,
                press_start_ms: 0,
                delay_armed: false,
                window_armed: false,
                light: false,
            }),
            r.wf(),
    {
        HoldAndRelease {
            delay_min_ms,
            delay_max_ms,
            window_ms,
            hold_required_ms,
            phase: HoldPhase::Waiting,
            pressed: false,
            press_start_ms: 0,
            delay_armed: false,
            window_armed: false,
            light: false,
        }
    }

    /// Maps a raw random sample to a delay inside the configured range, by
    /// the sample's remainder in the range's span; the host draws the sample
    /// and arms the delay timer with the result.
    pub fn delay_in_range(&self, raw: u64) -> (d: u64)
        requires
            self.cfg_wf(),
        ensures
            self.delay_min_ms <= d <= self.delay_max_ms,
            d == self.delay_min_ms + (raw as int) % (self.delay_max_ms - self.delay_min_ms + 1),
    {
        let span = self.delay_max_ms - self.delay_min_ms + 1;
        self.delay_min_ms + raw % span
    }

    /// Handles a start broadcast: begin a waiting round.
    pub fn start(&mut self)
        requires
            old(self).cfg_wf(),
        ensures
            *final(self) == old(self).started_spec(),
            final(self).wf(),
    {
        self.phase = HoldPhase::Waiting;
        self.pressed = false;
        self.press_start_ms = 0;
        self.reset_timer();
        self.light_off();
    }

    /// Handles a stop broadcast: cancel both one-shot timers and douse the
    /// indicator.
    pub fn stop(&mut self)
        requires
            old(self).cfg_wf(),
        ensures
            *final(self) == old(self).stopped_spec(),
            final(self).wf(),
    {
        self.phase = HoldPhase::Waiting;
        self.pressed = false;
        self.stop_timer();
        self.light_off();
    }

    /// Arms the random-delay timer and cancels the window timer, as at the
    /// start of a waiting round.
    pub fn reset_timer(&mut self)
        ensures
            *final(self) == (HoldAndRelease {
                delay_armed: true,
                window_armed: false,
                ..*old(self)
            }),
    {
        self.delay_armed = true;
        self.window_armed = false;
    }

    /// Cancels both one-shot timers.
    pub fn stop_timer(&mut self)
        ensures
            *final(self) == (HoldAndRelease {
                delay_armed: false,
                window_armed: false,
                ..*old(self)
            }),
    {
        self.delay_armed = false;
        self.window_armed = false;
    }

    /// Handles expiry of the random-delay timer.
    pub fn start_check_press(&mut self)
        requires
            old(self).wf(),
        ensures
            *final(self) == old(self).delay_timeout_spec(),
            final(self).wf(),
    {
        if self.delay_armed && matches!(self.phase, HoldPhase::Waiting) {
            self.phase = HoldPhase::Armed;
            self.delay_armed = false;
            self.window_armed = true;
            self.light_on();
        }
    }

    /// Handles expiry of the bounded-window timer. Returns whether the
    /// window elapsed on an armed part, so that failure must be raised.
    pub fn on_timeout(&mut self) -> (fail: bool)
        requires
            old(self).wf(),
        ensures
            (*final(self), fail) == old(self).window_timeout_spec(),
    {
        if self.window_armed && matches!(self.phase, HoldPhase::Armed) {
            self.window_armed = false;
            return true;
        }
        false
    }

    /// Handles one simulation step, sampling whether the part's key is held
    /// at time `now`. Returns what the step decided; on
    /// [`HoldStepOutcome::Satisfied`] the host must arm the delay timer with
    /// a fresh random duration, and on [`HoldStepOutcome::Released`] failure
    /// must be raised.
    pub fn step(&mut self, held: bool, now: u64) -> (outcome: HoldStepOutcome)
        requires
            old(self).wf(),
        ensures
            (*final(self), outcome) == old(self).step_spec(held, now),
    {
        if !matches!(self.phase, HoldPhase::Armed) {
            return HoldStepOutcome::Nothing;
        }
        if held {
            if !self.pressed {
                self.pressed = true;
                self.press_start_ms = now;
                return HoldStepOutcome::Nothing;
            }
            let held_ms = if now >= self.press_start_ms {
                now - self.press_start_ms
            } else {
                0
            };
            if held_ms >= self.hold_required_ms {
                self.phase = HoldPhase::Waiting;
                self.pressed = false;
                self.press_start_ms = 0;
                self.reset_timer();
                self.light_off();
                return HoldStepOutcome::Satisfied;
            }
            return HoldStepOutcome::Nothing;
        }
        if self.pressed {
            return HoldStepOutcome::Released;
        }
        HoldStepOutcome::Nothing
    }

    /// Lights the indicator.
    fn light_on(&mut self)
        ensures
            *final(self) == (HoldAndRelease { light: true, ..*old(self) }),
    {
        self.light = true;
    }

    /// Douses the indicator.
    fn light_off(&mut self)
        ensures
            *final(self) == (HoldAndRelease { light: false, ..*old(self) }),
    {
        self.light = false;
    }
}

} // verus!
