//! The timed button part: the player must press its required key at least
//! once within every repeating timer interval.
//!
//! A press is not an immediate reset: it only sets a flag that the next tick
//! consumes, which avoids a race between an input event and a timer expiry in
//! the same instant. A tick that finds the flag clear is a missed interval:
//! the part raises failure and deactivates.

use vstd::prelude::*;

verus! {

/// State of the timed button part.
pub struct TimedButton {
    /// Key code the player must press.
    pub required_key: u32,
    /// Interval of the repeating timer, in milliseconds; the host arms its
    /// timer with this value.
    pub time_limit_ms: u64,
    /// Whether the part is currently evaluating its constraint.
    pub active: bool,
    /// Whether the required key was pressed since the last tick. Consumed by
    /// the next tick rather than resetting the timer immediately.
    pub pressed: bool,
    /// Whether the repeating interval timer is armed on the host.
    pub timer_armed: bool,
}

impl TimedButton {
    /// State after a start broadcast: active, interval timer armed, and no
    /// press recorded yet in the fresh session.
    pub open spec fn started_spec(self) -> TimedButton {
        TimedButton { active: true, timer_armed: true, pressed: false, ..self }
    }

    /// State after a stop broadcast: inactive with the timer disarmed.
    /// Stopping an already inactive part changes nothing.
    pub open spec fn stopped_spec(self) -> TimedButton {
        TimedButton { active: false, timer_armed: false, ..self }
    }

    /// State after a key event. Only a non-echo press of the required key
    /// while active records the flag; everything else is ignored.
    pub open spec fn input_spec(self, keycode: u32, is_pressed: bool, is_echo: bool) -> TimedButton {
        if self.active && is_pressed && !is_echo && keycode == self.required_key {
            TimedButton { pressed: true, ..self }
        } else {
            self
        }
    }

    /// State after an interval tick, and whether the tick raises failure.
    /// While active: a recorded press is consumed and the part continues (the
    /// repeating timer rearms itself); a clear flag is a missed interval, so
    /// the part deactivates, disarms its timer, and raises failure. A stale
    /// tick on an inactive part is ignored.
    pub open spec fn tick_spec(self) -> (TimedButton, bool) {
        if !self.active {
            (self, false)
        } else if self.pressed {
            (TimedButton { pressed: false, ..self }, false)
        } else {
            (TimedButton { active: false, timer_armed: false, ..self }, true)
        }
    }

    /// Creates an inactive part with the given required key and interval.
    pub fn new(required_key: u32, time_limit_ms: u64) -> (r: TimedButton)
        ensures
            r == (TimedButton {
                required_key,
                time_limit_ms,
                active: false,
                pressed: false,
                timer_armed: false,
            }),
    {
        TimedButton { required_key, time_limit_ms, active: false, pressed: false, timer_armed: false }
    }

    /// Handles a start broadcast.
    pub fn start(&mut self)
        ensures
            *final(self) == old(self).started_spec(),
    {
        self.active = true;
        self.pressed = false;
        self.reset_timer();
    }

    /// Handles a stop broadcast.
    pub fn stop(&mut self)
        ensures
            *final(self) == old(self).stopped_spec(),
    {
        self.active = false;
        self.stop_timer();
    }

    /// Arms the repeating interval timer.
    pub fn reset_timer(&mut self)
        ensures
            *final(self) == (TimedButton { timer_armed: true, ..*old(self) }),
    {
        self.timer_armed = true;
    }

    /// Disarms the repeating interval timer.
    pub fn stop_timer(&mut self)
        ensures
            *final(self) == (TimedButton { timer_armed: false, ..*old(self) }),
    {
        self.timer_armed = false;
    }

    /// Handles a raw key event with pressed and echo flags, as sampled by the
    /// host input device.
    pub fn input(&mut self, keycode: u32, is_pressed: bool, is_echo: bool)
        ensures
            *final(self) == old(self).input_spec(keycode, is_pressed, is_echo),
    {
        if self.active && is_pressed && !is_echo && keycode == self.required_key {
            self.pressed = true;
        }
    }

    /// Handles an interval tick. Returns whether the interval was missed and
    /// failure must be raised.
    pub fn on_timer_timeout(&mut self) -> (fail: bool)
        ensures
            (*final(self), fail) == old(self).tick_spec(),
    {
        if !self.active {
            return false;
        }
        if self.pressed {
            self.pressed = false;
            return false;
        }
        self.active = false;
        self.stop_timer();
        true
    }

    /// Reconfigures the required key.
    pub fn set_required_key(&mut self, keycode: u32)
        ensures
            *final(self) == (TimedButton { required_key: keycode, ..*old(self) }),
    {
        self.required_key = keycode;
    }

    /// Reconfigures the interval; the host rearms its timer with the new
    /// value.
    pub fn set_time_limit(&mut self, time_ms: u64)
        ensures
            *final(self) == (TimedButton { time_limit_ms: time_ms, ..*old(self) }),
    {
        self.time_limit_ms = time_ms;
    }
}

} // verus!
