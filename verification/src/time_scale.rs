//! The time-scale toggle part: a tug-of-war over one shared, process-wide
//! clock-rate value.
//!
//! A repeating host timer nudges the scale up by a fixed delta, but only
//! while it is still below the ceiling; a key press nudges it down, but only
//! while it is still above the floor. The part has no win or fail condition
//! of its own: it perturbs shared state that other subsystems read.
//!
//! The scale is carried in thousandths of the nominal rate, so the nominal
//! rate is `1000` and the conventional range half to triple speed is
//! `500 ..= 3000`.

use vstd::arithmetic::div_mod::{lemma_fundamental_div_mod, lemma_mod_add_multiples_vanish,
    lemma_mod_adds, lemma_mod_sub_multiples_vanish, lemma_sub_mod_noop};
use vstd::prelude::*;

verus! {

/// Magnitude bound on the configured scale range, in thousandths.
pub const SCALE_RANGE_BOUND: i64 = 1_000_000_000;

/// Magnitude bound on the configured per-nudge delta, in thousandths.
pub const SCALE_DELTA_BOUND: i64 = 1_000_000;

/// State of the time-scale toggle part. The `scale` field models the shared
/// process-wide value; the host mirrors every change into the engine clock.
pub struct TimeScaleToggle {
    /// Floor of the shared scale: a press nudges down only above it.
    pub scale_min: i64,
    /// Ceiling of the shared scale: a tick nudges up only below it.
    pub scale_max: i64,
    /// Thousandths added by one tick and removed by one press.
    pub delta: i64,
    /// Value the scale is reset to at session start and end, conventionally
    /// the nominal rate.
    pub scale_reset: i64,
    /// Period of the repeating nudge timer, in milliseconds; the host arms
    /// its timer with this value.
    pub period_ms: u64,
    /// Current shared scale, in thousandths.
    pub scale: i64,
    /// Whether the part is currently nudging the shared scale.
    pub active: bool,
    /// Whether the repeating nudge timer is armed on the host.
    pub timer_armed: bool,
}

impl TimeScaleToggle {
    /// Well-formed configuration: a positive delta, a non-degenerate range
    /// with the reset value inside it, magnitudes small enough that one
    /// nudge cannot overflow, and the delta dividing the reset value's
    /// distance to either rim, so that the guarded whole-delta nudges can
    /// never carry the scale past a rim.
    pub open spec fn cfg_wf(self) -> bool {
        &&& 0 < self.delta <= SCALE_DELTA_BOUND
        &&& -SCALE_RANGE_BOUND <= self.scale_min
        &&& self.scale_min <= self.scale_reset <= self.scale_max
        &&& self.scale_min < self.scale_max
        &&& self.scale_max <= SCALE_RANGE_BOUND
        &&& (self.scale_max - self.scale_reset) % (self.delta as int) == 0
        &&& (self.scale_reset - self.scale_min) % (self.delta as int) == 0
    }

    /// Well-formed part state: the shared scale stays inside the configured
    /// range, on the grid of whole deltas from the floor.
    pub open spec fn wf(self) -> bool {
        &&& self.cfg_wf()
        &&& self.scale_min <= self.scale <= self.scale_max
        &&& (self.scale - self.scale_min) % (self.delta as int) == 0
    }

    /// A positive multiple of `d` is at least `d`.
    proof fn lemma_positive_multiple_at_least(x: int, d: int)
        requires
            0 < d,
            0 < x,
            x % d == 0,
        ensures
            x >= d,
    {
        lemma_fundamental_div_mod(x, d);
        let q = x / d;
        assert(q >= 1) by (nonlinear_arith)
            requires
                d > 0,
                x > 0,
                x == d * q,
        ;
        assert(x >= d) by (nonlinear_arith)
            requires
                x == d * q,
                q >= 1,
                d > 0,
        ;
    }

    /// A well-formed part still below the ceiling has room for one whole
    /// upward nudge, and one above the floor for one whole downward nudge;
    /// either nudge lands back on the grid.
    pub proof fn lemma_nudge_bounds(self)
        requires
            self.wf(),
        ensures
            self.scale < self.scale_max ==> self.scale + self.delta <= self.scale_max && (
            self.scale + self.delta - self.scale_min) % (self.delta as int) == 0,
            self.scale > self.scale_min ==> self.scale - self.delta >= self.scale_min && (
            self.scale - self.delta - self.scale_min) % (self.delta as int) == 0,
    {
        let d = self.delta as int;
        let lo = self.scale_min as int;
        let hi = self.scale_max as int;
        let r = self.scale_reset as int;
        let s = self.scale as int;
        lemma_mod_adds(hi - r, r - lo, d);
        lemma_sub_mod_noop(hi - lo, s - lo, d);
        assert((hi - s) % d == 0);
        if s < hi {
            Self::lemma_positive_multiple_at_least(hi - s, d);
            lemma_mod_add_multiples_vanish(s - lo, d);
        }
        if s > lo {
            Self::lemma_positive_multiple_at_least(s - lo, d);
            lemma_mod_sub_multiples_vanish(s - lo, d);
        }
    }

    /// State after a start broadcast: the shared scale is reset and the nudge
    /// timer armed.
    pub open spec fn started_spec(self) -> TimeScaleToggle {
        TimeScaleToggle { scale: self.scale_reset, active: true, timer_armed: true, ..self }
    }

    /// State after a stop broadcast: the shared scale is reset for the
    /// subsystems that keep reading it, and the timer disarmed. Stopping an
    /// already inactive part changes nothing but the reset.
    pub open spec fn stopped_spec(self) -> TimeScaleToggle {
        TimeScaleToggle { scale: self.scale_reset, active: false, timer_armed: false, ..self }
    }

    /// State after one timer tick: while active and still below the ceiling,
    /// the scale rises by the delta.
    pub open spec fn tick_spec(self) -> TimeScaleToggle {
        if self.active && self.scale < self.scale_max {
            TimeScaleToggle { scale: (self.scale + self.delta) as i64, ..self }
        } else {
            self
        }
    }

    /// State after one key press: while active and still above the floor,
    /// the scale drops by the delta.
    pub open spec fn press_spec(self) -> TimeScaleToggle {
        if self.active && self.scale > self.scale_min {
            TimeScaleToggle { scale: (self.scale - self.delta) as i64, ..self }
        } else {
            self
        }
    }

    /// Creates an inactive part with the given range, per-nudge delta,
    /// reset value and timer period.
    pub fn new(scale_min: i64, scale_max: i64, delta: i64, scale_reset: i64, period_ms: u64) -> (r:
        TimeScaleToggle)
        requires
            0 < delta <= SCALE_DELTA_BOUND,
            -SCALE_RANGE_BOUND <= scale_min <= scale_reset <= scale_max <= SCALE_RANGE_BOUND,
            scale_min < scale_max,
            (scale_max - scale_reset) % (delta as int) == 0,
            (scale_reset - scale_min) % (delta as int) == 0,
        ensures
            r == (TimeScaleToggle {
                scale_min,
                scale_max,
                delta,
                scale_reset,
                period_ms,
                scale: scale_reset,
                active: false,
                timer_armed: false,
            }),
            r.wf(),
    {
        TimeScaleToggle {
            scale_min,
            scale_max,
            delta,
            scale_reset,
            period_ms,
            scale: scale_reset,
            active: false,
            timer_armed: false,
        }
    }

    /// Handles a start broadcast.
    pub fn start(&mut self)
        requires
            old(self).cfg_wf(),
        ensures
            *final(self) == old(self).started_spec(),
            final(self).wf(),
    {
        self.active = true;
        self.timer_armed = true;
        self.scale = self.scale_reset;
    }

    /// Handles a stop broadcast.
    pub fn stop(&mut self)
        requires
            old(self).cfg_wf(),
        ensures
            *final(self) == old(self).stopped_spec(),
            final(self).wf(),
    {
        self.active = false;
        self.timer_armed = false;
        self.scale = self.scale_reset;
    }

    /// Handles one tick of the nudge timer: the shared scale rises by the
    /// delta, unless the part is inactive or the scale has reached the
    /// ceiling.
    pub fn on_timeout(&mut self)
        requires
            old(self).wf(),
        ensures
            *final(self) == old(self).tick_spec(),
            final(self).wf(),
    {
        if self.active && self.scale < self.scale_max {
            proof {
                self.lemma_nudge_bounds();
            }
            self.increase_global_time_scale();
        }
    }

    /// Handles one press of the part's key: the shared scale drops by the
    /// delta, unless the part is inactive or the scale has reached the floor.
    pub fn on_press(&mut self)
        requires
            old(self).wf(),
        ensures
            *final(self) == old(self).press_spec(),
            final(self).wf(),
    {
        if self.active && self.scale > self.scale_min {
            proof {
                self.lemma_nudge_bounds();
            }
            self.decrease_global_time_scale();
        }
    }

    /// Raises the shared scale by the delta.
    fn increase_global_time_scale(&mut self)
        requires
            old(self).wf(),
            old(self).scale < old(self).scale_max,
        ensures
            *final(self) == (TimeScaleToggle {
                scale: (old(self).scale + old(self).delta) as i64,
                ..*old(self)
            }),
    {
        self.scale = self.scale + self.delta;
    }

    /// Lowers the shared scale by the delta.
    fn decrease_global_time_scale(&mut self)
        requires
            old(self).wf(),
            old(self).scale > old(self).scale_min,
        ensures
            *final(self) == (TimeScaleToggle {
                scale: (old(self).scale - old(self).delta) as i64,
                ..*old(self)
            }),
    {
        self.scale = self.scale - self.delta;
    }
}

} // verus!
