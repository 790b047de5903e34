//! The charge-balance part: power charges while the key is held and drains on
//! its own; the player must keep it strictly inside the configured bounds.
//!
//! Two repeating host timers share one fixed period: the drain timer runs
//! whenever the part is active, the charge timer only while the key is held.
//! Every adjustment is checked against the bounds; the first adjustment that
//! leaves the open interval raises failure exactly once and marks the part
//! ended, so stale ticks before the stop broadcast arrives mutate nothing.

use vstd::prelude::*;

verus! {

/// Magnitude bound on the configured charge levels and rate, chosen so that
/// one adjustment step can never overflow a 64-bit value.
pub const CHARGE_UNIT_BOUND: i64 = 1_000_000_000;

/// State of the charge-balance part. Power levels are whole charge units.
pub struct ChargeBalance {
    /// Lower bound: power must stay strictly above it.
    pub low: i64,
    /// Upper bound: power must stay strictly below it.
    pub high: i64,
    /// Power at session start, strictly between the bounds.
    pub default_power: i64,
    /// Units added or removed by one tick of either timer.
    pub rate: i64,
    /// Shared period of the drain and charge timers, in milliseconds; the
    /// host arms both repeating timers with this value.
    pub period_ms: u64,
    /// Current charge level.
    pub power: i64,
    /// Whether the part is currently evaluating its constraint.
    pub active: bool,
    /// Whether the part already raised failure this session; suppresses any
    /// further power mutation until the next session.
    pub ended: bool,
    /// Whether the key is held, i.e. whether the charge timer is running.
    pub charging: bool,
    /// Whether the repeating drain timer is armed on the host.
    pub drain_armed: bool,
}

impl ChargeBalance {
    /// Well-formed configuration: a non-degenerate open interval, a positive
    /// rate, and magnitudes small enough that one step cannot overflow.
    pub open spec fn cfg_wf(self) -> bool {
        &&& -CHARGE_UNIT_BOUND <= self.low
        &&& self.low < self.default_power < self.high
        &&& self.high <= CHARGE_UNIT_BOUND
        &&& 0 < self.rate <= CHARGE_UNIT_BOUND
    }

    /// Well-formed part state: the configuration is sound, the power level
    /// never strays more than one step outside the bounds, and an active part
    /// that has not ended holds the session invariant: power strictly inside
    /// the open interval.
    pub open spec fn wf(self) -> bool {
        &&& self.cfg_wf()
        &&& self.low - self.rate <= self.power <= self.high + self.rate
        &&& self.active && !self.ended ==> self.low < self.power < self.high
        &&& self.charging ==> self.active
    }

    /// State after a start broadcast: power back at the default, evaluation
    /// fresh, drain timer armed, charge timer idle.
    pub open spec fn started_spec(self) -> ChargeBalance {
        ChargeBalance {
            power: self.default_power,
            active: true,
            ended: false,
            charging: false,
            drain_armed: true,
            ..self
        }
    }

    /// State after a stop broadcast: inactive with both timers disarmed.
    /// Stopping an already inactive part changes nothing.
    pub open spec fn stopped_spec(self) -> ChargeBalance {
        ChargeBalance { active: false, charging: false, drain_armed: false, ..self }
    }

    /// State after the key begins to be held: the charge timer starts, but
    /// only while the part is active.
    pub open spec fn press_begin_spec(self) -> ChargeBalance {
        if self.active {
            ChargeBalance { charging: true, ..self }
        } else {
            self
        }
    }

    /// State after the key is released: the charge timer stops.
    pub open spec fn press_end_spec(self) -> ChargeBalance {
        ChargeBalance { charging: false, ..self }
    }

    /// Whether an adjusted power level violates the bounds.
    pub open spec fn breaches(self, p: int) -> bool {
        p <= self.low || p >= self.high
    }

    /// State after one drain tick, and whether the tick raises failure. A
    /// tick on a part that is inactive or has already ended mutates nothing;
    /// otherwise power drops by the rate and the result is checked against
    /// the bounds.
    pub open spec fn drain_spec(self) -> (ChargeBalance, bool) {
        if !self.active || self.ended {
            (self, false)
        } else {
            let p = self.power - self.rate;
            if self.breaches(p) {
                (ChargeBalance { power: p as i64, ended: true, ..self }, true)
            } else {
                (ChargeBalance { power: p as i64, ..self }, false)
            }
        }
    }

    /// State after one charge tick, and whether the tick raises failure. The
    /// charge timer only runs while the key is held; a stale tick on a part
    /// that is inactive, no longer charging, or has ended mutates nothing.
    pub open spec fn charge_spec(self) -> (ChargeBalance, bool) {
        if !self.active || self.ended || !self.charging {
            (self, false)
        } else {
            let p = self.power + self.rate;
            if self.breaches(p) {
                (ChargeBalance { power: p as i64, ended: true, ..self }, true)
            } else {
                (ChargeBalance { power: p as i64, ..self }, false)
            }
        }
    }

    /// Creates an inactive part with the given bounds, session default,
    /// per-tick rate and timer period.
    pub fn new(low: i64, high: i64, default_power: i64, rate: i64, period_ms: u64) -> (r:
        ChargeBalance)
        requires
            -CHARGE_UNIT_BOUND <= low < default_power < high <= CHARGE_UNIT_BOUND,
            0 < rate <= CHARGE_UNIT_BOUND,
        ensures
            r == (ChargeBalance {
                low,
                high,
                default_power,
                rate,
                period_ms,
                power: default_power,
                active: false,
                ended: false,
                charging: false,
                drain_armed: false,
            }),
            r.wf(),
    {
        ChargeBalance {
            low,
            high,
            default_power,
            rate,
            period_ms,
            power: default_power,
            active: false,
            ended: false,
            charging: false,
            drain_armed: false,
        }
    }

    /// Handles a start broadcast.
    pub fn start(&mut self)
        requires
            old(self).cfg_wf(),
        ensures
            *final(self) == old(self).started_spec(),
            final(self).wf(),
    {
        self.power = self.default_power;
        self.active = true;
        self.ended = false;
        self.charging = false;
        self.drain_armed = true;
    }

    /// Handles a stop broadcast.
    pub fn stop(&mut self)
        ensures
            *final(self) == old(self).stopped_spec(),
    {
        self.active = false;
        self.charging = false;
        self.drain_armed = false;
    }

    /// Handles the key beginning to be held.
    pub fn press_begin(&mut self)
        ensures
            *final(self) == old(self).press_begin_spec(),
    {
        if self.active {
            self.charging = true;
        }
    }

    /// Handles the key being released.
    pub fn press_end(&mut self)
        ensures
            *final(self) == old(self).press_end_spec(),
    {
        self.charging = false;
    }

    /// Handles one drain tick: power drops by the rate. Returns whether the
    /// bounds were violated and failure must be raised.
    pub fn decrease_power(&mut self) -> (fail: bool)
        requires
            old(self).wf(),
        ensures
            (*final(self), fail) == old(self).drain_spec(),
            final(self).wf(),
    {
        if !self.active || self.ended {
            return false;
        }
        self.power = self.power - self.rate;
        self.update_power()
    }

    /// Handles one charge tick: power rises by the rate. Returns whether the
    /// bounds were violated and failure must be raised.
    pub fn increase_power(&mut self) -> (fail: bool)
        requires
            old(self).wf(),
        ensures
            (*final(self), fail) == old(self).charge_spec(),
            final(self).wf(),
    {
        if !self.active || self.ended || !self.charging {
            return false;
        }
        self.power = self.power + self.rate;
        self.update_power()
    }

    /// Checks the freshly adjusted power level against the bounds, marking
    /// the part ended on the first violation. Returns whether failure must be
    /// raised.
    fn update_power(&mut self) -> (fail: bool)
        ensures
            fail == old(self).breaches(old(self).power as int),
            *final(self) == if fail {
                (ChargeBalance { ended: true, ..*old(self) })
            } else {
                *old(self)
            },
    {
        if self.power <= self.low || self.power >= self.high {
            self.ended = true;
            return true;
        }
        false
    }
}

} // verus!
