//! The game controller: owns the overall countdown that ends a session in
//! victory when it expires.
//!
//! The countdown itself is a host-environment one-shot timer; this type keeps
//! the decision state: whether a countdown is currently armed, and the
//! configured duration the host must arm it with.

use vstd::prelude::*;

verus! {

/// Decision state of the overall countdown.
///
/// On a start broadcast the controller arms exactly one countdown instance;
/// on a stop broadcast it cancels and releases the countdown if one is
/// pending, and is a no-op otherwise.
pub struct GameController {
    /// Countdown duration in milliseconds; the host arms its one-shot timer
    /// with this value.
    pub duration_ms: u64,
    /// Whether a countdown instance is currently armed.
    pub countdown_armed: bool,
}

impl GameController {
    /// State after a start broadcast: the countdown is armed.
    pub open spec fn started_spec(self) -> GameController {
        GameController { countdown_armed: true, ..self }
    }

    /// State after a stop broadcast: the countdown is cancelled and released.
    /// Cancelling an already idle controller changes nothing.
    pub open spec fn stopped_spec(self) -> GameController {
        GameController { countdown_armed: false, ..self }
    }

    /// Creates an idle controller with the given countdown duration.
    pub fn new(duration_ms: u64) -> (r: GameController)
        ensures
            r == (GameController { duration_ms, countdown_armed: false }),
    {
        GameController { duration_ms, countdown_armed: false }
    }

    /// Handles a start broadcast: arm the countdown.
    pub fn start(&mut self)
        ensures
            *final(self) == old(self).started_spec(),
    {
        self.countdown_armed = true;
    }

    /// Handles a stop broadcast: cancel the countdown if armed; no-op if the
    /// controller is already idle.
    pub fn stop(&mut self)
        ensures
            *final(self) == old(self).stopped_spec(),
    {
        self.countdown_armed = false;
    }

    /// Handles expiry of the countdown timer. Returns whether victory must be
    /// raised: true exactly when a countdown was armed; a stale expiry after
    /// cancellation is ignored.
    pub fn on_timeout(&mut self) -> (fire: bool)
        ensures
            fire == old(self).countdown_armed,
            *final(self) == old(self).stopped_spec(),
    {
        let fire = self.countdown_armed;
        self.countdown_armed = false;
        fire
    }
}

} // verus!
