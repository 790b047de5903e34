//! Lifecycle events broadcast on the global bus, and the session state they
//! drive.

use vstd::prelude::*;

verus! {

/// A lifecycle event. Events carry no payload and are delivered synchronously
/// to every part in a fixed registration order.
#[derive(Clone, Copy, Debug, PartialEq, Eq, Structural)]
pub enum Event {
    /// A new play session begins; every part arms its timers.
    Started,
    /// The current session is over; every part deactivates and disarms.
    Stopped,
    /// The countdown expired with no violation: the player won.
    Victory,
    /// A part detected a violated local constraint: the player lost.
    Failure,
}

/// The authoritative session state, owned by the world. A terminal event
/// (victory or failure) is accepted only while running, and its delivery
/// immediately forwards a stop broadcast, so the state returns to idle within
/// the same operation.
#[derive(Clone, Copy, Debug, PartialEq, Eq, Structural)]
pub enum SessionState {
    /// No session in progress; every part is inactive.
    Idle,
    /// A session is in progress; every part is evaluating its constraint.
    Running,
}

} // verus!
