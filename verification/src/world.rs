//! The world: one explicitly constructed bus instance wiring the controller
//! and the four parts together under single-session semantics.
//!
//! Every externally observable stimulus — a lifecycle emission from the app
//! shell, a timer expiry, an input sample — is one [`Op`] applied to the
//! world. The host serializes all of them onto one execution context, so the
//! world never sees two operations interleave; each exec method here is one
//! atomic operation whose effect is pinned to the pure transition function
//! [`step`].
//!
//! Terminal events cascade synchronously: a victory or failure raised while
//! the session runs is appended to the log and immediately forwarded into one
//! stop broadcast, which cancels every part's timers and returns the session
//! to idle before the operation returns. A terminal raised while the session
//! is idle is suppressed, which is what makes one terminal event per session
//! an invariant rather than a convention.

use vstd::prelude::*;

use crate::charge_balance::ChargeBalance;
use crate::controller::GameController;
use crate::event::{Event, SessionState};
use crate::hold_release::{HoldAndRelease, HoldStepOutcome};
use crate::time_scale::TimeScaleToggle;
use crate::timed_button::TimedButton;

verus! {

/// One serialized stimulus applied to the world.
#[derive(Clone, Copy, Debug, PartialEq, Eq, Structural)]
pub enum Op {
    /// The app shell emits the start event (a menu button, a retry).
    EmitStarted,
    /// The app shell emits the stop event directly.
    EmitStopped,
    /// A collaborator emits the victory event directly.
    EmitVictory,
    /// A collaborator emits the failure event directly.
    EmitFailure,
    /// The controller's one-shot countdown expired.
    CountdownTimeout,
    /// The timed button's repeating interval timer expired.
    TimedTick,
    /// A raw key event reached the timed button.
    TimedKey { keycode: u32, is_pressed: bool, is_echo: bool },
    /// The charge part's repeating drain timer expired.
    DrainTick,
    /// The charge part's repeating charge timer expired while the key was
    /// held.
    ChargeTick,
    /// The charge part's key began to be held.
    ChargePressBegin,
    /// The charge part's key was released.
    ChargePressEnd,
    /// The time-scale part's repeating nudge timer expired.
    ScaleTick,
    /// The time-scale part's key was pressed.
    ScalePress,
    /// The hold part's one-shot random-delay timer expired.
    HoldDelayTimeout,
    /// The hold part's one-shot bounded-window timer expired.
    HoldWindowTimeout,
    /// One per-frame simulation step sampled the hold part's key at time
    /// `now_ms`.
    HoldStep { held: bool, now_ms: u64 },
}

/// Mathematical model of the world: the same component states, with the
/// event log as a sequence.
#[verifier::ext_equal]
pub ghost struct WorldView {
    pub session: SessionState,
    pub controller: GameController,
    pub timed: TimedButton,
    pub charge: ChargeBalance,
    pub scale: TimeScaleToggle,
    pub hold: HoldAndRelease,
    pub log: Seq<Event>,
}

/// The orchestration world. The `log` records every event delivered on the
/// bus, in delivery order; it is how a session's outcome is observed.
pub struct World {
    /// Authoritative session state.
    pub session: SessionState,
    /// Owner of the overall countdown.
    pub controller: GameController,
    /// The press-within-every-interval part.
    pub timed: TimedButton,
    /// The keep-the-charge-in-bounds part.
    pub charge: ChargeBalance,
    /// The shared clock-rate tug-of-war part.
    pub scale: TimeScaleToggle,
    /// The randomized wait-then-hold part.
    pub hold: HoldAndRelease,
    /// Every event delivered on the bus, in delivery order.
    pub log: Vec<Event>,
}

impl View for World {
    type V = WorldView;

    open spec fn view(&self) -> WorldView {
        WorldView {
            session: self.session,
            controller: self.controller,
            timed: self.timed,
            charge: self.charge,
            scale: self.scale,
            hold: self.hold,
            log: self.log@,
        }
    }
}

/// Whether a session is currently running in `w`.
pub open spec fn running(w: WorldView) -> bool {
    w.session is Running
}

/// World invariant: each part is well formed, and every component's activity
/// mirrors the authoritative session state — exactly the countdown, the
/// parts' evaluation flags and the repeating timers of a running session are
/// armed, and an idle world has everything disarmed and quiescent.
pub open spec fn wf(w: WorldView) -> bool {
    &&& w.charge.wf()
    &&& w.scale.wf()
    &&& w.hold.wf()
    &&& w.controller.countdown_armed == running(w)
    &&& w.timed.active == running(w)
    &&& w.timed.timer_armed == running(w)
    &&& w.charge.active == running(w)
    &&& w.charge.drain_armed == running(w)
    &&& running(w) ==> !w.charge.ended
    &&& w.scale.active == running(w)
    &&& w.scale.timer_armed == running(w)
    &&& running(w) ==> (w.hold.phase is Armed || w.hold.delay_armed)
    &&& !running(w) ==> w.hold.phase is Waiting && !w.hold.delay_armed && !w.hold.pressed
}

/// Delivery of the stop broadcast: every part deactivates and cancels its
/// timers, the controller releases the countdown, and the session returns to
/// idle. Delivered unconditionally — each handler is a no-op on an already
/// stopped component — and recorded in the log.
pub open spec fn deliver_stopped(w: WorldView) -> WorldView {
    WorldView {
        session: SessionState::Idle,
        controller: w.controller.stopped_spec(),
        timed: w.timed.stopped_spec(),
        charge: w.charge.stopped_spec(),
        scale: w.scale.stopped_spec(),
        hold: w.hold.stopped_spec(),
        log: w.log.push(Event::Stopped),
    }
}

/// Delivery of the start broadcast: accepted only from an idle session, in
/// which case the controller arms the countdown and every part activates; a
/// start emitted into a running session is ignored.
pub open spec fn deliver_started(w: WorldView) -> WorldView {
    if w.session is Idle {
        WorldView {
            session: SessionState::Running,
            controller: w.controller.started_spec(),
            timed: w.timed.started_spec(),
            charge: w.charge.started_spec(),
            scale: w.scale.started_spec(),
            hold: w.hold.started_spec(),
            log: w.log.push(Event::Started),
        }
    } else {
        w
    }
}

/// Raising a terminal event (victory or failure): accepted only while the
/// session runs, recorded in the log, and immediately forwarded into one
/// stop broadcast. Raised on an idle session it is suppressed, so a session
/// sees at most one terminal event.
pub open spec fn raise_terminal(w: WorldView, ev: Event) -> WorldView {
    if running(w) {
        deliver_stopped(WorldView { log: w.log.push(ev), ..w })
    } else {
        w
    }
}

/// The pure transition function: the world after one serialized operation.
pub open spec fn step(w: WorldView, op: Op) -> WorldView {
    match op {
        Op::EmitStarted => deliver_started(w),
        Op::EmitStopped => deliver_stopped(w),
        Op::EmitVictory => raise_terminal(w, Event::Victory),
        Op::EmitFailure => raise_terminal(w, Event::Failure),
        Op::CountdownTimeout => {
            let fire = w.controller.countdown_armed;
            let w1 = WorldView { controller: w.controller.stopped_spec(), ..w };
            if fire {
                raise_terminal(w1, Event::Victory)
            } else {
                w1
            }
        },
        Op::TimedTick => {
            let (t, fail) = w.timed.tick_spec();
            let w1 = WorldView { timed: t, ..w };
            if fail {
                raise_terminal(w1, Event::Failure)
            } else {
                w1
            }
        },
        Op::TimedKey { keycode, is_pressed, is_echo } => {
            WorldView { timed: w.timed.input_spec(keycode, is_pressed, is_echo), ..w }
        },
        Op::DrainTick => {
            let (c, fail) = w.charge.drain_spec();
            let w1 = WorldView { charge: c, ..w };
            if fail {
                raise_terminal(w1, Event::Failure)
            } else {
                w1
            }
        },
        Op::ChargeTick => {
            let (c, fail) = w.charge.charge_spec();
            let w1 = WorldView { charge: c, ..w };
            if fail {
                raise_terminal(w1, Event::Failure)
            } else {
                w1
            }
        },
        Op::ChargePressBegin => WorldView { charge: w.charge.press_begin_spec(), ..w },
        Op::ChargePressEnd => WorldView { charge: w.charge.press_end_spec(), ..w },
        Op::ScaleTick => WorldView { scale: w.scale.tick_spec(), ..w },
        Op::ScalePress => WorldView { scale: w.scale.press_spec(), ..w },
        Op::HoldDelayTimeout => WorldView { hold: w.hold.delay_timeout_spec(), ..w },
        Op::HoldWindowTimeout => {
            let (h, fail) = w.hold.window_timeout_spec();
            let w1 = WorldView { hold: h, ..w };
            if fail {
                raise_terminal(w1, Event::Failure)
            } else {
                w1
            }
        },
        Op::HoldStep { held, now_ms } => {
            let (h, outcome) = w.hold.step_spec(held, now_ms);
            let w1 = WorldView { hold: h, ..w };
            if outcome is Released {
                raise_terminal(w1, Event::Failure)
            } else {
                w1
            }
        },
    }
}

impl World {
    /// Wires an idle world from its five freshly constructed components. The
    /// fixed field order of the world is the bus registration order.
    pub fn new(
        controller: GameController,
        timed: TimedButton,
        charge: ChargeBalance,
        scale: TimeScaleToggle,
        hold: HoldAndRelease,
    ) -> (w: World)
        requires
            wf((WorldView {
                session: SessionState::Idle,
                controller,
                timed,
                charge,
                scale,
                hold,
                log: Seq::empty(),
            })),
        ensures
            w@ == (WorldView {
                session: SessionState::Idle,
                controller,
                timed,
                charge,
                scale,
                hold,
                log: Seq::empty(),
            }),
            wf(w@),
    {
        let w = World {
            session: SessionState::Idle,
            controller,
            timed,
            charge,
            scale,
            hold,
            log: Vec::new(),
        };
        proof {
            assert(w@ =~= (WorldView {
                session: SessionState::Idle,
                controller,
                timed,
                charge,
                scale,
                hold,
                log: Seq::empty(),
            }));
        }
        w
    }

    /// Delivers the stop broadcast to the controller and every part, in
    /// registration order.
    fn deliver_stopped_now(&mut self)
        requires
            old(self).charge.cfg_wf(),
            old(self).scale.cfg_wf(),
            old(self).hold.cfg_wf(),
        ensures
            final(self)@ == deliver_stopped(old(self)@),
    {
        self.log.push(Event::Stopped);
        self.session = SessionState::Idle;
        self.controller.stop();
        self.timed.stop();
        self.charge.stop();
        self.scale.stop();
        self.hold.stop();
        proof {
            assert(final(self)@ =~= deliver_stopped(old(self)@));
        }
    }

    /// Raises a terminal event: logged and forwarded into one stop broadcast
    /// while the session runs, suppressed otherwise.
    fn raise_now(&mut self, ev: Event)
        requires
            old(self).charge.cfg_wf(),
            old(self).scale.cfg_wf(),
            old(self).hold.cfg_wf(),
        ensures
            final(self)@ == raise_terminal(old(self)@, ev),
    {
        if matches!(self.session, SessionState::Running) {
            self.log.push(ev);
            self.deliver_stopped_now();
        }
        proof {
            assert(final(self)@ =~= raise_terminal(old(self)@, ev));
        }
    }

    /// Emits the start event from the app shell: from an idle session, the
    /// countdown is armed and every part activates; ignored while a session
    /// already runs.
    pub fn emit_started(&mut self)
        requires
            wf(old(self)@),
        ensures
            final(self)@ == step(old(self)@, Op::EmitStarted),
            wf(final(self)@),
    {
        if matches!(self.session, SessionState::Idle) {
            self.log.push(Event::Started);
            self.session = SessionState::Running;
            self.controller.start();
            self.timed.start();
            self.charge.start();
            self.scale.start();
            self.hold.start();
        }
        proof {
            assert(final(self)@ =~= step(old(self)@, Op::EmitStarted));
        }
    }

    /// Emits the stop event from the app shell: every part deactivates and
    /// cancels its timers; a redundant stop is delivered but changes no
    /// component state.
    pub fn emit_stopped(&mut self)
        requires
            wf(old(self)@),
        ensures
            final(self)@ == step(old(self)@, Op::EmitStopped),
            wf(final(self)@),
    {
        self.deliver_stopped_now();
    }

    /// Emits the victory event from a collaborator: accepted only while the
    /// session runs, where it is delivered and forwarded into exactly one
    /// stop; suppressed on an idle session.
    pub fn emit_victory(&mut self)
        requires
            wf(old(self)@),
        ensures
            final(self)@ == step(old(self)@, Op::EmitVictory),
            wf(final(self)@),
    {
        self.raise_now(Event::Victory);
    }

    /// Emits the failure event from a collaborator: accepted only while the
    /// session runs, where it is delivered and forwarded into exactly one
    /// stop; suppressed on an idle session.
    pub fn emit_failure(&mut self)
        requires
            wf(old(self)@),
        ensures
            final(self)@ == step(old(self)@, Op::EmitFailure),
            wf(final(self)@),
    {
        self.raise_now(Event::Failure);
    }

    /// Handles expiry of the controller's countdown: an armed countdown
    /// raises exactly one victory, forwarded into exactly one stop; a stale
    /// expiry after cancellation is ignored.
    pub fn countdown_timeout(&mut self)
        requires
            wf(old(self)@),
        ensures
            final(self)@ == step(old(self)@, Op::CountdownTimeout),
            wf(final(self)@),
    {
        let fire = self.controller.on_timeout();
        if fire {
            self.raise_now(Event::Victory);
        }
        proof {
            assert(final(self)@ =~= step(old(self)@, Op::CountdownTimeout));
        }
    }

    /// Handles one tick of the timed button's interval timer: a missed
    /// interval raises exactly one failure.
    pub fn timed_tick(&mut self)
        requires
            wf(old(self)@),
        ensures
            final(self)@ == step(old(self)@, Op::TimedTick),
            wf(final(self)@),
    {
        let fail = self.timed.on_timer_timeout();
        if fail {
            self.raise_now(Event::Failure);
        }
        proof {
            assert(final(self)@ =~= step(old(self)@, Op::TimedTick));
        }
    }

    /// Routes a raw key event to the timed button.
    pub fn timed_key(&mut self, keycode: u32, is_pressed: bool, is_echo: bool)
        requires
            wf(old(self)@),
        ensures
            final(self)@ == step(
                old(self)@,
                Op::TimedKey { keycode, is_pressed, is_echo },
            ),
            wf(final(self)@),
    {
        self.timed.input(keycode, is_pressed, is_echo);
        proof {
            assert(final(self)@ =~= step(
                old(self)@,
                Op::TimedKey { keycode, is_pressed, is_echo },
            ));
        }
    }

    /// Handles one tick of the charge part's drain timer: the first tick
    /// that takes the power out of bounds raises exactly one failure.
    pub fn drain_tick(&mut self)
        requires
            wf(old(self)@),
        ensures
            final(self)@ == step(old(self)@, Op::DrainTick),
            wf(final(self)@),
    {
        let fail = self.charge.decrease_power();
        if fail {
            self.raise_now(Event::Failure);
        }
        proof {
            assert(final(self)@ =~= step(old(self)@, Op::DrainTick));
        }
    }

    /// Handles one tick of the charge part's charge timer, running while the
    /// key is held: the first tick that takes the power out of bounds raises
    /// exactly one failure.
    pub fn charge_tick(&mut self)
        requires
            wf(old(self)@),
        ensures
            final(self)@ == step(old(self)@, Op::ChargeTick),
            wf(final(self)@),
    {
        let fail = self.charge.increase_power();
        if fail {
            self.raise_now(Event::Failure);
        }
        proof {
            assert(final(self)@ =~= step(old(self)@, Op::ChargeTick));
        }
    }

    /// Routes the charge key beginning to be held.
    pub fn charge_press_begin(&mut self)
        requires
            wf(old(self)@),
        ensures
            final(self)@ == step(old(self)@, Op::ChargePressBegin),
            wf(final(self)@),
    {
        self.charge.press_begin();
        proof {
            assert(final(self)@ =~= step(old(self)@, Op::ChargePressBegin));
        }
    }

    /// Routes the charge key being released.
    pub fn charge_press_end(&mut self)
        requires
            wf(old(self)@),
        ensures
            final(self)@ == step(old(self)@, Op::ChargePressEnd),
            wf(final(self)@),
    {
        self.charge.press_end();
        proof {
            assert(final(self)@ =~= step(old(self)@, Op::ChargePressEnd));
        }
    }

    /// Handles one tick of the time-scale part's nudge timer.
    pub fn scale_tick(&mut self)
        requires
            wf(old(self)@),
        ensures
            final(self)@ == step(old(self)@, Op::ScaleTick),
            wf(final(self)@),
    {
        self.scale.on_timeout();
        proof {
            assert(final(self)@ =~= step(old(self)@, Op::ScaleTick));
        }
    }

    /// Routes a press of the time-scale part's key.
    pub fn scale_press(&mut self)
        requires
            wf(old(self)@),
        ensures
            final(self)@ == step(old(self)@, Op::ScalePress),
            wf(final(self)@),
    {
        self.scale.on_press();
        proof {
            assert(final(self)@ =~= step(old(self)@, Op::ScalePress));
        }
    }

    /// Handles expiry of the hold part's random-delay timer: the part arms
    /// and its bounded window starts.
    pub fn hold_delay_timeout(&mut self)
        requires
            wf(old(self)@),
        ensures
            final(self)@ == step(old(self)@, Op::HoldDelayTimeout),
            wf(final(self)@),
    {
        self.hold.start_check_press();
        proof {
            assert(final(self)@ =~= step(old(self)@, Op::HoldDelayTimeout));
        }
    }

    /// Handles expiry of the hold part's bounded-window timer: a window that
    /// elapses on an armed part raises exactly one failure.
    pub fn hold_window_timeout(&mut self)
        requires
            wf(old(self)@),
        ensures
            final(self)@ == step(old(self)@, Op::HoldWindowTimeout),
            wf(final(self)@),
    {
        let fail = self.hold.on_timeout();
        if fail {
            self.raise_now(Event::Failure);
        }
        proof {
            assert(final(self)@ =~= step(old(self)@, Op::HoldWindowTimeout));
        }
    }

    /// Handles one per-frame simulation step sampling the hold part's key.
    /// Returns the part's decision so the host can arm a fresh random delay
    /// after a satisfied hold; an early release raises exactly one failure
    /// before the same-instant window expiry can, because the failure
    /// cascade cancels the window timer first.
    pub fn hold_step(&mut self, held: bool, now_ms: u64) -> (outcome: HoldStepOutcome)
        requires
            wf(old(self)@),
        ensures
            final(self)@ == step(old(self)@, Op::HoldStep { held, now_ms }),
            wf(final(self)@),
            outcome == old(self)@.hold.step_spec(held, now_ms).1,
    {
        let outcome = self.hold.step(held, now_ms);
        if matches!(outcome, HoldStepOutcome::Released) {
            self.raise_now(Event::Failure);
        }
        proof {
            assert(final(self)@ =~= step(old(self)@, Op::HoldStep { held, now_ms }));
        }
        outcome
    }

    /// The events delivered on the bus so far, in delivery order.
    pub fn events(&self) -> (log: &Vec<Event>)
        ensures
            log@ == self@.log,
    {
        &self.log
    }
}

} // verus!
