//! The laws of the orchestration core, proved over the pure transition
//! function [`step`]: session-wide invariants of each part and the
//! single-terminal-event guarantee, stated for every serialized operation
//! sequence.

use vstd::prelude::*;

use crate::event::Event;
use crate::hold_release::HoldAndRelease;
use crate::world::{running, step, wf, Op, WorldView};

verus! {

/// The world after a whole sequence of serialized operations, applied in
/// order.
pub open spec fn run(w: WorldView, ops: Seq<Op>) -> WorldView
    decreases ops.len(),
{
    if ops.len() == 0 {
        w
    } else {
        run(step(w, ops[0]), ops.drop_first())
    }
}

/// How many times `ev` was delivered in `log`.
pub open spec fn count_of(log: Seq<Event>, ev: Event) -> int
    decreases log.len(),
{
    if log.len() == 0 {
        0
    } else {
        count_of(log.drop_last(), ev) + if log.last() == ev {
            1int
        } else {
            0int
        }
    }
}

/// Appending one event raises its count by one and no other.
pub proof fn lemma_count_push(log: Seq<Event>, e: Event, ev: Event)
    ensures
        count_of(log.push(e), ev) == count_of(log, ev) + if e == ev {
            1int
        } else {
            0int
        },
{
    assert(log.push(e).drop_last() =~= log);
}

/// Running a concatenated sequence is running its halves in order.
pub proof fn lemma_run_append(w: WorldView, a: Seq<Op>, b: Seq<Op>)
    ensures
        run(w, a + b) == run(run(w, a), b),
    decreases a.len(),
{
    if a.len() == 0 {
        assert(a + b =~= b);
    } else {
        assert((a + b).drop_first() =~= a.drop_first() + b);
        lemma_run_append(step(w, a[0]), a.drop_first(), b);
    }
}

/// One serialized operation preserves the world invariant.
pub proof fn lemma_step_preserves_wf(w: WorldView, op: Op)
    requires
        wf(w),
    ensures
        wf(step(w, op)),
{
    w.scale.lemma_nudge_bounds();
}

/// Every serialized operation sequence preserves the world invariant.
pub proof fn lemma_run_preserves_wf(w: WorldView, ops: Seq<Op>)
    requires
        wf(w),
    ensures
        wf(run(w, ops)),
    decreases ops.len(),
{
    if ops.len() > 0 {
        lemma_step_preserves_wf(w, ops[0]);
        lemma_run_preserves_wf(step(w, ops[0]), ops.drop_first());
    }
}

/// Law: an idle world is quiescent. Until a start event is emitted, no
/// operation delivers a start, victory or failure event, and the controller
/// and every part except the time-scale reset keep their exact state: timers
/// stay released, power stays frozen, no part reactivates.
pub proof fn lemma_idle_quiescent(w: WorldView, ops: Seq<Op>)
    requires
        wf(w),
        !running(w),
        forall|i: int| 0 <= i < ops.len() ==> !(ops[i] is EmitStarted),
    ensures
        ({
            let wn = run(w, ops);
            &&& !running(wn)
            &&& wn.controller == w.controller
            &&& wn.timed == w.timed
            &&& wn.charge == w.charge
            &&& wn.hold == w.hold
            &&& !wn.scale.active
            &&& count_of(wn.log, Event::Started) == count_of(w.log, Event::Started)
            &&& count_of(wn.log, Event::Victory) == count_of(w.log, Event::Victory)
            &&& count_of(wn.log, Event::Failure) == count_of(w.log, Event::Failure)
        }),
    decreases ops.len(),
{
    if ops.len() > 0 {
        let op = ops[0];
        let w1 = step(w, op);
        lemma_step_preserves_wf(w, op);
        if op is EmitStopped {
            lemma_count_push(w.log, Event::Stopped, Event::Started);
            lemma_count_push(w.log, Event::Stopped, Event::Victory);
            lemma_count_push(w.log, Event::Stopped, Event::Failure);
        }
        assert(w1.log == w.log || w1.log == w.log.push(Event::Stopped));
        assert(forall|i: int|
            0 <= i < ops.drop_first().len() ==> !(#[trigger] ops.drop_first()[i] is EmitStarted))
            by {
            assert(forall|i: int|
                0 <= i < ops.drop_first().len() ==> ops.drop_first()[i] == ops[i + 1]);
        }
        lemma_idle_quiescent(w1, ops.drop_first());
    }
}

/// Law: at most one terminal event per session. From the start of a session
/// until the next one, every serialized operation sequence delivers at most
/// one victory-or-failure event in total, however many parts detect a
/// violation and however many stale timer callbacks fire: the first terminal
/// delivery ends the session, and an idle session suppresses the rest.
pub proof fn lemma_session_at_most_one_terminal(w: WorldView, ops: Seq<Op>)
    requires
        wf(w),
        running(w),
        forall|i: int| 0 <= i < ops.len() ==> !(ops[i] is EmitStarted),
    ensures
        ({
            let wn = run(w, ops);
            count_of(wn.log, Event::Victory) + count_of(wn.log, Event::Failure) <= count_of(
                w.log,
                Event::Victory,
            ) + count_of(w.log, Event::Failure) + 1
        }),
    decreases ops.len(),
{
    if ops.len() > 0 {
        let op = ops[0];
        let w1 = step(w, op);
        lemma_step_preserves_wf(w, op);
        assert(forall|i: int|
            0 <= i < ops.drop_first().len() ==> !(#[trigger] ops.drop_first()[i] is EmitStarted))
            by {
            assert(forall|i: int|
                0 <= i < ops.drop_first().len() ==> ops.drop_first()[i] == ops[i + 1]);
        }
        if running(w1) {
            assert(w1.log == w.log);
            lemma_session_at_most_one_terminal(w1, ops.drop_first());
        } else {
            assert(w1.log == w.log.push(Event::Stopped) || w1.log == w.log.push(
                Event::Victory,
            ).push(Event::Stopped) || w1.log == w.log.push(Event::Failure).push(Event::Stopped));
            lemma_count_push(w.log, Event::Stopped, Event::Victory);
            lemma_count_push(w.log, Event::Stopped, Event::Failure);
            lemma_count_push(w.log, Event::Victory, Event::Victory);
            lemma_count_push(w.log, Event::Victory, Event::Failure);
            lemma_count_push(w.log, Event::Failure, Event::Victory);
            lemma_count_push(w.log, Event::Failure, Event::Failure);
            lemma_count_push(w.log.push(Event::Victory), Event::Stopped, Event::Victory);
            lemma_count_push(w.log.push(Event::Victory), Event::Stopped, Event::Failure);
            lemma_count_push(w.log.push(Event::Failure), Event::Stopped, Event::Victory);
            lemma_count_push(w.log.push(Event::Failure), Event::Stopped, Event::Failure);
            lemma_idle_quiescent(w1, ops.drop_first());
        }
    }
}

/// Law: over every serialized operation sequence, the charge part's power
/// stays strictly inside the open interval at every point at which the part
/// is active.
pub proof fn lemma_charge_power_in_bounds(w: WorldView, ops: Seq<Op>, i: int)
    requires
        wf(w),
        0 <= i <= ops.len(),
    ensures
        ({
            let wi = run(w, ops.take(i));
            wi.charge.active ==> wi.charge.low < wi.charge.power < wi.charge.high
        }),
{
    lemma_run_preserves_wf(w, ops.take(i));
}

/// Law: the first drain tick that would take the power to the lower bound or
/// below delivers exactly one failure, forwarded into exactly one stop, and
/// marks the part ended with the breaching level stored; no later operation
/// of the session mutates the power again.
pub proof fn lemma_charge_drain_breach_fails_once(w: WorldView, later: Seq<Op>)
    requires
        wf(w),
        running(w),
        w.charge.power - w.charge.rate <= w.charge.low,
        forall|i: int| 0 <= i < later.len() ==> !(later[i] is EmitStarted),
    ensures
        ({
            let w1 = step(w, Op::DrainTick);
            &&& w1.log == w.log.push(Event::Failure).push(Event::Stopped)
            &&& w1.charge.ended
            &&& w1.charge.power == w.charge.power - w.charge.rate
            &&& !running(w1)
            &&& run(w1, later).charge.power == w1.charge.power
            &&& count_of(run(w1, later).log, Event::Failure) == count_of(w.log, Event::Failure)
                + 1
        }),
{
    let w1 = step(w, Op::DrainTick);
    lemma_step_preserves_wf(w, Op::DrainTick);
    lemma_count_push(w.log, Event::Failure, Event::Failure);
    lemma_count_push(w.log.push(Event::Failure), Event::Stopped, Event::Failure);
    lemma_idle_quiescent(w1, later);
}

/// Law: the first charge tick that would take the power to the upper bound
/// or beyond delivers exactly one failure, forwarded into exactly one stop,
/// and marks the part ended with the breaching level stored; no later
/// operation of the session mutates the power again.
pub proof fn lemma_charge_rise_breach_fails_once(w: WorldView, later: Seq<Op>)
    requires
        wf(w),
        running(w),
        w.charge.charging,
        w.charge.power + w.charge.rate >= w.charge.high,
        forall|i: int| 0 <= i < later.len() ==> !(later[i] is EmitStarted),
    ensures
        ({
            let w1 = step(w, Op::ChargeTick);
            &&& w1.log == w.log.push(Event::Failure).push(Event::Stopped)
            &&& w1.charge.ended
            &&& w1.charge.power == w.charge.power + w.charge.rate
            &&& !running(w1)
            &&& run(w1, later).charge.power == w1.charge.power
            &&& count_of(run(w1, later).log, Event::Failure) == count_of(w.log, Event::Failure)
                + 1
        }),
{
    let w1 = step(w, Op::ChargeTick);
    lemma_step_preserves_wf(w, Op::ChargeTick);
    lemma_count_push(w.log, Event::Failure, Event::Failure);
    lemma_count_push(w.log.push(Event::Failure), Event::Stopped, Event::Failure);
    lemma_idle_quiescent(w1, later);
}

/// The serialized operations of one interval of the timed button: if the
/// player fed the part this interval, a press of its required key, then the
/// interval tick.
pub open spec fn timed_interval_ops(key: u32, fed: bool) -> Seq<Op> {
    if fed {
        seq![
            Op::TimedKey { keycode: key, is_pressed: true, is_echo: false },
            Op::TimedTick,
        ]
    } else {
        seq![Op::TimedTick]
    }
}

/// The serialized operations of a run of timed-button intervals.
pub open spec fn timed_session_ops(key: u32, intervals: Seq<bool>) -> Seq<Op>
    decreases intervals.len(),
{
    if intervals.len() == 0 {
        Seq::empty()
    } else {
        timed_interval_ops(key, intervals[0]) + timed_session_ops(key, intervals.drop_first())
    }
}

/// Law: if the required key is pressed at least once in every interval while
/// the timed button is active, no event is ever delivered — the world after
/// any such run of intervals is exactly the world before it.
pub proof fn lemma_timed_button_fed_never_fails(w: WorldView, intervals: Seq<bool>)
    requires
        wf(w),
        running(w),
        !w.timed.pressed,
        forall|i: int| 0 <= i < intervals.len() ==> intervals[i],
    ensures
        run(w, timed_session_ops(w.timed.required_key, intervals)) == w,
    decreases intervals.len(),
{
    let key = w.timed.required_key;
    if intervals.len() > 0 {
        let head = timed_interval_ops(key, intervals[0]);
        let tail = timed_session_ops(key, intervals.drop_first());
        lemma_run_append(w, head, tail);
        assert(run(w, head) == w) by {
            let press = Op::TimedKey { keycode: key, is_pressed: true, is_echo: false };
            let w1 = step(w, press);
            let w2 = step(w1, Op::TimedTick);
            assert(head[0] == press);
            assert(head.drop_first() =~= seq![Op::TimedTick]);
            assert(run(w, head) == run(w1, seq![Op::TimedTick]));
            assert(seq![Op::TimedTick].drop_first() =~= Seq::<Op>::empty());
            assert(run(w1, seq![Op::TimedTick]) == run(w2, Seq::<Op>::empty()));
            assert(run(w2, Seq::<Op>::empty()) == w2);
            assert(w2 =~= w);
        }
        assert(forall|i: int|
            0 <= i < intervals.drop_first().len() ==> #[trigger] intervals.drop_first()[i]) by {
            assert(forall|i: int|
                0 <= i < intervals.drop_first().len() ==> intervals.drop_first()[i] == intervals[i
                    + 1]);
        }
        lemma_timed_button_fed_never_fails(w, intervals.drop_first());
    }
}

/// Law: an interval in which the required key was never pressed delivers
/// exactly one failure at that interval's boundary, forwarded into exactly
/// one stop — and never a second failure, however many stale ticks or other
/// operations follow before the next session.
pub proof fn lemma_timed_button_missed_interval_fails_once(w: WorldView, later: Seq<Op>)
    requires
        wf(w),
        running(w),
        !w.timed.pressed,
        forall|i: int| 0 <= i < later.len() ==> !(later[i] is EmitStarted),
    ensures
        ({
            let w1 = step(w, Op::TimedTick);
            &&& w1.log == w.log.push(Event::Failure).push(Event::Stopped)
            &&& !running(w1)
            &&& !w1.timed.active
            &&& count_of(run(w1, later).log, Event::Failure) == count_of(w.log, Event::Failure)
                + 1
        }),
{
    let w1 = step(w, Op::TimedTick);
    lemma_step_preserves_wf(w, Op::TimedTick);
    lemma_count_push(w.log, Event::Failure, Event::Failure);
    lemma_count_push(w.log.push(Event::Failure), Event::Stopped, Event::Failure);
    lemma_idle_quiescent(w1, later);
}

/// Law: a start event emitted into an idle world arms exactly one countdown
/// instance, activates every part, and delivers exactly the start event.
pub proof fn lemma_started_arms_countdown(w: WorldView)
    requires
        wf(w),
        !running(w),
    ensures
        ({
            let w1 = step(w, Op::EmitStarted);
            &&& w1.controller.countdown_armed
            &&& running(w1)
            &&& w1.log == w.log.push(Event::Started)
            &&& w1.timed.active
            &&& w1.charge.active
            &&& w1.charge.power == w.charge.default_power
            &&& w1.scale.active
            &&& w1.hold.delay_armed
        }),
{
}

/// Law: a stop emitted before the countdown expires cancels and releases it,
/// and no victory is ever delivered afterwards — a stale expiry of the
/// cancelled countdown is ignored, as is everything else until the next
/// session.
pub proof fn lemma_stopped_cancels_countdown(w: WorldView, later: Seq<Op>)
    requires
        wf(w),
        running(w),
        forall|i: int| 0 <= i < later.len() ==> !(later[i] is EmitStarted),
    ensures
        ({
            let w1 = step(w, Op::EmitStopped);
            &&& !w1.controller.countdown_armed
            &&& w1.log == w.log.push(Event::Stopped)
            &&& count_of(run(w1, later).log, Event::Victory) == count_of(w.log, Event::Victory)
        }),
{
    let w1 = step(w, Op::EmitStopped);
    lemma_step_preserves_wf(w, Op::EmitStopped);
    lemma_count_push(w.log, Event::Stopped, Event::Victory);
    lemma_idle_quiescent(w1, later);
}

/// Law: an armed countdown that expires with no intervening stop delivers
/// exactly one victory followed by exactly one resulting stop, and nothing
/// further until the next session.
pub proof fn lemma_countdown_expiry_wins_once(w: WorldView, later: Seq<Op>)
    requires
        wf(w),
        running(w),
        forall|i: int| 0 <= i < later.len() ==> !(later[i] is EmitStarted),
    ensures
        ({
            let w1 = step(w, Op::CountdownTimeout);
            &&& w1.log == w.log.push(Event::Victory).push(Event::Stopped)
            &&& !running(w1)
            &&& !w1.controller.countdown_armed
            &&& count_of(run(w1, later).log, Event::Victory) == count_of(w.log, Event::Victory)
                + 1
        }),
{
    let w1 = step(w, Op::CountdownTimeout);
    lemma_step_preserves_wf(w, Op::CountdownTimeout);
    lemma_count_push(w.log, Event::Victory, Event::Victory);
    lemma_count_push(w.log.push(Event::Victory), Event::Stopped, Event::Victory);
    lemma_idle_quiescent(w1, later);
}

/// Running a single operation is stepping it.
pub proof fn lemma_run_one(w: WorldView, op: Op)
    ensures
        run(w, seq![op]) == step(w, op),
{
    assert(seq![op].drop_first() =~= Seq::<Op>::empty());
    assert(run(step(w, op), Seq::<Op>::empty()) == step(w, op));
}

/// The serialized operations of a run of simulation steps that all sample
/// the hold part's key as held, at the given times.
pub open spec fn hold_step_ops(times: Seq<u64>) -> Seq<Op>
    decreases times.len(),
{
    if times.len() == 0 {
        Seq::empty()
    } else {
        seq![Op::HoldStep { held: true, now_ms: times[0] }] + hold_step_ops(times.drop_first())
    }
}

/// Simulation steps do nothing while the hold part is in its waiting phase.
proof fn lemma_hold_steps_noop_when_waiting(w: WorldView, times: Seq<u64>)
    requires
        w.hold.phase is Waiting,
    ensures
        run(w, hold_step_ops(times)) == w,
    decreases times.len(),
{
    if times.len() > 0 {
        let op = Op::HoldStep { held: true, now_ms: times[0] };
        lemma_run_append(w, seq![op], hold_step_ops(times.drop_first()));
        lemma_run_one(w, op);
        assert(step(w, op) =~= w);
        lemma_hold_steps_noop_when_waiting(w, times.drop_first());
    }
}

/// Once a press is in progress, sustaining it until the required duration is
/// reached wins the round: the part returns to waiting with a fresh delay
/// pending and no event is delivered.
proof fn lemma_hold_sustained_helper(w: WorldView, times: Seq<u64>)
    requires
        wf(w),
        running(w),
        w.hold.phase is Armed,
        w.hold.pressed,
        forall|i: int, j: int| 0 <= i <= j < times.len() ==> times[i] <= times[j],
        times.len() >= 1,
        times.last() >= w.hold.press_start_ms + w.hold.hold_required_ms,
    ensures
        run(w, hold_step_ops(times)) == (WorldView { hold: w.hold.started_spec(), ..w }),
    decreases times.len(),
{
    let t = times[0];
    let op = Op::HoldStep { held: true, now_ms: t };
    let w1 = step(w, op);
    lemma_run_append(w, seq![op], hold_step_ops(times.drop_first()));
    lemma_run_one(w, op);
    if w.hold.held_for(t) >= w.hold.hold_required_ms {
        assert(w1 =~= (WorldView { hold: w.hold.started_spec(), ..w }));
        lemma_hold_steps_noop_when_waiting(w1, times.drop_first());
    } else {
        assert(w1 =~= w);
        assert(times.len() >= 2);
        assert(times.drop_first().last() == times.last());
        assert(forall|i: int, j: int|
            0 <= i <= j < times.drop_first().len() ==> #[trigger] times.drop_first()[i]
                <= #[trigger] times.drop_first()[j]) by {
            assert(forall|i: int|
                0 <= i < times.drop_first().len() ==> times.drop_first()[i] == times[i + 1]);
        }
        lemma_hold_sustained_helper(w, times.drop_first());
    }
}

/// Law: while the hold part is armed, pressing its key and holding it
/// continuously until the required duration has passed wins the round with
/// zero failures: no event at all is delivered, and the part is back in its
/// waiting phase with a fresh random delay pending. The times are the
/// nondecreasing sample times of the per-frame steps, the first being the
/// press begin; some step at or past the required duration completes the
/// hold.
pub proof fn lemma_hold_sustained_succeeds(w: WorldView, times: Seq<u64>)
    requires
        wf(w),
        running(w),
        w.hold.phase is Armed,
        !w.hold.pressed,
        forall|i: int, j: int| 0 <= i <= j < times.len() ==> times[i] <= times[j],
        times.len() >= 2,
        times.last() >= times[0] + w.hold.hold_required_ms,
    ensures
        ({
            let wn = run(w, hold_step_ops(times));
            &&& wn == (WorldView { hold: w.hold.started_spec(), ..w })
            &&& wn.log == w.log
            &&& wn.hold.phase is Waiting
            &&& wn.hold.delay_armed
            &&& running(wn)
        }),
{
    let t0 = times[0];
    let op = Op::HoldStep { held: true, now_ms: t0 };
    let w1 = step(w, op);
    lemma_run_append(w, seq![op], hold_step_ops(times.drop_first()));
    lemma_run_one(w, op);
    lemma_step_preserves_wf(w, op);
    assert(w1 =~= (WorldView {
        hold: (HoldAndRelease { pressed: true, press_start_ms: t0, ..w.hold }),
        ..w
    }));
    assert(times.drop_first().last() == times.last());
    assert(forall|i: int, j: int|
        0 <= i <= j < times.drop_first().len() ==> #[trigger] times.drop_first()[i]
            <= #[trigger] times.drop_first()[j]) by {
        assert(forall|i: int|
            0 <= i < times.drop_first().len() ==> times.drop_first()[i] == times[i + 1]);
    }
    lemma_hold_sustained_helper(w1, times.drop_first());
    assert(w1.hold.started_spec() == w.hold.started_spec());
}

/// Law: releasing the key while a press is in progress and the required
/// duration has not yet been credited delivers exactly one failure,
/// forwarded into exactly one stop — and no further failure until the next
/// session, however many stale callbacks follow.
pub proof fn lemma_hold_release_fails_once(w: WorldView, now_ms: u64, later: Seq<Op>)
    requires
        wf(w),
        running(w),
        w.hold.phase is Armed,
        w.hold.pressed,
        forall|i: int| 0 <= i < later.len() ==> !(later[i] is EmitStarted),
    ensures
        ({
            let w1 = step(w, Op::HoldStep { held: false, now_ms });
            &&& w1.log == w.log.push(Event::Failure).push(Event::Stopped)
            &&& !running(w1)
            &&& count_of(run(w1, later).log, Event::Failure) == count_of(w.log, Event::Failure)
                + 1
        }),
{
    let op = Op::HoldStep { held: false, now_ms };
    let w1 = step(w, op);
    lemma_step_preserves_wf(w, op);
    lemma_count_push(w.log, Event::Failure, Event::Failure);
    lemma_count_push(w.log.push(Event::Failure), Event::Stopped, Event::Failure);
    lemma_idle_quiescent(w1, later);
}

/// Law: the bounded window expiring while the part is still armed — the
/// hold was not sustained in time — delivers exactly one failure, forwarded
/// into exactly one stop, and no further failure until the next session.
pub proof fn lemma_hold_window_expiry_fails_once(w: WorldView, later: Seq<Op>)
    requires
        wf(w),
        running(w),
        w.hold.phase is Armed,
        forall|i: int| 0 <= i < later.len() ==> !(later[i] is EmitStarted),
    ensures
        ({
            let w1 = step(w, Op::HoldWindowTimeout);
            &&& w1.log == w.log.push(Event::Failure).push(Event::Stopped)
            &&& !running(w1)
            &&& count_of(run(w1, later).log, Event::Failure) == count_of(w.log, Event::Failure)
                + 1
        }),
{
    let w1 = step(w, Op::HoldWindowTimeout);
    lemma_step_preserves_wf(w, Op::HoldWindowTimeout);
    lemma_count_push(w.log, Event::Failure, Event::Failure);
    lemma_count_push(w.log.push(Event::Failure), Event::Stopped, Event::Failure);
    lemma_idle_quiescent(w1, later);
}

/// Law: a release observed by the step poll takes precedence over a
/// same-instant window expiry. The release raises the one failure of the
/// session and its cascade cancels the window timer, so the expiry callback
/// that runs right after it finds the part deactivated and is ignored:
/// exactly one failure is delivered, not two.
pub proof fn lemma_hold_release_precedes_window(w: WorldView, now_ms: u64)
    requires
        wf(w),
        running(w),
        w.hold.phase is Armed,
        w.hold.pressed,
    ensures
        ({
            let wn = run(w, seq![Op::HoldStep { held: false, now_ms }, Op::HoldWindowTimeout]);
            &&& wn.log == w.log.push(Event::Failure).push(Event::Stopped)
            &&& !running(wn)
        }),
{
    let release = Op::HoldStep { held: false, now_ms };
    let ops = seq![release, Op::HoldWindowTimeout];
    let w1 = step(w, release);
    let w2 = step(w1, Op::HoldWindowTimeout);
    assert(ops.drop_first() =~= seq![Op::HoldWindowTimeout]);
    assert(run(w, ops) == run(w1, seq![Op::HoldWindowTimeout]));
    lemma_run_one(w1, Op::HoldWindowTimeout);
    assert(w2 =~= w1);
}

/// Law: stop is idempotent. A second consecutive stop emission changes no
/// component state — no part is deactivated twice, no timer released twice —
/// and only records the redundant delivery in the log.
pub proof fn lemma_stop_idempotent(w: WorldView)
    requires
        wf(w),
    ensures
        ({
            let w1 = step(w, Op::EmitStopped);
            let w2 = step(w1, Op::EmitStopped);
            w2 == (WorldView { log: w1.log.push(Event::Stopped), ..w1 })
        }),
{
    let w1 = step(w, Op::EmitStopped);
    let w2 = step(w1, Op::EmitStopped);
    assert(w2 =~= (WorldView { log: w1.log.push(Event::Stopped), ..w1 }));
}

} // verus!
