//! The engine's guarantees, stated and proved over the transition functions.
//!
//! Every command and the tick step is pinned by its `ensures` to a spec-level
//! transition; the lemmas here say what those transitions guarantee across
//! whole runs: the state invariant holds in every reachable state, at most
//! one tick loop is ever asked for, the idle timeout pauses without losing
//! time, a session counts down to exactly zero and completes once, and a
//! pause/resume pair is a round trip.

use vstd::prelude::*;

use crate::control::{
    reset_state, start_spawns, start_state, toggle_entry, toggle_spawns, toggle_state,
};
use crate::log::{completion_entry, LogAction};
use crate::state::{initial_model, TimerModel};
use crate::tick::{idle_expired, run_ticks, tick_outcome, tick_state, TickOutcomeModel};

verus! {

/// A fresh timer satisfies the state invariant.
pub proof fn lemma_initial_wf(now: u64)
    ensures
        initial_model(now).wf(),
{
}

/// `start` leads to a well-formed state from any state: in particular the
/// countdown equals the configured duration, so it never exceeds it.
pub proof fn lemma_start_preserves_wf(name: Seq<char>, dur: u64, now: u64)
    ensures
        start_state(name, dur, now).wf(),
{
}

/// `pause_or_resume` preserves the state invariant.
pub proof fn lemma_toggle_preserves_wf(m: TimerModel, now: u64)
    requires
        m.wf(),
    ensures
        toggle_state(m, now).wf(),
{
}

/// `reset` leads to a well-formed state from any well-formed state.
pub proof fn lemma_reset_preserves_wf(m: TimerModel)
    requires
        m.wf(),
    ensures
        reset_state(m).wf(),
{
}

/// The tick step preserves the state invariant: in particular a decrement
/// keeps the countdown under the configured duration.
pub proof fn lemma_tick_preserves_wf(m: TimerModel, now: u64)
    requires
        m.wf(),
    ensures
        tick_state(m, now).wf(),
{
}

/// Any number of ticks preserves the state invariant.
pub proof fn lemma_run_ticks_preserves_wf(m: TimerModel, now: u64, k: nat)
    requires
        m.wf(),
    ensures
        run_ticks(m, now, k).wf(),
    decreases k,
{
    if k > 0 {
        lemma_tick_preserves_wf(m, now);
        lemma_run_ticks_preserves_wf(tick_state(m, now), now, (k - 1) as nat);
    }
}

/// `record_activity` preserves the state invariant: it only moves the idle
/// clock.
pub proof fn lemma_record_activity_preserves_wf(m: TimerModel, now: u64)
    requires
        m.wf(),
    ensures
        (TimerModel { last_activity: now, ..m }).wf(),
{
}

/// One step of the whole system: a user command or a tick of the loop.
pub ghost enum Step {
    Start { name: Seq<char>, dur: u64, now: u64 },
    PauseOrResume { now: u64 },
    Reset,
    RecordActivity { now: u64 },
    Tick { now: u64 },
}

/// The state transition each step performs, as the commands' and the tick's
/// contracts pin it.
pub open spec fn apply_step(m: TimerModel, s: Step) -> TimerModel {
    match s {
        Step::Start { name, dur, now } => start_state(name, dur, now),
        Step::PauseOrResume { now } => toggle_state(m, now),
        Step::Reset => reset_state(m),
        Step::RecordActivity { now } => TimerModel { last_activity: now, ..m },
        Step::Tick { now } => tick_state(m, now),
    }
}

/// The state after a whole run of steps, in order.
pub open spec fn run_steps(m: TimerModel, steps: Seq<Step>) -> TimerModel
    decreases steps.len(),
{
    if steps.len() == 0 {
        m
    } else {
        run_steps(apply_step(m, steps[0]), steps.drop_first())
    }
}

/// Every step preserves the state invariant.
pub proof fn lemma_step_preserves_wf(m: TimerModel, s: Step)
    requires
        m.wf(),
    ensures
        apply_step(m, s).wf(),
{
}

/// The state invariant holds in every reachable state: whatever interleaving
/// of commands and ticks runs from a fresh timer, the countdown never
/// exceeds the configured duration and an idle timer is consistent.
pub proof fn lemma_invariant_holds_in_reachable_states(now: u64, steps: Seq<Step>)
    ensures
        run_steps(initial_model(now), steps).wf(),
{
    lemma_wf_preserved_by_runs(initial_model(now), steps);
}

/// The invariant is preserved by any run of steps.
pub proof fn lemma_wf_preserved_by_runs(m: TimerModel, steps: Seq<Step>)
    requires
        m.wf(),
    ensures
        run_steps(m, steps).wf(),
    decreases steps.len(),
{
    if steps.len() > 0 {
        lemma_step_preserves_wf(m, steps[0]);
        lemma_wf_preserved_by_runs(apply_step(m, steps[0]), steps.drop_first());
    }
}

/// An idle timer carries no task name and is paused: in every well-formed
/// state, `task_active == false` implies `active_task_name == None` and
/// `paused == true`. With the preservation lemmas above, this holds of every
/// reachable state.
pub proof fn lemma_idle_state_consistent(m: TimerModel)
    requires
        m.wf(),
        !m.task_active,
    ensures
        m.active_task_name is None,
        m.paused,
{
}

/// At most one loop: a `start` claims the loop flag, so a second `start` on
/// its heels — the race of two racing commands — is never told to spawn, and
/// in general a command is told to spawn only when no loop was alive.
pub proof fn lemma_start_twice_spawns_once(
    m: TimerModel,
    name1: Seq<char>,
    dur1: u64,
    now1: u64,
)
    ensures
        start_spawns(m) ==> !m.loop_running,
        start_state(name1, dur1, now1).loop_running,
        !start_spawns(start_state(name1, dur1, now1)),
{
}

/// A resume is told to spawn only when no loop was alive, and it claims the
/// loop flag, so a second toggle cannot be told to spawn again.
pub proof fn lemma_toggle_spawns_only_without_loop(m: TimerModel, now: u64)
    ensures
        toggle_spawns(m) ==> !m.loop_running,
        toggle_spawns(m) ==> toggle_state(m, now).loop_running,
        toggle_spawns(m) ==> !toggle_spawns(toggle_state(m, now)),
{
}

/// A tick on a paused or reset timer only stops the loop: nothing is
/// emitted, nothing is decremented, the state is unchanged but for the loop
/// flag.
pub proof fn lemma_paused_tick_stops(m: TimerModel, now: u64)
    requires
        m.paused || !m.task_active,
    ensures
        tick_state(m, now) == (TimerModel { loop_running: false, ..m }),
        tick_outcome(m, now) is Stopped,
{
}

/// Idle auto-pause: when the last activity lies more than the idle timeout
/// in the past, the tick pauses the timer and stops the loop without taking
/// a second off the countdown, and every further tick leaves the countdown
/// alone.
pub proof fn lemma_idle_tick_auto_pauses(m: TimerModel, now: u64, later: u64)
    requires
        m.wf(),
        !m.paused,
        m.task_active,
        idle_expired(m, now),
    ensures
        tick_state(m, now).paused,
        !tick_state(m, now).loop_running,
        tick_state(m, now).remaining == m.remaining,
        tick_outcome(m, now) is IdlePaused,
        tick_state(tick_state(m, now), later).remaining == m.remaining,
        tick_outcome(tick_state(m, now), later) is Stopped,
{
}

/// A running, non-idle session counts down one second per tick: after `k`
/// ticks, `k` seconds came off the countdown and nothing else changed.
pub proof fn lemma_countdown(m: TimerModel, now: u64, k: nat)
    requires
        m.wf(),
        !m.paused,
        m.task_active,
        !idle_expired(m, now),
        k <= m.remaining,
    ensures
        run_ticks(m, now, k) == (TimerModel { remaining: (m.remaining - k) as u64, ..m }),
    decreases k,
{
    if k > 0 {
        lemma_countdown(tick_state(m, now), now, (k - 1) as nat);
        assert(run_ticks(tick_state(m, now), now, (k - 1) as nat) =~= (TimerModel {
            remaining: (m.remaining - k) as u64,
            ..m
        }));
    }
}

/// End to end: a running, non-idle session reaches zero after exactly
/// `remaining` ticks, and the tick after that completes it — exactly one
/// completion record, crediting the full configured duration under the
/// session's task name and phase, one phase-keyed notification, and a
/// paused idle state with no task and no loop.
pub proof fn lemma_session_completes(m: TimerModel, now: u64)
    requires
        m.wf(),
        !m.paused,
        m.task_active,
        !idle_expired(m, now),
    ensures
        run_ticks(m, now, m.remaining as nat).remaining == 0,
        run_ticks(m, now, m.remaining as nat).task_active,
        tick_outcome(run_ticks(m, now, m.remaining as nat), now)
            == TickOutcomeModel::Completed(
            completion_entry(run_ticks(m, now, m.remaining as nat)),
            crate::log::completion_notification(m.phase),
        ),
        completion_entry(run_ticks(m, now, m.remaining as nat)).elapsed == m.session_duration,
        completion_entry(run_ticks(m, now, m.remaining as nat)).task_name
            == m.task_name_or_empty(),
        completion_entry(run_ticks(m, now, m.remaining as nat)).action == LogAction::Complete,
        !tick_state(run_ticks(m, now, m.remaining as nat), now).task_active,
        tick_state(run_ticks(m, now, m.remaining as nat), now).active_task_name is None,
        !tick_state(run_ticks(m, now, m.remaining as nat), now).loop_running,
        tick_state(run_ticks(m, now, m.remaining as nat), now).paused,
{
    lemma_countdown(m, now, m.remaining as nat);
}

/// Pause/resume round trip: pausing a running session, letting the loop
/// observe the pause and stop, then resuming restores the state exactly; the
/// two records are a pause then a resume, and only the resume asks for a
/// loop.
pub proof fn lemma_pause_resume_round_trip(m: TimerModel, now1: u64, tnow: u64, now2: u64)
    requires
        m.wf(),
        m.task_active,
        !m.paused,
        m.remaining > 0,
        m.loop_running,
    ensures
        toggle_entry(m).action == LogAction::Pause,
        !toggle_spawns(m),
        toggle_state(m, now1).paused,
        tick_outcome(toggle_state(m, now1), tnow) is Stopped,
        toggle_entry(tick_state(toggle_state(m, now1), tnow)).action == LogAction::Resume,
        toggle_spawns(tick_state(toggle_state(m, now1), tnow)),
        toggle_state(tick_state(toggle_state(m, now1), tnow), now2) == m,
{
    let paused_state = toggle_state(m, now1);
    let stopped = tick_state(paused_state, tnow);
    assert(toggle_state(stopped, now2) =~= m);
}

} // verus!
