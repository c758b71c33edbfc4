//! The once-per-second tick step of the background loop.
//!
//! The host spawns one loop per transition into "running"; each second the
//! loop calls [`TimerState::tick`] under exclusive access and acts on the
//! outcome. Exactly one of four things happens per tick, checked strictly in
//! this order: the loop learns it must stop (the timer was paused or reset
//! from outside), the idle timeout fires, the countdown decrements, or the
//! session completes. On any outcome but a plain decrement the loop is over:
//! resuming later spawns a fresh one.

use vstd::prelude::*;

use crate::log::{
    completion_entry, completion_notification, LogEntry, LogEntryModel, Notification,
    NotificationModel,
};
use crate::state::{Snapshot, SnapshotModel, TimerModel, TimerState, IDLE_TIMEOUT_SECS};

verus! {

/// What a tick did, and what the host owes for it.
pub enum TickOutcome {
    /// The timer was paused or reset from outside: the loop stops, nothing
    /// is emitted.
    Stopped,
    /// No user activity for longer than the idle timeout: the timer paused
    /// itself and the loop stops. The snapshot must still be emitted so the
    /// auto-pause looks like any other pause to observers.
    IdlePaused(Snapshot),
    /// The steady state: one second came off the countdown; emit the
    /// snapshot, the loop goes on.
    Ticked(Snapshot),
    /// The countdown hit zero on an earlier tick: the session is over and
    /// the timer is left paused and idle. The loop stops; the host appends
    /// the completion record and shows the notification, both best-effort.
    Completed(LogEntry, Notification),
}

/// Mathematical image of a [`TickOutcome`].
#[verifier::ext_equal]
pub ghost enum TickOutcomeModel {
    Stopped,
    IdlePaused(SnapshotModel),
    Ticked(SnapshotModel),
    Completed(LogEntryModel, NotificationModel),
}

impl View for TickOutcome {
    type V = TickOutcomeModel;

    open spec fn view(&self) -> TickOutcomeModel {
        match self {
            TickOutcome::Stopped => TickOutcomeModel::Stopped,
            TickOutcome::IdlePaused(s) => TickOutcomeModel::IdlePaused(s@),
            TickOutcome::Ticked(s) => TickOutcomeModel::Ticked(s@),
            TickOutcome::Completed(e, n) => TickOutcomeModel::Completed(e@, n@),
        }
    }
}

/// True when, at instant `now`, the last recorded activity lies more than
/// the idle timeout in the past.
pub open spec fn idle_expired(m: TimerModel, now: u64) -> bool {
    now > m.last_activity + IDLE_TIMEOUT_SECS
}

/// State after one tick at instant `now`, following the four-way check.
pub open spec fn tick_state(m: TimerModel, now: u64) -> TimerModel {
    if m.paused || !m.task_active {
        TimerModel { loop_running: false, ..m }
    } else if idle_expired(m, now) {
        TimerModel { paused: true, loop_running: false, ..m }
    } else if m.remaining > 0 {
        TimerModel { remaining: (m.remaining - 1) as u64, ..m }
    } else {
        TimerModel {
            paused: true,
            task_active: false,
            active_task_name: None,
            loop_running: false,
            ..m
        }
    }
}

/// Outcome of one tick at instant `now`. A completed session is credited
/// with its full configured duration (the countdown is zero, so that equals
/// the elapsed time) and announced with the phase-keyed notification.
pub open spec fn tick_outcome(m: TimerModel, now: u64) -> TickOutcomeModel {
    if m.paused || !m.task_active {
        TickOutcomeModel::Stopped
    } else if idle_expired(m, now) {
        TickOutcomeModel::IdlePaused(tick_state(m, now).snapshot_model())
    } else if m.remaining > 0 {
        TickOutcomeModel::Ticked(tick_state(m, now).snapshot_model())
    } else {
        TickOutcomeModel::Completed(completion_entry(m), completion_notification(m.phase))
    }
}

impl TimerState {
    /// One tick at instant `now`: exactly one of stop, idle auto-pause,
    /// decrement or completion, decided in that order. The loop flag is
    /// cleared on every outcome that ends the loop, in the same transition,
    /// so a resume that follows can spawn a fresh loop and no second loop
    /// ever runs beside a live one.
    pub fn tick(&mut self, now: u64) -> (out: TickOutcome)
        requires
            old(self)@.wf(),
        ensures
            final(self)@ == tick_state(old(self)@, now),
            final(self)@.wf(),
            out@ == tick_outcome(old(self)@, now),
    {
        if self.paused || !self.task_active {
            self.loop_running = false;
            TickOutcome::Stopped
        } else if now > self.last_activity && now - self.last_activity > IDLE_TIMEOUT_SECS {
            self.paused = true;
            self.loop_running = false;
            TickOutcome::IdlePaused(self.get_snapshot())
        } else if self.remaining > 0 {
            self.remaining = self.remaining - 1;
            TickOutcome::Ticked(self.get_snapshot())
        } else {
            let name = match crate::state::clone_task_name(&self.active_task_name) {
                Some(n) => n,
                None => String::new(),
            };
            let phase = self.phase;
            let duration = self.session_duration;
            self.paused = true;
            self.task_active = false;
            self.active_task_name = None;
            self.loop_running = false;

            let entry = LogEntry {
                task_name: name,
                action: crate::log::LogAction::Complete,
                elapsed: duration,
                phase,
            };
            let notification = crate::log::make_completion_notification(phase);
            TickOutcome::Completed(entry, notification)
        }
    }
}

/// The state after `k` ticks in a row, all at instant `now`.
pub open spec fn run_ticks(m: TimerModel, now: u64, k: nat) -> TimerModel
    decreases k,
{
    if k == 0 {
        m
    } else {
        run_ticks(tick_state(m, now), now, (k - 1) as nat)
    }
}

} // verus!
