//! The command surface: start, pause/resume and reset.
//!
//! Each command is a pure transition on [`TimerState`]. It returns the
//! effects the host must perform, in order: session-log records to append,
//! whether to spawn a fresh tick loop, and the snapshot to emit. The
//! decision to spawn and the setting of `loop_running` happen in the same
//! transition, so two racing commands can never both be told to spawn.

use vstd::prelude::*;

use crate::log::{completion_entry, log_views, LogAction, LogEntry, LogEntryModel};
use crate::state::{Snapshot, TimerModel, TimerState, PHASE_WORK};

verus! {

/// Effects of a `start` command, to be performed in field order: append the
/// log records, spawn a tick loop if asked to, emit the snapshot.
pub struct StartEffects {
    /// Records to append: a completion record for the previous session when
    /// one is owed, then always the start record of the new session.
    pub log: Vec<LogEntry>,
    /// True when the caller must spawn a tick loop; false means one is
    /// already alive and will pick up the new session.
    pub spawn_loop: bool,
    /// Snapshot of the state after the command, to emit immediately.
    pub snapshot: Snapshot,
}

/// Effects of a `pause_or_resume` command, performed in field order.
pub struct ToggleEffects {
    /// The pause or resume record to append.
    pub entry: LogEntry,
    /// True when the caller must spawn a tick loop (a resume with time left
    /// and no loop alive).
    pub spawn_loop: bool,
    /// Snapshot of the state after the command; emitting it makes a pause
    /// visible before the loop notices it.
    pub snapshot: Snapshot,
}

/// Effects of a `reset` command, performed in field order.
pub struct ResetEffects {
    /// Completion record crediting the partial session, when one is owed.
    pub completion: Option<LogEntry>,
    /// Snapshot of the cleared state, to emit immediately.
    pub snapshot: Snapshot,
}

/// The configured duration in seconds: the given minutes, defaulting to 25,
/// times 60.
pub open spec fn duration_secs(duration_minutes: Option<u64>) -> int {
    (match duration_minutes {
        Some(m) => m,
        None => 25,
    }) * 60
}

/// State after `start(name, ...)` at instant `now` with `dur` seconds on the
/// clock: a fresh unpaused work session for `name`, with the loop flag set.
pub open spec fn start_state(name: Seq<char>, dur: u64, now: u64) -> TimerModel {
    TimerModel {
        remaining: dur,
        paused: false,
        phase: PHASE_WORK,
        task_active: true,
        active_task_name: Some(name),
        loop_running: true,
        session_duration: dur,
        session_start_time: now,
        last_activity: now,
    }
}

/// Records `start` appends: a completion record finalizing the previous
/// session when one is owed, then the start record of the new session. The
/// start record is tagged with zero elapsed seconds and the work phase.
pub open spec fn start_log(m: TimerModel, name: Seq<char>) -> Seq<LogEntryModel> {
    let started = LogEntryModel {
        task_name: name,
        action: LogAction::Start,
        elapsed: 0,
        phase: PHASE_WORK,
    };
    if m.finalizes() {
        seq![completion_entry(m), started]
    } else {
        seq![started]
    }
}

/// `start` asks for a loop exactly when none was alive.
pub open spec fn start_spawns(m: TimerModel) -> bool {
    !m.loop_running
}

/// State after `pause_or_resume` at instant `now`: an idle timer with time
/// left is first reactivated, the pause flag flips, and a resume with time
/// left claims the loop flag when no loop was alive. An idle timer with
/// nothing left to resume (countdown at zero) stays paused: an idle timer is
/// always paused.
pub open spec fn toggle_state(m: TimerModel, now: u64) -> TimerModel {
    let awake = if !m.task_active && m.remaining > 0 {
        TimerModel { task_active: true, last_activity: now, ..m }
    } else {
        m
    };
    let flipped = TimerModel {
        paused: if awake.task_active {
            !m.paused
        } else {
            true
        },
        ..awake
    };
    if toggle_spawns(m) {
        TimerModel { loop_running: true, ..flipped }
    } else {
        flipped
    }
}

/// The record `pause_or_resume` appends: a resume when the timer was paused,
/// a pause otherwise, tagged with the task name and current phase.
pub open spec fn toggle_entry(m: TimerModel) -> LogEntryModel {
    LogEntryModel {
        task_name: m.task_name_or_empty(),
        action: if m.paused {
            LogAction::Resume
        } else {
            LogAction::Pause
        },
        elapsed: 0,
        phase: m.phase,
    }
}

/// `pause_or_resume` asks for a loop exactly when it resumes a session with
/// time still on the clock and no loop alive. (After the flip the timer is
/// unpaused and active: an idle timer with time left was reactivated.)
pub open spec fn toggle_spawns(m: TimerModel) -> bool {
    m.paused && m.remaining > 0 && !m.loop_running
}

/// State after `reset`: idle and paused, the countdown wound back to the
/// configured duration (which is preserved, not reset to the default), no
/// task, no loop.
pub open spec fn reset_state(m: TimerModel) -> TimerModel {
    TimerModel {
        remaining: m.session_duration,
        paused: true,
        phase: PHASE_WORK,
        task_active: false,
        active_task_name: None,
        loop_running: false,
        session_start_time: 0,
        ..m
    }
}

/// The record `reset` appends: a completion record crediting the elapsed
/// seconds, exactly when one is owed.
pub open spec fn reset_completion(m: TimerModel) -> Option<LogEntryModel> {
    if m.finalizes() {
        Some(completion_entry(m))
    } else {
        None
    }
}

impl TimerState {
    /// The completion record finalizing the session in flight, if one is
    /// owed: the task is named, and at least one second has elapsed.
    fn finalize_entry(&self) -> (r: Option<LogEntry>)
        requires
            self@.wf(),
        ensures
            self@.finalizes() ==> r is Some && r.unwrap()@ == completion_entry(self@),
            !self@.finalizes() ==> r is None,
    {
        if self.task_active {
            let name = match crate::state::clone_task_name(&self.active_task_name) {
                Some(n) => n,
                None => String::new(),
            };
            if !name.as_str().is_empty() && self.session_duration > self.remaining {
                Some(LogEntry {
                    task_name: name,
                    action: LogAction::Complete,
                    elapsed: self.session_duration - self.remaining,
                    phase: self.phase,
                })
            } else {
                None
            }
        } else {
            None
        }
    }

    /// Start a session of `duration_minutes` (default 25) for `task_name` at
    /// instant `now`.
    ///
    /// A session still in flight is silently finalized first: its completion
    /// record precedes the new session's start record in the returned log.
    /// The state becomes a fresh unpaused work session. A tick loop is
    /// requested exactly when none was alive, and the loop flag is claimed in
    /// the same transition, so a second `start` on its heels is never told to
    /// spawn again.
    pub fn start(&mut self, task_name: String, duration_minutes: Option<u64>, now: u64) -> (eff:
        StartEffects)
        requires
            old(self)@.wf(),
            duration_secs(duration_minutes) <= u64::MAX,
        ensures
            final(self)@ == start_state(task_name@, duration_secs(duration_minutes) as u64, now),
            final(self)@.wf(),
            log_views(eff.log@) == start_log(old(self)@, task_name@),
            eff.spawn_loop == start_spawns(old(self)@),
            eff.snapshot@ == final(self)@.snapshot_model(),
    {
        let mut log: Vec<LogEntry> = Vec::new();
        match self.finalize_entry() {
            Some(entry) => log.push(entry),
            None => (),
        }

        let was_running = self.loop_running;
        let dur = match duration_minutes {
            Some(m) => m,
            None => 25,
        } * 60;
        self.remaining = dur;
        self.session_duration = dur;
        self.session_start_time = now;
        self.last_activity = now;
        self.paused = false;
        self.phase = PHASE_WORK;
        self.task_active = true;
        self.active_task_name = Some(task_name.clone());
        self.loop_running = true;

        log.push(LogEntry { task_name, action: LogAction::Start, elapsed: 0, phase: PHASE_WORK });

        let snapshot = self.get_snapshot();
        proof {
            assert(log_views(log@) =~= start_log(old(self)@, task_name@));
        }
        StartEffects { log, spawn_loop: !was_running, snapshot }
    }

    /// Flip between paused and running at instant `now`.
    ///
    /// The pause or resume record is decided by the state before the flip. An
    /// idle timer with time left is reactivated by a resume; one with nothing
    /// left to resume stays paused and idle. A tick loop is requested exactly
    /// when the timer resumes with time on the clock and no loop alive; the
    /// loop flag is claimed in the same transition.
    pub fn pause_or_resume(&mut self, now: u64) -> (eff: ToggleEffects)
        requires
            old(self)@.wf(),
        ensures
            final(self)@ == toggle_state(old(self)@, now),
            final(self)@.wf(),
            eff.entry@ == toggle_entry(old(self)@),
            eff.spawn_loop == toggle_spawns(old(self)@),
            eff.snapshot@ == final(self)@.snapshot_model(),
    {
        let name = match crate::state::clone_task_name(&self.active_task_name) {
            Some(n) => n,
            None => String::new(),
        };
        let entry = LogEntry {
            task_name: name,
            action: if self.paused {
                LogAction::Resume
            } else {
                LogAction::Pause
            },
            elapsed: 0,
            phase: self.phase,
        };

        if !self.task_active && self.remaining > 0 {
            self.task_active = true;
            self.last_activity = now;
        }
        if self.task_active {
            self.paused = !self.paused;
        } else {
            self.paused = true;
        }

        let spawn_loop = !self.paused && self.task_active && self.remaining > 0
            && !self.loop_running;
        if spawn_loop {
            self.loop_running = true;
        }

        let snapshot = self.get_snapshot();
        ToggleEffects { entry, spawn_loop, snapshot }
    }

    /// Stop the session and return to idle.
    ///
    /// A session in flight under a non-empty name with elapsed time is
    /// credited with a completion record. The countdown winds back to the
    /// configured duration, which is preserved for the next session; the
    /// timer ends paused, with no task and no loop.
    pub fn reset(&mut self) -> (eff: ResetEffects)
        requires
            old(self)@.wf(),
        ensures
            final(self)@ == reset_state(old(self)@),
            final(self)@.wf(),
            match eff.completion {
                Some(entry) => reset_completion(old(self)@) == Some(entry@),
                None => reset_completion(old(self)@) is None,
            },
            eff.snapshot@ == final(self)@.snapshot_model(),
    {
        let completion = self.finalize_entry();

        self.remaining = self.session_duration;
        self.session_start_time = 0;
        self.paused = true;
        self.phase = PHASE_WORK;
        self.task_active = false;
        self.active_task_name = None;
        self.loop_running = false;

        let snapshot = self.get_snapshot();
        ResetEffects { completion, snapshot }
    }
}

} // verus!
