//! The shared timer record, its mathematical model and its invariant.

use vstd::prelude::*;

verus! {

/// Seconds in the default 25-minute work session.
pub const DEFAULT_SESSION_SECS: u64 = 25 * 60;

/// Seconds of inactivity after which a running session pauses itself.
pub const IDLE_TIMEOUT_SECS: u64 = 120;

/// Phase code for a work session.
pub const PHASE_WORK: u8 = 0;

/// Phase code for a short break.
pub const PHASE_SHORT_BREAK: u8 = 1;

/// Phase code for a long break.
pub const PHASE_LONG_BREAK: u8 = 2;

/// The single shared timer record. One instance lives for the whole process;
/// commands and the tick step mutate it under exclusive access.
///
/// `loop_running`, `session_start_time` and `last_activity` are bookkeeping
/// the UI never sees: snapshots carry only the other fields.
pub struct TimerState {
    /// Seconds left in the current phase.
    pub remaining: u64,
    /// True while no tick loop should be decrementing `remaining`.
    pub paused: bool,
    /// Phase code: work, short break or long break.
    pub phase: u8,
    /// True while a session is in flight (started and not yet reset or done).
    pub task_active: bool,
    /// Name of the task being timed; `None` when idle.
    pub active_task_name: Option<String>,
    /// True while a tick loop is alive for this record; guards against a
    /// second loop being spawned for the same session.
    pub loop_running: bool,
    /// Seconds the current or most recent session was configured for.
    pub session_duration: u64,
    /// Epoch second the session started at; zero when idle.
    pub session_start_time: u64,
    /// Epoch second of the last recorded user activity.
    pub last_activity: u64,
}

/// Mathematical image of a [`TimerState`]: the same fields, with the task
/// name abstracted to its character sequence.
#[verifier::ext_equal]
pub ghost struct TimerModel {
    pub remaining: u64,
    pub paused: bool,
    pub phase: u8,
    pub task_active: bool,
    pub active_task_name: Option<Seq<char>>,
    pub loop_running: bool,
    pub session_duration: u64,
    pub session_start_time: u64,
    pub last_activity: u64,
}

impl View for TimerState {
    type V = TimerModel;

    open spec fn view(&self) -> TimerModel {
        TimerModel {
            remaining: self.remaining,
            paused: self.paused,
            phase: self.phase,
            task_active: self.task_active,
            active_task_name: match self.active_task_name {
                Some(name) => Some(name@),
                None => None,
            },
            loop_running: self.loop_running,
            session_duration: self.session_duration,
            session_start_time: self.session_start_time,
            last_activity: self.last_activity,
        }
    }
}

impl TimerModel {
    /// The state invariant. Every reachable state satisfies it: the countdown
    /// never exceeds the configured duration, the phase code is one of the
    /// three phases, and an idle timer carries no task name and is paused.
    pub open spec fn wf(self) -> bool {
        &&& self.remaining <= self.session_duration
        &&& self.phase <= PHASE_LONG_BREAK
        &&& !self.task_active ==> self.active_task_name is None
        &&& !self.task_active ==> self.paused
    }

    /// The task name as a character sequence, empty when none is set.
    pub open spec fn task_name_or_empty(self) -> Seq<char> {
        match self.active_task_name {
            Some(name) => name,
            None => Seq::empty(),
        }
    }

    /// Seconds of the session already spent: configured duration minus what
    /// is left on the clock.
    pub open spec fn elapsed(self) -> int {
        self.session_duration - self.remaining
    }

    /// True when tearing this state down owes the session log a completion
    /// record: a session is in flight under a non-empty task name and at
    /// least one second of it has elapsed.
    pub open spec fn finalizes(self) -> bool {
        &&& self.task_active
        &&& self.task_name_or_empty().len() > 0
        &&& self.elapsed() > 0
    }

    /// The externally visible image of this state.
    pub open spec fn snapshot_model(self) -> SnapshotModel {
        SnapshotModel {
            remaining: self.remaining,
            paused: self.paused,
            phase: self.phase,
            task_active: self.task_active,
            active_task_name: self.active_task_name,
            session_duration: self.session_duration,
        }
    }
}

/// The state a fresh timer is born in: idle, paused, default duration, no
/// task, with `last_activity` set to the creation instant.
pub open spec fn initial_model(now: u64) -> TimerModel {
    TimerModel {
        remaining: DEFAULT_SESSION_SECS,
        paused: true,
        phase: PHASE_WORK,
        task_active: false,
        active_task_name: None,
        loop_running: false,
        session_duration: DEFAULT_SESSION_SECS,
        session_start_time: 0,
        last_activity: now,
    }
}

/// An immutable copy of the externally visible timer fields, emitted to
/// observers on every tick and on every command that changes what they see.
/// `loop_running` and the two internal timestamps are deliberately absent.
pub struct Snapshot {
    pub remaining: u64,
    pub paused: bool,
    pub phase: u8,
    pub task_active: bool,
    pub active_task_name: Option<String>,
    pub session_duration: u64,
}

/// Mathematical image of a [`Snapshot`].
#[verifier::ext_equal]
pub ghost struct SnapshotModel {
    pub remaining: u64,
    pub paused: bool,
    pub phase: u8,
    pub task_active: bool,
    pub active_task_name: Option<Seq<char>>,
    pub session_duration: u64,
}

impl View for Snapshot {
    type V = SnapshotModel;

    open spec fn view(&self) -> SnapshotModel {
        SnapshotModel {
            remaining: self.remaining,
            paused: self.paused,
            phase: self.phase,
            task_active: self.task_active,
            active_task_name: match self.active_task_name {
                Some(name) => Some(name@),
                None => None,
            },
            session_duration: self.session_duration,
        }
    }
}

/// Copy an optional task name. `String` clones preserve the value exactly,
/// so the copy equals the original.
pub(crate) fn clone_task_name(name: &Option<String>) -> (r: Option<String>)
    ensures
        r == *name,
{
    match name {
        Some(n) => Some(n.clone()),
        None => None,
    }
}

impl TimerState {
    /// A fresh idle timer created at epoch second `now`.
    pub fn new(now: u64) -> (s: TimerState)
        ensures
            s@ == initial_model(now),
            s@.wf(),
    {
        TimerState {
            remaining: DEFAULT_SESSION_SECS,
            paused: true,
            phase: PHASE_WORK,
            task_active: false,
            active_task_name: None,
            loop_running: false,
            session_duration: DEFAULT_SESSION_SECS,
            session_start_time: 0,
            last_activity: now,
        }
    }

    /// Refresh the idle clock: records that the user was just seen, which
    /// holds off the idle auto-pause. Nothing else changes.
    pub fn record_activity(&mut self, now: u64)
        ensures
            final(self)@ == (TimerModel { last_activity: now, ..old(self)@ }),
    {
        self.last_activity = now;
    }

    /// An immutable copy of the externally visible fields.
    pub fn get_snapshot(&self) -> (s: Snapshot)
        ensures
            s@ == self@.snapshot_model(),
    {
        Snapshot {
            remaining: self.remaining,
            paused: self.paused,
            phase: self.phase,
            task_active: self.task_active,
            active_task_name: clone_task_name(&self.active_task_name),
            session_duration: self.session_duration,
        }
    }
}

impl Default for TimerState {
    /// A fresh idle timer stamped with the current wall-clock second.
    fn default() -> (s: TimerState)
        ensures
            s@ == initial_model(s@.last_activity),
            s@.wf(),
    {
        TimerState::new(crate::clock::now_secs())
    }
}

} // verus!
