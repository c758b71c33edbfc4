//! Session-log records and completion notifications the engine asks its host
//! to write and show.

use vstd::prelude::*;

use crate::state::{TimerModel, PHASE_WORK};

verus! {

/// What a session-log record says happened.
#[derive(Clone, Copy, PartialEq, Eq, Structural, Debug)]
pub enum LogAction {
    /// A session was started.
    Start,
    /// A running session was paused (by the user or by the idle timeout).
    Pause,
    /// A paused session was resumed.
    Resume,
    /// A session finished, fully or partially; `elapsed` carries the credit.
    Complete,
}

/// One record the host must append to the session log.
#[derive(Clone, Debug)]
pub struct LogEntry {
    /// Task the record is about; empty when no task name was set.
    pub task_name: String,
    pub action: LogAction,
    /// Seconds credited to the session; zero for start/pause/resume records.
    pub elapsed: u64,
    /// Phase code the record is tagged with.
    pub phase: u8,
}

/// Mathematical image of a [`LogEntry`].
#[verifier::ext_equal]
pub ghost struct LogEntryModel {
    pub task_name: Seq<char>,
    pub action: LogAction,
    pub elapsed: u64,
    pub phase: u8,
}

impl View for LogEntry {
    type V = LogEntryModel;

    open spec fn view(&self) -> LogEntryModel {
        LogEntryModel {
            task_name: self.task_name@,
            action: self.action,
            elapsed: self.elapsed,
            phase: self.phase,
        }
    }
}

/// The images of a sequence of log entries, in order.
pub open spec fn log_views(entries: Seq<LogEntry>) -> Seq<LogEntryModel> {
    entries.map_values(|e: LogEntry| e@)
}

/// The completion record owed when state `m` is torn down: the task name it
/// was running (empty if none), the seconds it spent, and its phase.
pub open spec fn completion_entry(m: TimerModel) -> LogEntryModel {
    LogEntryModel {
        task_name: m.task_name_or_empty(),
        action: LogAction::Complete,
        elapsed: (m.session_duration - m.remaining) as u64,
        phase: m.phase,
    }
}

impl LogAction {
    /// The label a plain-text session log stores for this action.
    pub open spec fn spec_label(self) -> Seq<char> {
        match self {
            LogAction::Start => "start"@,
            LogAction::Pause => "pause"@,
            LogAction::Resume => "resume"@,
            LogAction::Complete => "complete"@,
        }
    }

    /// The label a plain-text session log stores for this action.
    pub fn label(&self) -> (r: &'static str)
        ensures
            r@ == self.spec_label(),
    {
        match self {
            LogAction::Start => "start",
            LogAction::Pause => "pause",
            LogAction::Resume => "resume",
            LogAction::Complete => "complete",
        }
    }
}

/// A desktop notification the host should show, fire-and-forget.
#[derive(Clone, Debug)]
pub struct Notification {
    pub title: String,
    pub body: String,
}

/// Mathematical image of a [`Notification`].
#[verifier::ext_equal]
pub ghost struct NotificationModel {
    pub title: Seq<char>,
    pub body: Seq<char>,
}

impl View for Notification {
    type V = NotificationModel;

    open spec fn view(&self) -> NotificationModel {
        NotificationModel { title: self.title@, body: self.body@ }
    }
}

/// The notification announcing that the session in phase `phase` finished.
pub open spec fn completion_notification(phase: u8) -> NotificationModel {
    NotificationModel {
        title: "Code Chrono"@,
        body: if phase == PHASE_WORK {
            "Work session done!"@
        } else {
            "Break over!"@
        },
    }
}

/// Build the completion notification for phase `phase`.
pub fn make_completion_notification(phase: u8) -> (n: Notification)
    ensures
        n@ == completion_notification(phase),
{
    Notification {
        title: "Code Chrono".to_owned(),
        body: if phase == PHASE_WORK {
            "Work session done!".to_owned()
        } else {
            "Break over!".to_owned()
        },
    }
}

} // verus!
