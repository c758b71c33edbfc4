//! The typed error taxonomy of the timer's command surface.
//!
//! The engine's own transitions are total: they cannot fail. What can fail
//! are the host's effects around them, and those failures fall into exactly
//! these kinds. A lock failure is fatal to the one command that hit it, never
//! to the process; a session-log write failure is swallowed so the timer is
//! never blocked by storage; a notification failure is always swallowed.

use vstd::prelude::*;

verus! {

/// What went wrong while a host performed a command's effects.
#[derive(Clone, Copy, PartialEq, Eq, Structural, Debug)]
pub enum TimerError {
    /// The shared timer record could not be locked (e.g. the lock was
    /// poisoned). The command fails; the process lives on.
    LockUnavailable,
    /// A session-log record could not be written. Best-effort: the timer
    /// itself carries on.
    StorageWriteFailed,
    /// A desktop notification could not be delivered. Always swallowed.
    NotificationDeliveryFailed,
}

impl TimerError {
    /// The message surfaced for this error.
    pub open spec fn spec_message(self) -> Seq<char> {
        match self {
            TimerError::LockUnavailable => "internal timer error"@,
            TimerError::StorageWriteFailed => "session log write failed"@,
            TimerError::NotificationDeliveryFailed => "notification delivery failed"@,
        }
    }

    /// The message surfaced for this error.
    pub fn message(&self) -> (r: &'static str)
        ensures
            r@ == self.spec_message(),
    {
        match self {
            TimerError::LockUnavailable => "internal timer error",
            TimerError::StorageWriteFailed => "session log write failed",
            TimerError::NotificationDeliveryFailed => "notification delivery failed",
        }
    }
}

} // verus!
