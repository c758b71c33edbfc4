//! Pomodoro-style productivity timer engine.
//!
//! The heart of the crate is a single [`state::TimerState`] record driven by
//! two kinds of actors: user commands (start, pause/resume, reset,
//! record-activity) and a once-per-second tick step. Every command and the
//! tick step are pure state transitions: they mutate the state and return a
//! description of the effects the caller must perform (session-log records to
//! append, whether to spawn a new tick loop, snapshots to emit, notifications
//! to show). The host process owns the clock, the 1 Hz cadence, the session
//! log and the notification channel; the engine owns every decision.

pub mod clock;
pub mod control;
pub mod errors;
pub mod laws;
pub mod log;
pub mod records;
pub mod state;
pub mod tasks;
pub mod tick;
