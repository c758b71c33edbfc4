//! Scenario tests driving the timer engine through whole sessions.

use code_chrono::errors::TimerError;
use code_chrono::log::{make_completion_notification, LogAction, LogEntry};
use code_chrono::state::{
    TimerState, DEFAULT_SESSION_SECS, PHASE_LONG_BREAK, PHASE_SHORT_BREAK, PHASE_WORK,
};
use code_chrono::tick::TickOutcome;

/// Helper: the tick must be a plain decrement; returns the emitted snapshot's
/// remaining seconds.
fn expect_ticked(state: &mut TimerState, now: u64) -> u64 {
    match state.tick(now) {
        TickOutcome::Ticked(snap) => snap.remaining,
        other => panic!("expected a plain tick, got {:?}", outcome_name(&other)),
    }
}

fn outcome_name(out: &TickOutcome) -> &'static str {
    match out {
        TickOutcome::Stopped => "Stopped",
        TickOutcome::IdlePaused(_) => "IdlePaused",
        TickOutcome::Ticked(_) => "Ticked",
        TickOutcome::Completed(_, _) => "Completed",
    }
}

#[test]
fn fresh_timer_is_idle() {
    let t = TimerState::new(42);
    assert_eq!(t.remaining, DEFAULT_SESSION_SECS);
    assert_eq!(t.session_duration, DEFAULT_SESSION_SECS);
    assert!(t.paused);
    assert_eq!(t.phase, PHASE_WORK);
    assert!(!t.task_active);
    assert_eq!(t.active_task_name, None);
    assert!(!t.loop_running);
    assert_eq!(t.session_start_time, 0);
    assert_eq!(t.last_activity, 42);
}

#[test]
fn default_timer_is_idle() {
    let t = TimerState::default();
    assert!(t.paused);
    assert!(!t.task_active);
    assert_eq!(t.remaining, DEFAULT_SESSION_SECS);
}

#[test]
fn start_sets_up_a_work_session() {
    let mut t = TimerState::new(0);
    let eff = t.start("write".to_string(), Some(10), 500);

    assert_eq!(t.remaining, 600);
    assert_eq!(t.session_duration, 600);
    assert!(!t.paused);
    assert_eq!(t.phase, PHASE_WORK);
    assert!(t.task_active);
    assert_eq!(t.active_task_name.as_deref(), Some("write"));
    assert!(t.loop_running);
    assert_eq!(t.session_start_time, 500);
    assert_eq!(t.last_activity, 500);

    assert!(eff.spawn_loop);
    assert_eq!(eff.log.len(), 1);
    assert_eq!(eff.log[0].action, LogAction::Start);
    assert_eq!(eff.log[0].task_name, "write");
    assert_eq!(eff.log[0].elapsed, 0);
    assert_eq!(eff.log[0].phase, PHASE_WORK);

    assert_eq!(eff.snapshot.remaining, 600);
    assert!(!eff.snapshot.paused);
    assert!(eff.snapshot.task_active);
    assert_eq!(eff.snapshot.active_task_name.as_deref(), Some("write"));
}

#[test]
fn start_defaults_to_twenty_five_minutes() {
    let mut t = TimerState::new(0);
    t.start("w".to_string(), None, 0);
    assert_eq!(t.remaining, 25 * 60);
    assert_eq!(t.session_duration, 25 * 60);
}

#[test]
fn double_start_spawns_a_single_loop() {
    let mut t = TimerState::new(0);
    let first = t.start("a".to_string(), Some(1), 0);
    let second = t.start("a".to_string(), Some(1), 0);

    // Only the first command may spawn a tick loop.
    assert!(first.spawn_loop);
    assert!(!second.spawn_loop);
    assert!(t.loop_running);

    // The single loop decrements by exactly one per tick.
    assert_eq!(expect_ticked(&mut t, 0), 59);
    assert_eq!(t.remaining, 59);
}

#[test]
fn reset_credits_the_elapsed_seconds_once() {
    let mut t = TimerState::new(0);
    t.start("t".to_string(), Some(1), 1000);
    for _ in 0..10 {
        expect_ticked(&mut t, 1000);
    }
    assert_eq!(t.remaining, 50);

    let eff = t.reset();
    let entry = eff.completion.expect("a partial session must be credited");
    assert_eq!(entry.action, LogAction::Complete);
    assert_eq!(entry.task_name, "t");
    assert_eq!(entry.elapsed, 10);
    assert_eq!(entry.phase, PHASE_WORK);

    // Cleared to idle, preserving the configured duration.
    assert_eq!(t.remaining, 60);
    assert_eq!(t.session_duration, 60);
    assert!(t.paused);
    assert!(!t.task_active);
    assert_eq!(t.active_task_name, None);
    assert!(!t.loop_running);
    assert_eq!(t.session_start_time, 0);
    assert!(eff.snapshot.paused);

    // The credit is written exactly once: resetting again logs nothing.
    let again = t.reset();
    assert!(again.completion.is_none());
}

#[test]
fn zero_minute_session_completes_at_once() {
    let mut t = TimerState::new(0);
    t.start("z".to_string(), Some(0), 5);
    assert_eq!(t.remaining, 0);
    assert!(t.task_active);

    match t.tick(5) {
        TickOutcome::Completed(entry, _) => {
            assert_eq!(entry.elapsed, 0);
            assert_eq!(entry.task_name, "z");
        }
        other => panic!("expected completion, got {:?}", outcome_name(&other)),
    }
    assert!(!t.task_active);
    assert!(t.paused);
}

#[test]
fn reset_with_nothing_elapsed_logs_nothing() {
    let mut t = TimerState::new(0);
    t.start("t".to_string(), Some(1), 0);
    let eff = t.reset();
    assert!(eff.completion.is_none());

    // Resetting an already idle timer logs nothing either.
    let eff = t.reset();
    assert!(eff.completion.is_none());
}

#[test]
fn empty_task_name_is_not_credited() {
    let mut t = TimerState::new(0);
    t.start(String::new(), Some(1), 0);
    for _ in 0..5 {
        expect_ticked(&mut t, 0);
    }
    let eff = t.reset();
    assert!(eff.completion.is_none());
}

#[test]
fn restart_finalizes_the_previous_session_first() {
    let mut t = TimerState::new(0);
    t.start("A".to_string(), Some(5), 0);
    for _ in 0..3 {
        expect_ticked(&mut t, 0);
    }

    let eff = t.start("B".to_string(), Some(5), 10);
    let entries: Vec<&LogEntry> = eff.log.iter().collect();
    assert_eq!(entries.len(), 2);

    // The completion record for "A" comes before "B"'s start record.
    assert_eq!(entries[0].action, LogAction::Complete);
    assert_eq!(entries[0].task_name, "A");
    assert_eq!(entries[0].elapsed, 3);
    assert_eq!(entries[1].action, LogAction::Start);
    assert_eq!(entries[1].task_name, "B");
    assert_eq!(entries[1].elapsed, 0);

    assert_eq!(t.active_task_name.as_deref(), Some("B"));
    assert_eq!(t.remaining, 300);
}

#[test]
fn idle_auto_pause_stops_the_countdown() {
    let mut t = TimerState::new(0);
    t.start("x".to_string(), Some(25), 1000);

    // 121 seconds with no recorded activity: the tick pauses the timer.
    let out = t.tick(1121);
    let snap = match out {
        TickOutcome::IdlePaused(snap) => snap,
        other => panic!("expected the idle auto-pause, got {:?}", outcome_name(&other)),
    };
    assert!(t.paused);
    assert!(!t.loop_running);
    assert_eq!(t.remaining, 25 * 60);
    // The auto-pause looks like any other pause to observers.
    assert!(snap.paused);
    assert_eq!(snap.remaining, 25 * 60);

    // No further decrements: the loop only observes that it must stop.
    match t.tick(1122) {
        TickOutcome::Stopped => {}
        other => panic!("expected the loop to stop, got {:?}", outcome_name(&other)),
    }
    assert_eq!(t.remaining, 25 * 60);
}

#[test]
fn idle_timeout_is_strict() {
    let mut t = TimerState::new(0);
    t.start("x".to_string(), Some(25), 1000);
    // Exactly 120 seconds of silence is still within the window.
    assert_eq!(expect_ticked(&mut t, 1120), 25 * 60 - 1);
}

#[test]
fn record_activity_holds_off_the_idle_pause() {
    let mut t = TimerState::new(0);
    t.start("x".to_string(), Some(25), 1000);
    t.record_activity(1100);
    // 1121 is over the timeout from the start, but not from the activity.
    assert_eq!(expect_ticked(&mut t, 1121), 25 * 60 - 1);
}

#[test]
fn session_runs_to_completion() {
    let mut t = TimerState::new(0);
    t.start("write spec".to_string(), Some(1), 100);

    let mut completions = 0;
    for i in 0..60 {
        assert_eq!(expect_ticked(&mut t, 100), 59 - i);
    }
    assert_eq!(t.remaining, 0);

    // The tick after the countdown reaches zero completes the session.
    match t.tick(100) {
        TickOutcome::Completed(entry, notification) => {
            completions += 1;
            assert_eq!(entry.action, LogAction::Complete);
            assert_eq!(entry.task_name, "write spec");
            assert_eq!(entry.elapsed, 60);
            assert_eq!(entry.phase, PHASE_WORK);
            assert_eq!(notification.title.as_str(), "Code Chrono");
            assert_eq!(notification.body.as_str(), "Work session done!");
        }
        other => panic!("expected completion, got {:?}", outcome_name(&other)),
    }
    assert_eq!(completions, 1);

    assert_eq!(t.remaining, 0);
    assert!(!t.task_active);
    assert_eq!(t.active_task_name, None);
    assert!(!t.loop_running);
    assert!(t.paused);

    // The loop is over: a further tick only reports that.
    match t.tick(100) {
        TickOutcome::Stopped => {}
        other => panic!("expected the loop to stop, got {:?}", outcome_name(&other)),
    }
}

#[test]
fn pause_resume_round_trip() {
    let mut t = TimerState::new(0);
    let mut actions: Vec<&'static str> = Vec::new();

    let eff = t.start("x".to_string(), Some(25), 50);
    for entry in &eff.log {
        actions.push(entry.action.label());
    }

    let before_pause = (t.remaining, t.session_duration, t.last_activity);

    // Pause: logged, loop not spawned, visible immediately.
    let eff = t.pause_or_resume(60);
    actions.push(eff.entry.action.label());
    assert_eq!(eff.entry.action, LogAction::Pause);
    assert_eq!(eff.entry.task_name, "x");
    assert!(!eff.spawn_loop);
    assert!(t.paused);
    assert!(eff.snapshot.paused);

    // The loop observes the pause and stops within one tick.
    match t.tick(61) {
        TickOutcome::Stopped => {}
        other => panic!("expected the loop to stop, got {:?}", outcome_name(&other)),
    }
    assert!(!t.loop_running);
    assert_eq!(t.remaining, 25 * 60);

    // Resume: logged, exactly one new loop spawned.
    let eff = t.pause_or_resume(70);
    actions.push(eff.entry.action.label());
    assert_eq!(eff.entry.action, LogAction::Resume);
    assert!(eff.spawn_loop);
    assert!(t.loop_running);
    assert!(!t.paused);
    assert!(t.task_active);
    assert_eq!(
        (t.remaining, t.session_duration, t.last_activity),
        before_pause
    );

    assert_eq!(actions, vec!["start", "pause", "resume"]);
}

#[test]
fn resume_reactivates_an_idle_timer() {
    let mut t = TimerState::new(0);
    t.start("x".to_string(), Some(1), 0);
    expect_ticked(&mut t, 0);
    t.reset();
    assert!(!t.task_active);
    assert_eq!(t.remaining, 60);

    let eff = t.pause_or_resume(500);
    assert!(t.task_active);
    assert!(!t.paused);
    assert_eq!(t.last_activity, 500);
    assert!(eff.spawn_loop);
    assert!(t.loop_running);
}

#[test]
fn completion_leaves_a_paused_idle_timer() {
    // After a natural completion the timer is idle and paused, like every
    // other idle state.
    let mut t = TimerState::new(0);
    t.start("x".to_string(), Some(1), 0);
    for _ in 0..60 {
        expect_ticked(&mut t, 0);
    }
    match t.tick(0) {
        TickOutcome::Completed(_, _) => {}
        other => panic!("expected completion, got {:?}", outcome_name(&other)),
    }
    assert!(!t.task_active);
    assert!(t.paused);
    assert_eq!(t.remaining, 0);
}

#[test]
fn toggle_on_a_completed_timer_stays_paused() {
    // With the countdown at zero there is nothing to resume: the timer
    // stays paused and idle, and no loop is spawned. The record still says
    // "resume", since the timer was paused.
    let mut t = TimerState::new(0);
    t.start("x".to_string(), Some(1), 0);
    for _ in 0..60 {
        expect_ticked(&mut t, 0);
    }
    match t.tick(0) {
        TickOutcome::Completed(_, _) => {}
        other => panic!("expected completion, got {:?}", outcome_name(&other)),
    }

    let eff = t.pause_or_resume(100);
    assert_eq!(eff.entry.action, LogAction::Resume);
    assert!(!eff.spawn_loop);
    assert!(t.paused);
    assert!(!t.task_active);
    assert_eq!(t.active_task_name, None);
}

#[test]
fn snapshot_reflects_the_visible_fields() {
    let mut t = TimerState::new(0);
    t.start("peek".to_string(), Some(2), 7);
    let snap = t.get_snapshot();
    assert_eq!(snap.remaining, 120);
    assert!(!snap.paused);
    assert_eq!(snap.phase, PHASE_WORK);
    assert!(snap.task_active);
    assert_eq!(snap.active_task_name.as_deref(), Some("peek"));
    assert_eq!(snap.session_duration, 120);
}

#[test]
fn break_phases_get_the_break_notification() {
    let work = make_completion_notification(PHASE_WORK);
    assert_eq!(work.body.as_str(), "Work session done!");
    let short = make_completion_notification(PHASE_SHORT_BREAK);
    assert_eq!(short.body.as_str(), "Break over!");
    let long = make_completion_notification(PHASE_LONG_BREAK);
    assert_eq!(long.body.as_str(), "Break over!");
    assert_eq!(work.title.as_str(), "Code Chrono");
}

#[test]
fn error_messages_are_stable() {
    assert_eq!(TimerError::LockUnavailable.message(), "internal timer error");
    assert_eq!(
        TimerError::StorageWriteFailed.message(),
        "session log write failed"
    );
    assert_eq!(
        TimerError::NotificationDeliveryFailed.message(),
        "notification delivery failed"
    );
}

#[test]
fn action_labels_match_the_log_format() {
    assert_eq!(LogAction::Start.label(), "start");
    assert_eq!(LogAction::Pause.label(), "pause");
    assert_eq!(LogAction::Resume.label(), "resume");
    assert_eq!(LogAction::Complete.label(), "complete");
}
