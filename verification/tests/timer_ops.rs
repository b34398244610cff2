use splitter_host::logs::{LogKind, LogLevel};
use splitter_host::timer::{GameTimeState, IdeTimer, TimerState};

#[test]
fn starts_only_from_not_running() {
    let mut t = IdeTimer::new();
    assert_eq!(t.state(), TimerState::NotRunning);
    t.start();
    assert_eq!(t.state(), TimerState::Running);
    assert_eq!(t.logs.len(), 1);
    assert_eq!(t.logs.entry(0).message, "Timer started.");
    assert_eq!(t.logs.entry(0).kind, LogKind::Runtime(LogLevel::Debug));
    // A second start is a no-op: no state change, no log noise.
    t.start();
    assert_eq!(t.state(), TimerState::Running);
    assert_eq!(t.logs.len(), 1);
}

#[test]
fn split_index_tracks_record_length() {
    let mut t = IdeTimer::new();
    t.start();
    t.split();
    t.skip_split();
    t.split();
    assert_eq!(t.split_index, 3);
    assert_eq!(t.segment_splitted, vec![true, false, true]);
    t.undo_split();
    assert_eq!(t.split_index, 2);
    assert_eq!(t.segment_splitted, vec![true, false]);
    assert_eq!(t.split_index, t.segment_splitted.len());
}

#[test]
fn split_ignored_unless_running() {
    let mut t = IdeTimer::new();
    t.split();
    t.skip_split();
    assert_eq!(t.split_index, 0);
    assert!(t.segment_splitted.is_empty());
    t.timer_state = TimerState::Paused;
    t.split();
    assert_eq!(t.split_index, 0);
}

#[test]
fn undo_split_from_ended_resumes_running() {
    let mut t = IdeTimer::new();
    t.start();
    t.split();
    t.split();
    t.timer_state = TimerState::Ended;
    t.undo_split();
    // Never a silent no-op from Ended: the timer is running again and the
    // last split is undone.
    assert_eq!(t.state(), TimerState::Running);
    assert_eq!(t.split_index, 1);
    assert_eq!(t.segment_splitted, vec![true]);
}

#[test]
fn undo_split_saturates_at_zero() {
    let mut t = IdeTimer::new();
    t.start();
    t.undo_split();
    assert_eq!(t.split_index, 0);
    assert!(t.segment_splitted.is_empty());
    assert_eq!(t.state(), TimerState::Running);
}

#[test]
fn reset_clears_everything() {
    for from in [TimerState::Running, TimerState::Paused, TimerState::Ended] {
        let mut t = IdeTimer::new();
        t.start();
        t.split();
        t.set_game_time(1_500_000_000);
        t.set_variable("chapter", "2");
        t.timer_state = from;
        t.reset();
        assert_eq!(t.state(), TimerState::NotRunning);
        assert_eq!(t.split_index, 0);
        assert!(t.segment_splitted.is_empty());
        assert_eq!(t.game_time_nanos, 0);
        assert_eq!(t.game_time_state, GameTimeState::NotInitialized);
        assert_eq!(t.variables_len(), 0);
        assert_eq!(
            t.logs.entry(t.logs.len() - 1).message,
            "Timer reset.",
        );
    }
}

#[test]
fn reset_is_a_no_op_when_not_running() {
    let mut t = IdeTimer::new();
    t.reset();
    assert_eq!(t.state(), TimerState::NotRunning);
    assert_eq!(t.logs.len(), 0);
}

#[test]
fn game_time_flows_when_set() {
    let mut t = IdeTimer::new();
    assert_eq!(t.game_time_state, GameTimeState::NotInitialized);
    t.set_game_time(42);
    assert_eq!(t.game_time_nanos, 42);
    assert_eq!(t.game_time_state, GameTimeState::Running);
    t.pause_game_time();
    assert_eq!(t.game_time_state, GameTimeState::Paused);
    t.pause_game_time();
    assert_eq!(t.game_time_state, GameTimeState::Paused);
    t.resume_game_time();
    assert_eq!(t.game_time_state, GameTimeState::Running);
    t.set_game_time(-7);
    assert_eq!(t.game_time_nanos, -7);
}

#[test]
fn set_variable_upserts_in_place() {
    let mut t = IdeTimer::new();
    t.set_variable("chapter", "1");
    t.set_variable("boss", "Hydra");
    assert_eq!(t.variables_len(), 2);
    assert_eq!(t.variable_get("chapter"), Some("1".to_owned()));
    t.set_variable("chapter", "2");
    assert_eq!(t.variables_len(), 2);
    assert_eq!(t.variable_get("chapter"), Some("2".to_owned()));
    // The updated key kept its place in the order.
    assert_eq!(
        t.variable_at(0),
        Some(("chapter".to_owned(), "2".to_owned()))
    );
    assert_eq!(t.variable_at(1), Some(("boss".to_owned(), "Hydra".to_owned())));
    assert_eq!(t.variable_at(2), None);
    // Re-setting the same value changes nothing.
    t.set_variable("boss", "Hydra");
    assert_eq!(t.variables_len(), 2);
    assert_eq!(t.variable_get("missing"), None);
}

#[test]
fn split_record_accessors() {
    let mut t = IdeTimer::new();
    t.start();
    t.split();
    t.skip_split();
    assert_eq!(t.current_split_index(), Some(2));
    assert_eq!(t.segment_splitted(0), Some(true));
    assert_eq!(t.segment_splitted(1), Some(false));
    assert_eq!(t.segment_splitted(2), None);
}

#[test]
fn module_and_runtime_logs() {
    let mut t = IdeTimer::new();
    t.log_auto_splitter("attached to game".to_owned());
    t.log_runtime("tick was slow".to_owned(), LogLevel::Warning);
    assert_eq!(t.logs.len(), 2);
    assert_eq!(t.logs.entry(0).kind, LogKind::AutoSplitter);
    assert_eq!(t.logs.entry(0).message, "attached to game");
    assert_eq!(t.logs.entry(1).kind, LogKind::Runtime(LogLevel::Warning));
    t.logs.clear();
    assert!(t.logs.is_empty());
}

#[test]
fn state_labels() {
    assert_eq!(TimerState::NotRunning.label(), "Not Running");
    assert_eq!(TimerState::Ended.label(), "Ended");
    assert_eq!(GameTimeState::NotInitialized.label(), "Not Initialized");
    assert_eq!(GameTimeState::Paused.label(), "Paused");
}

#[test]
fn transparency_is_off() {
    assert!(!splitter_host::use_transparency());
}

#[test]
fn undo_split_ignored_while_paused_or_stopped() {
    let mut t = IdeTimer::new();
    t.undo_split();
    assert_eq!(t.state(), TimerState::NotRunning);
    assert_eq!(t.logs.len(), 0);
    t.start();
    t.split();
    t.timer_state = TimerState::Paused;
    t.undo_split();
    assert_eq!(t.state(), TimerState::Paused);
    assert_eq!(t.split_index, 1);
}
