use splitter_host::logs::{LogKind, LogLevel};
use splitter_host::schedule::{advance_deadline, sleep_nanos, FALLBACK_CADENCE_NANOS};
use splitter_host::settings::{SettingsMap, SettingsValue};
use splitter_host::stats::StatisticsData;
use splitter_host::tick::TickReport;
use splitter_host::timer::IdeTimer;
use splitter_host::widgets::{WidgetDescriptor, WidgetKind};

fn bool_widget(key: &str) -> WidgetDescriptor {
    WidgetDescriptor {
        key: key.to_owned(),
        description: key.to_owned(),
        tooltip: None,
        kind: WidgetKind::Bool { default_value: false },
    }
}

fn report() -> TickReport {
    TickReport {
        update_error: None,
        elapsed_nanos: 2_000,
        memory_usage: 4096,
        handles: 3,
        tick_rate_nanos: 8_333_333,
        processes: vec![("42".to_owned(), "/bin/game".to_owned())],
        widgets_identity: 7,
        widgets: vec![bool_widget("enabled")],
        settings: SettingsMap::new(),
    }
}

#[test]
fn deadlines_stay_on_cadence_over_a_thousand_ticks() {
    let cadence: u64 = 8_333_333;
    let start: u64 = 1_000_000_000;
    let mut deadline = start;
    for i in 0..1000u64 {
        // Each tick finishes well before its deadline plus one cadence.
        let now = deadline + cadence / 3;
        deadline = advance_deadline(deadline, cadence, now);
        assert_eq!(deadline, start + (i + 1) * cadence);
    }
}

#[test]
fn missed_deadline_resets_to_now_without_catch_up() {
    let cadence: u64 = 100_000_000;
    let deadline: u64 = 5_000_000_000;
    // The machine was suspended: the tick ends far past the deadline.
    let now = deadline + 60 * cadence;
    let next = advance_deadline(deadline, cadence, now);
    assert_eq!(next, now);
    // And from there the spacing is one cadence again.
    let after = advance_deadline(next, cadence, next + 1);
    assert_eq!(after, now + cadence);
}

#[test]
fn sleep_until_deadline() {
    assert_eq!(sleep_nanos(1_000, 400), 600);
    assert_eq!(sleep_nanos(1_000, 1_000), 0);
    assert_eq!(sleep_nanos(1_000, 2_000), 0);
}

#[test]
fn statistics_fold_in_one_tick() {
    let mut stats = StatisticsData::new();
    stats.record_tick(2_000, 4096, 3, 8_333_333);
    assert_eq!(stats.avg_tick_nanos, 2); // (0 * 999 + 2000) / 1000
    assert_eq!(stats.slowest_tick_nanos, 2_000);
    assert_eq!(stats.memory_usage, 4096);
    assert_eq!(stats.handles, 3);
    assert_eq!(stats.tick_rate_nanos, 8_333_333);
    stats.record_tick(2_000, 4096, 3, 8_333_333);
    assert_eq!(stats.avg_tick_nanos, 3); // (2 * 999 + 2000) / 1000
}

#[test]
fn slowest_tick_only_grows() {
    let mut stats = StatisticsData::new();
    stats.record_tick(2_000, 0, 0, 0);
    stats.record_tick(500, 0, 0, 0);
    assert_eq!(stats.slowest_tick_nanos, 2_000);
    stats.record_tick(9_000, 0, 0, 0);
    assert_eq!(stats.slowest_tick_nanos, 9_000);
}

#[test]
fn reconcile_replaces_processes_and_returns_cadence() {
    let mut t = IdeTimer::new();
    t.processes.push(("1".to_owned(), "stale".to_owned()));
    let cadence = t.reconcile_tick(report());
    assert_eq!(cadence, 8_333_333);
    assert_eq!(t.processes, vec![("42".to_owned(), "/bin/game".to_owned())]);
    assert_eq!(t.statistics.slowest_tick_nanos, 2_000);
    // A successful update logs nothing.
    assert_eq!(t.logs.len(), 0);
}

#[test]
fn failed_update_is_logged_and_does_not_stop_the_host() {
    let mut t = IdeTimer::new();
    let mut r = report();
    r.update_error = Some("Failed executing the auto splitter.".to_owned());
    let cadence = t.reconcile_tick(r);
    assert_eq!(cadence, 8_333_333);
    assert_eq!(t.logs.len(), 1);
    assert_eq!(t.logs.entry(0).kind, LogKind::Runtime(LogLevel::Error));
    assert_eq!(t.logs.entry(0).message, "Failed executing the auto splitter.");
}

#[test]
fn widgets_replaced_only_on_identity_change() {
    let mut t = IdeTimer::new();
    let mut first = report();
    first.widgets = vec![bool_widget("one")];
    first.widgets_identity = 7;
    t.reconcile_tick(first);
    assert_eq!(t.settings_widgets.len(), 1);
    assert_eq!(t.settings_widgets[0].key, "one");

    // Same identity token: the cache is kept even though the list content
    // handed in differs.
    let mut same_identity = report();
    same_identity.widgets = vec![bool_widget("two"), bool_widget("three")];
    same_identity.widgets_identity = 7;
    t.reconcile_tick(same_identity);
    assert_eq!(t.settings_widgets.len(), 1);
    assert_eq!(t.settings_widgets[0].key, "one");

    // New identity token: the cache is replaced.
    let mut new_identity = report();
    new_identity.widgets = vec![bool_widget("two"), bool_widget("three")];
    new_identity.widgets_identity = 8;
    t.reconcile_tick(new_identity);
    assert_eq!(t.settings_widgets.len(), 2);
    assert_eq!(t.settings_widgets[0].key, "two");
}

#[test]
fn settings_cache_follows_structural_changes() {
    let mut t = IdeTimer::new();
    let mut changed = report();
    changed.settings.insert("a".to_owned(), SettingsValue::Bool(true));
    t.reconcile_tick(changed);
    assert!(matches!(
        t.settings_map.get("a"),
        Some(SettingsValue::Bool(true))
    ));
    let mut changed_again = report();
    changed_again.settings.insert("a".to_owned(), SettingsValue::Bool(false));
    t.reconcile_tick(changed_again);
    assert!(matches!(
        t.settings_map.get("a"),
        Some(SettingsValue::Bool(false))
    ));
}

#[test]
fn idle_tick_clears_processes_and_uses_fallback_cadence() {
    let mut t = IdeTimer::new();
    t.processes.push(("1".to_owned(), "stale".to_owned()));
    let cadence = t.idle_tick();
    assert_eq!(cadence, FALLBACK_CADENCE_NANOS);
    assert_eq!(cadence, 100_000_000);
    assert!(t.processes.is_empty());
}

#[test]
fn deadline_boundary_counts_as_on_time() {
    // A tick that ends exactly one cadence past the deadline still keeps
    // the schedule.
    assert_eq!(advance_deadline(1_000, 100, 1_100), 1_100);
    assert_eq!(advance_deadline(1_000, 100, 1_101), 1_101);
}
