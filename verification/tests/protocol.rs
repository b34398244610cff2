use splitter_host::settings::{SettingsMap, SettingsValue};
use splitter_host::sync::SettingsStore;

fn get_int(store: &SettingsStore, key: &str) -> Option<i64> {
    match store.current().get(key) {
        Some(SettingsValue::Int(v)) => Some(*v),
        _ => None,
    }
}

#[test]
fn apply_and_remove_settings() {
    let mut store = SettingsStore::new();
    store.apply_setting("a".to_owned(), SettingsValue::Int(1));
    store.apply_setting("b".to_owned(), SettingsValue::Int(2));
    assert_eq!(get_int(&store, "a"), Some(1));
    assert_eq!(get_int(&store, "b"), Some(2));
    store.apply_setting("a".to_owned(), SettingsValue::Int(10));
    assert_eq!(get_int(&store, "a"), Some(10));
    store.remove_setting("a");
    assert!(store.current().get("a").is_none());
    assert_eq!(get_int(&store, "b"), Some(2));
}

#[test]
fn compare_and_set_succeeds_on_unchanged_map() {
    let mut store = SettingsStore::new();
    store.apply_setting("a".to_owned(), SettingsValue::Bool(true));
    let seen = store.snapshot();
    let mut new = store.snapshot();
    new.insert("b".to_owned(), SettingsValue::Bool(false));
    assert!(store.replace_if_unchanged(&seen, new));
    assert!(matches!(store.current().get("b"), Some(SettingsValue::Bool(false))));
}

#[test]
fn compare_and_set_reports_contention() {
    let mut store = SettingsStore::new();
    store.apply_setting("a".to_owned(), SettingsValue::Int(1));
    let stale = store.snapshot();
    // Another writer got in between.
    store.apply_setting("a".to_owned(), SettingsValue::Int(2));
    let mut attempt = stale.duplicate();
    attempt.insert("b".to_owned(), SettingsValue::Int(9));
    assert!(!store.replace_if_unchanged(&stale, attempt));
    // The contended attempt changed nothing.
    assert_eq!(get_int(&store, "a"), Some(2));
    assert!(store.current().get("b").is_none());
}

#[test]
fn racing_writers_on_disjoint_keys_both_land() {
    let mut store = SettingsStore::new();
    store.apply_setting("base".to_owned(), SettingsValue::Int(0));

    // Writer one reads, then is interrupted before its replacement.
    let seen_one = store.snapshot();
    let mut attempt_one = seen_one.duplicate();
    attempt_one.insert("alpha".to_owned(), SettingsValue::Int(1));

    // Writer two runs its whole protocol first and wins the race.
    store.apply_setting("beta".to_owned(), SettingsValue::Int(2));

    // Writer one loses its compare-and-set and retries against the fresh
    // map; after the retry no update is lost.
    assert!(!store.replace_if_unchanged(&seen_one, attempt_one));
    store.apply_setting("alpha".to_owned(), SettingsValue::Int(1));

    assert_eq!(get_int(&store, "alpha"), Some(1));
    assert_eq!(get_int(&store, "beta"), Some(2));
    assert_eq!(get_int(&store, "base"), Some(0));
}

#[test]
fn racing_writers_on_the_same_key_retried_writer_wins() {
    let mut store = SettingsStore::new();

    let seen_one = store.snapshot();
    let mut attempt_one = seen_one.duplicate();
    attempt_one.insert("speed".to_owned(), SettingsValue::Int(1));

    // Writer two wins the race on the same key.
    store.apply_setting("speed".to_owned(), SettingsValue::Int(2));

    // Writer one is retried and reapplied on top: its value stands.
    assert!(!store.replace_if_unchanged(&seen_one, attempt_one));
    store.apply_setting("speed".to_owned(), SettingsValue::Int(1));

    assert_eq!(get_int(&store, "speed"), Some(1));
    assert_eq!(store.current().len(), 1);
}

#[test]
fn replace_clears_the_canonical_map() {
    let mut store = SettingsStore::new();
    store.apply_setting("a".to_owned(), SettingsValue::Int(1));
    store.replace(SettingsMap::new());
    assert!(store.current().is_empty());
}

#[test]
fn snapshot_is_structurally_equal_but_independent() {
    let mut store = SettingsStore::new();
    store.apply_setting("a".to_owned(), SettingsValue::Int(1));
    let mut snap = store.snapshot();
    assert!(snap.is_unchanged(store.current()));
    snap.insert("a".to_owned(), SettingsValue::Int(5));
    assert_eq!(get_int(&store, "a"), Some(1));
}
