use splitter_host::settings::{value_unchanged, SettingsMap, SettingsValue};

fn sample_map() -> SettingsMap {
    let mut inner = SettingsMap::new();
    inner.insert("threshold".to_owned(), SettingsValue::Int(40));
    let mut m = SettingsMap::new();
    m.insert("enabled".to_owned(), SettingsValue::Bool(true));
    m.insert("speed".to_owned(), SettingsValue::FloatBits(1.5f64.to_bits()));
    m.insert(
        "stages".to_owned(),
        SettingsValue::List(vec![
            SettingsValue::Text("intro".to_owned()),
            SettingsValue::Text("boss".to_owned()),
        ]),
    );
    m.insert("advanced".to_owned(), SettingsValue::Dict(inner));
    m
}

#[test]
fn unchanged_for_equal_content_from_different_allocations() {
    // The same content built twice through different allocation paths, and
    // a third time through a deep copy: all structurally unchanged.
    let a = sample_map();
    let b = sample_map();
    let c = a.duplicate();
    assert!(a.is_unchanged(&b));
    assert!(b.is_unchanged(&a));
    assert!(a.is_unchanged(&c));
    assert!(c.is_unchanged(&b));
}

#[test]
fn changed_when_any_nested_value_differs() {
    let a = sample_map();

    let mut deep = a.duplicate();
    let mut inner = SettingsMap::new();
    inner.insert("threshold".to_owned(), SettingsValue::Int(41));
    deep.insert("advanced".to_owned(), SettingsValue::Dict(inner));
    assert!(!a.is_unchanged(&deep));

    let mut listed = a.duplicate();
    listed.insert(
        "stages".to_owned(),
        SettingsValue::List(vec![
            SettingsValue::Text("intro".to_owned()),
            SettingsValue::Text("final".to_owned()),
        ]),
    );
    assert!(!a.is_unchanged(&listed));

    let mut bits = a.duplicate();
    bits.insert("speed".to_owned(), SettingsValue::FloatBits(2.0f64.to_bits()));
    assert!(!a.is_unchanged(&bits));
}

#[test]
fn changed_when_order_differs() {
    let mut ab = SettingsMap::new();
    ab.insert("a".to_owned(), SettingsValue::Bool(true));
    ab.insert("b".to_owned(), SettingsValue::Bool(false));
    let mut ba = SettingsMap::new();
    ba.insert("b".to_owned(), SettingsValue::Bool(false));
    ba.insert("a".to_owned(), SettingsValue::Bool(true));
    // Insertion order is part of the map's content.
    assert!(!ab.is_unchanged(&ba));
}

#[test]
fn changed_when_kind_differs() {
    let mut a = SettingsMap::new();
    a.insert("x".to_owned(), SettingsValue::Int(1));
    let mut b = SettingsMap::new();
    b.insert("x".to_owned(), SettingsValue::Bool(true));
    assert!(!a.is_unchanged(&b));
}

#[test]
fn insert_replaces_in_place_and_appends_new_keys() {
    let mut m = SettingsMap::new();
    m.insert("a".to_owned(), SettingsValue::Int(1));
    m.insert("b".to_owned(), SettingsValue::Int(2));
    m.insert("a".to_owned(), SettingsValue::Int(10));
    assert_eq!(m.len(), 2);
    assert_eq!(m.entry_at(0).0, "a");
    assert!(matches!(m.entry_at(0).1, SettingsValue::Int(10)));
    assert_eq!(m.entry_at(1).0, "b");
    m.insert("c".to_owned(), SettingsValue::Int(3));
    assert_eq!(m.entry_at(2).0, "c");
}

#[test]
fn get_and_remove() {
    let mut m = sample_map();
    assert!(matches!(m.get("enabled"), Some(SettingsValue::Bool(true))));
    assert!(m.get("missing").is_none());
    m.remove("enabled");
    assert!(m.get("enabled").is_none());
    assert_eq!(m.len(), 3);
    // Removing an absent key changes nothing.
    m.remove("missing");
    assert_eq!(m.len(), 3);
    // The remaining entries kept their order.
    assert_eq!(m.entry_at(0).0, "speed");
    assert_eq!(m.entry_at(1).0, "stages");
    assert_eq!(m.entry_at(2).0, "advanced");
}

#[test]
fn duplicate_is_independent() {
    let a = sample_map();
    let mut b = a.duplicate();
    b.insert("enabled".to_owned(), SettingsValue::Bool(false));
    assert!(matches!(a.get("enabled"), Some(SettingsValue::Bool(true))));
    assert!(matches!(b.get("enabled"), Some(SettingsValue::Bool(false))));
    assert!(!a.is_unchanged(&b));
}

#[test]
fn value_comparison_is_deep() {
    let a = SettingsValue::List(vec![
        SettingsValue::Int(1),
        SettingsValue::Text("x".to_owned()),
    ]);
    let b = SettingsValue::List(vec![
        SettingsValue::Int(1),
        SettingsValue::Text("x".to_owned()),
    ]);
    let c = SettingsValue::List(vec![
        SettingsValue::Int(1),
        SettingsValue::Text("y".to_owned()),
    ]);
    assert!(value_unchanged(&a, &b));
    assert!(!value_unchanged(&a, &c));
    assert!(!value_unchanged(&a, &SettingsValue::Int(1)));
    let d = a.duplicate();
    assert!(value_unchanged(&a, &d));
}

#[test]
fn float_bits_compare_exactly() {
    let nan_a = SettingsValue::FloatBits(f64::NAN.to_bits());
    let nan_b = SettingsValue::FloatBits(f64::NAN.to_bits());
    // Bit-for-bit identical floats are unchanged, even where the float
    // comparison would say otherwise.
    assert!(value_unchanged(&nan_a, &nan_b));
    let pos = SettingsValue::FloatBits(0.0f64.to_bits());
    let neg = SettingsValue::FloatBits((-0.0f64).to_bits());
    // Distinct bit patterns differ, even where the float comparison would
    // call them equal.
    assert!(!value_unchanged(&pos, &neg));
}

#[test]
fn empty_maps_are_unchanged() {
    let a = SettingsMap::new();
    let b = SettingsMap::new();
    assert!(a.is_unchanged(&b));
    assert!(a.is_empty());
    assert_eq!(a.len(), 0);
}
