use session_lock::store::StoreModel;

fn key(s: &str) -> String {
    s.to_string()
}

#[test]
fn set_then_get_within_ttl() {
    let mut store = StoreModel::new();
    store.set_px(&key("k"), &key("v"), 1000, 0);
    assert_eq!(store.get(&key("k"), 0), Some("v".to_string()));
    assert_eq!(store.get(&key("k"), 999), Some("v".to_string()));
}

#[test]
fn entry_lapses_exactly_at_expiry() {
    let mut store = StoreModel::new();
    store.set_px(&key("k"), &key("v"), 1000, 0);
    assert_eq!(store.get(&key("k"), 1000), None);
    assert_eq!(store.get(&key("k"), 5000), None);
}

#[test]
fn get_of_absent_key() {
    let store = StoreModel::new();
    assert_eq!(store.get(&key("missing"), 0), None);
}

#[test]
fn set_overwrites_value_and_expiry() {
    let mut store = StoreModel::new();
    store.set_px(&key("k"), &key("v1"), 100, 0);
    store.set_px(&key("k"), &key("v2"), 100, 50);
    assert_eq!(store.get(&key("k"), 120), Some("v2".to_string()));
    assert_eq!(store.get(&key("k"), 150), None);
}

#[test]
fn set_nx_respects_live_binding() {
    let mut store = StoreModel::new();
    assert!(store.set_nx_px(&key("k"), &key("a"), 100, 0));
    assert!(!store.set_nx_px(&key("k"), &key("b"), 100, 50));
    assert_eq!(store.get(&key("k"), 50), Some("a".to_string()));
}

#[test]
fn set_nx_takes_over_lapsed_binding() {
    let mut store = StoreModel::new();
    assert!(store.set_nx_px(&key("k"), &key("a"), 100, 0));
    assert!(store.set_nx_px(&key("k"), &key("b"), 100, 100));
    assert_eq!(store.get(&key("k"), 150), Some("b".to_string()));
}

#[test]
fn del_is_idempotent() {
    let mut store = StoreModel::new();
    store.set_px(&key("k"), &key("v"), 1000, 0);
    store.del(&key("k"));
    assert_eq!(store.get(&key("k"), 1), None);
    store.del(&key("k"));
    assert_eq!(store.get(&key("k"), 1), None);
}

#[test]
fn compare_and_delete_needs_matching_value() {
    let mut store = StoreModel::new();
    store.set_px(&key("k"), &key("owner1"), 1000, 0);
    assert!(!store.compare_and_delete(&key("k"), &key("owner2"), 10));
    assert_eq!(store.get(&key("k"), 10), Some("owner1".to_string()));
    assert!(store.compare_and_delete(&key("k"), &key("owner1"), 10));
    assert_eq!(store.get(&key("k"), 10), None);
}

#[test]
fn compare_and_delete_on_lapsed_binding_is_noop() {
    let mut store = StoreModel::new();
    store.set_px(&key("k"), &key("owner1"), 100, 0);
    assert!(!store.compare_and_delete(&key("k"), &key("owner1"), 100));
}

#[test]
fn compare_and_extend_resets_expiry_only_for_owner() {
    let mut store = StoreModel::new();
    store.set_px(&key("k"), &key("owner1"), 100, 0);
    assert!(store.compare_and_extend(&key("k"), &key("owner1"), 100, 50));
    assert_eq!(store.get(&key("k"), 120), Some("owner1".to_string()));
    assert!(!store.compare_and_extend(&key("k"), &key("other"), 100, 60));
    assert_eq!(store.get(&key("k"), 150), None);
}
