use camagru_api::cache::Cache;

#[test]
fn set_then_get_within_lifetime() {
    let mut cache: Cache<String> = Cache::new();
    assert_eq!(cache.set_at("k", "v".to_string(), 5_000, 100), None);
    assert_eq!(cache.get_at("k", 100), Some("v".to_string()));
    assert_eq!(cache.get_at("k", 5_100), Some("v".to_string()));
}

#[test]
fn scenario_expiry_after_lifetime() {
    let mut cache: Cache<String> = Cache::new();
    cache.set_at("k", "v".to_string(), 5_000, 0);
    assert_eq!(cache.get_at("k", 0), Some("v".to_string()));
    assert_eq!(cache.get_at("k", 6_000), None);
    assert!(!cache.contains_at("k", 6_000));
    assert!(!cache.contains_at("k", 0));
}

#[test]
fn set_reports_live_previous_value_only() {
    let mut cache: Cache<u32> = Cache::new();
    assert_eq!(cache.set_at("a", 1, 10, 0), None);
    assert_eq!(cache.set_at("a", 2, 10, 5), Some(1));
    assert_eq!(cache.set_at("a", 3, 10, 100), None);
    assert_eq!(cache.get_at("a", 100), Some(3));
}

#[test]
fn delete_is_idempotent() {
    let mut cache: Cache<u32> = Cache::new();
    assert_eq!(cache.del_at("missing", 0), None);
    cache.set_at("a", 7, 10, 0);
    assert_eq!(cache.del_at("a", 3), Some(7));
    assert_eq!(cache.del_at("a", 3), None);
    cache.set_at("b", 8, 10, 0);
    assert_eq!(cache.del_at("b", 11), None);
    assert!(!cache.contains_at("b", 0));
}

#[test]
fn lifetime_boundary_is_inclusive() {
    let mut cache: Cache<u32> = Cache::new();
    cache.set_at("a", 1, 10, 0);
    assert!(cache.contains_at("a", 10));
    assert!(!cache.contains_at("a", 11));
    assert_eq!(cache.get_at("a", 10), Some(1));
}

#[test]
fn zero_lifetime_lives_only_at_its_creation() {
    let mut cache: Cache<u32> = Cache::new();
    cache.set_at("a", 1, 0, 50);
    assert!(cache.contains_at("a", 50));
    assert!(!cache.contains_at("a", 51));
}

#[test]
fn largest_times_do_not_overflow() {
    let mut cache: Cache<u32> = Cache::new();
    cache.set_at("a", 1, u64::MAX, u64::MAX);
    assert_eq!(cache.get_at("a", u64::MAX), Some(1));
    cache.set_at("b", 2, u64::MAX, 0);
    assert_eq!(cache.get_at("b", u64::MAX), Some(2));
}

#[test]
fn cleanup_removes_only_expired_entries() {
    let mut cache: Cache<u32> = Cache::new();
    cache.set_at("old", 1, 10, 0);
    cache.set_at("new", 2, 100, 0);
    cache.set_at("other", 3, 5, 0);
    cache.cleanup_at(20);
    assert!(!cache.contains_at("old", 0));
    assert!(!cache.contains_at("other", 0));
    assert_eq!(cache.get_at("new", 20), Some(2));
}

#[test]
fn cleanup_changes_nothing_observable() {
    let mut swept: Cache<u32> = Cache::new();
    let mut kept: Cache<u32> = Cache::new();
    for cache in [&mut swept, &mut kept] {
        cache.set_at("a", 1, 10, 0);
        cache.set_at("b", 2, 30, 0);
    }
    swept.cleanup_at(20);
    for key in ["a", "b", "c"] {
        assert_eq!(swept.get_at(key, 25), kept.get_at(key, 25));
    }
}

#[test]
fn clock_reading_operations_round_trip() {
    let mut cache: Cache<String> = Cache::new();
    assert_eq!(cache.set("k", "v".to_string(), 60_000), None);
    assert!(cache.contains("k"));
    assert_eq!(cache.get("k"), Some("v".to_string()));
    assert_eq!(cache.del("k"), Some("v".to_string()));
    assert_eq!(cache.get("k"), None);
    assert!(!cache.contains("k"));
    cache.set("gone", "x".to_string(), 60_000);
    cache.cleanup();
    assert!(cache.contains("gone"));
}

#[test]
fn keys_are_independent() {
    let mut cache: Cache<u32> = Cache::new();
    cache.set_at("a", 1, 10, 0);
    cache.set_at("b", 2, 10, 0);
    assert_eq!(cache.del_at("a", 0), Some(1));
    assert_eq!(cache.get_at("b", 0), Some(2));
}

#[test]
fn contains_reports_live_entries_only() {
    let mut cache: Cache<u32> = Cache::new();
    assert!(!cache.contains("a"));
    cache.set("a", 1, 60_000);
    assert!(cache.contains("a"));
    assert_eq!(cache.del("a"), Some(1));
    assert!(!cache.contains("a"));
}
