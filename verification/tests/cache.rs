use graphann::cache::{search_key, TtlCache};
use graphann::time::TimeSpan;

#[test]
fn put_get_roundtrip() {
    let mut cache = TtlCache::new(8, TimeSpan::from_secs(5));
    cache.put("a".to_string(), vec![1], TimeSpan::zero());
    assert_eq!(cache.get("a", TimeSpan::from_millis(1)), Some(vec![1]));
}

#[test]
fn ttl_expires_entries() {
    let mut cache = TtlCache::new(8, TimeSpan::from_millis(0));
    cache.put("a".to_string(), vec![1], TimeSpan::zero());
    // Two milliseconds later the zero time-to-live has passed.
    assert_eq!(cache.get("a", TimeSpan::from_millis(2)), None);
    // The expired entry was dropped, not merely hidden.
    assert_eq!(cache.get("a", TimeSpan::zero()), None);
}

#[test]
fn entry_lives_exactly_its_ttl() {
    let mut cache = TtlCache::new(8, TimeSpan::from_secs(5));
    cache.put("k".to_string(), vec![7, 8], TimeSpan::from_secs(10));
    assert_eq!(cache.get("k", TimeSpan::from_secs(15)), Some(vec![7, 8]));
    assert_eq!(cache.get("k", TimeSpan::new(15, 1)), None);
}

#[test]
fn missing_key_is_a_miss() {
    let mut cache = TtlCache::new(2, TimeSpan::from_secs(60));
    assert_eq!(cache.get("nope", TimeSpan::zero()), None);
}

#[test]
fn least_recently_used_entry_is_evicted() {
    let mut cache = TtlCache::new(2, TimeSpan::from_secs(60));
    let t = TimeSpan::zero();
    cache.put("a".to_string(), vec![1], t);
    cache.put("b".to_string(), vec![2], t);
    // Touch "a" so that "b" becomes the least recently used.
    assert_eq!(cache.get("a", t), Some(vec![1]));
    cache.put("c".to_string(), vec![3], t);
    assert_eq!(cache.get("b", t), None);
    assert_eq!(cache.get("a", t), Some(vec![1]));
    assert_eq!(cache.get("c", t), Some(vec![3]));
}

#[test]
fn put_replaces_previous_value() {
    let mut cache = TtlCache::new(2, TimeSpan::from_secs(60));
    cache.put("a".to_string(), vec![1], TimeSpan::zero());
    cache.put("a".to_string(), vec![9], TimeSpan::from_secs(1));
    assert_eq!(cache.get("a", TimeSpan::from_secs(2)), Some(vec![9]));
}

#[test]
fn clear_drops_everything() {
    let mut cache = TtlCache::new(4, TimeSpan::from_secs(60));
    cache.put("a".to_string(), vec![1], TimeSpan::zero());
    cache.put("b".to_string(), vec![2], TimeSpan::zero());
    cache.clear();
    assert_eq!(cache.get("a", TimeSpan::zero()), None);
    assert_eq!(cache.get("b", TimeSpan::zero()), None);
}

#[test]
fn search_key_joins_path_and_body() {
    assert_eq!(
        search_key("v1/tenants/t/indexes/i/search", "{\"k\":10}"),
        "v1/tenants/t/indexes/i/search|{\"k\":10}"
    );
}

#[test]
fn entry_outlives_other_operations() {
    let mut cache = TtlCache::new(3, TimeSpan::from_secs(10));
    cache.put("k".to_string(), vec![1], TimeSpan::zero());
    cache.put("a".to_string(), vec![2], TimeSpan::from_secs(1));
    assert_eq!(cache.get("a", TimeSpan::from_secs(2)), Some(vec![2]));
    assert_eq!(cache.get("missing", TimeSpan::from_secs(3)), None);
    assert_eq!(cache.get("k", TimeSpan::from_secs(4)), Some(vec![1]));
    cache.put("b".to_string(), vec![3], TimeSpan::from_secs(5));
    assert_eq!(cache.get("k", TimeSpan::from_secs(10)), Some(vec![1]));
    // Past its lifetime the read gives nothing and drops the entry, so a
    // later read gives nothing either, whatever the time.
    assert_eq!(cache.get("k", TimeSpan::new(10, 1)), None);
    assert_eq!(cache.get("k", TimeSpan::zero()), None);
    assert_eq!(cache.get("b", TimeSpan::from_secs(6)), Some(vec![3]));
}
