use simplex_core::cache::{disk_record_matches, is_fresh, CachePolicy, MemoryCache};
use serde_json::Value;

fn strings(items: &[&str]) -> Value {
    Value::Array(items.iter().map(|s| Value::String(s.to_string())).collect())
}

#[test]
fn test_set_and_get_roundtrip() {
    let mut cache = MemoryCache::new();
    let key = "test:set_get_roundtrip";
    cache.set(key, 1_000, strings(&["a", "b"]));
    let got = cache.get(key, CachePolicy { ttl_secs: 60 }, 1_030);
    assert_eq!(got, Some(&strings(&["a", "b"])));
}

#[test]
fn test_ttl_expiry() {
    let mut cache = MemoryCache::new();
    let key = "test:ttl_expiry";
    cache.set(key, 1_000, Value::String("value".to_string()));
    let fresh = cache.get(key, CachePolicy { ttl_secs: 1 }, 1_001);
    assert_eq!(fresh, Some(&Value::String("value".to_string())));
    let stale = cache.get(key, CachePolicy { ttl_secs: 1 }, 1_002);
    assert!(stale.is_none());
}

#[test]
fn test_invalidate_prefix() {
    let mut cache = MemoryCache::new();
    cache.set("test:prefix:a", 5, Value::from(1u64));
    cache.set("test:prefix:b", 5, Value::from(2u64));
    cache.set("other:c", 5, Value::from(3u64));
    cache.invalidate_prefix("test:prefix:");
    let policy = CachePolicy { ttl_secs: 60 };
    assert!(cache.get("test:prefix:a", policy, 6).is_none());
    assert!(cache.get("test:prefix:b", policy, 6).is_none());
    assert_eq!(cache.get("other:c", policy, 6), Some(&Value::from(3u64)));
}

#[test]
fn test_zero_ttl_disables_cache_and_set_replaces() {
    let mut cache = MemoryCache::new();
    cache.set("k", 10, Value::from(1u64));
    cache.set("k", 20, Value::from(2u64));
    assert!(cache.get("k", CachePolicy { ttl_secs: 0 }, 20).is_none());
    assert_eq!(cache.get("k", CachePolicy { ttl_secs: 5 }, 24), Some(&Value::from(2u64)));
}

#[test]
fn test_is_fresh_and_record_match() {
    let p = CachePolicy { ttl_secs: 10 };
    assert!(is_fresh(100, 110, p));
    assert!(!is_fresh(100, 111, p));
    assert!(is_fresh(100, 50, p));
    assert!(disk_record_matches("a:b", "a:b"));
    assert!(!disk_record_matches("a:b", "a:c"));
}
