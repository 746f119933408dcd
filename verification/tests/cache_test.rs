use zos_query::cache::{ResponseCache, CachedResponse, cache_key};

fn resp(data: &str, ts: i64) -> CachedResponse {
    CachedResponse { data: data.to_string(), timestamp: ts }
}

#[test]
fn test_store_then_load_returns_value() {
    let mut cache = ResponseCache::new(4);
    cache.store("m1", "p1", resp("{\"a\":1}", 10));
    let hit = cache.load("m1", "p1").unwrap();
    assert_eq!(hit.data, "{\"a\":1}");
    assert_eq!(hit.timestamp, 10);
}

#[test]
fn test_load_miss_returns_none() {
    let mut cache = ResponseCache::new(4);
    cache.store("m1", "p1", resp("x", 0));
    assert!(cache.load("m1", "p2").is_none());
    assert!(cache.load("m2", "p1").is_none());
}

#[test]
fn test_eviction_removes_least_recently_used_first() {
    let mut cache = ResponseCache::new(2);
    cache.store("m", "p1", resp("one", 1));
    cache.store("m", "p2", resp("two", 2));
    // touch p1 so p2 becomes the least recently used
    assert!(cache.load("m", "p1").is_some());
    // overflow: p2 must be evicted, not p1
    cache.store("m", "p3", resp("three", 3));
    assert_eq!(cache.len(), 2);
    assert!(cache.load("m", "p2").is_none());
    assert!(cache.load("m", "p1").is_some());
    assert!(cache.load("m", "p3").is_some());
}

#[test]
fn test_store_updates_existing_key() {
    let mut cache = ResponseCache::new(2);
    cache.store("m", "p", resp("old", 1));
    cache.store("m", "p", resp("new", 2));
    assert_eq!(cache.len(), 1);
    assert_eq!(cache.load("m", "p").unwrap().data, "new");
}

#[test]
fn test_cache_key_is_deterministic_and_discriminates() {
    let k1 = cache_key("model-a", "prompt");
    let k2 = cache_key("model-a", "prompt");
    assert_eq!(k1, k2);
    assert_ne!(cache_key("model-a", "prompt"), cache_key("model-b", "prompt"));
    assert_ne!(cache_key("model-a", "prompt-1"), cache_key("model-a", "prompt-2"));
    // the separator keeps (model, prompt) splits apart
    assert_ne!(cache_key("ab", "c"), cache_key("a", "bc"));
}

#[test]
fn test_default_capacity_is_200() {
    let mut cache = ResponseCache::with_default_capacity();
    for i in 0..201 {
        cache.store("m", &format!("p{}", i), resp("v", i));
    }
    assert_eq!(cache.len(), 200);
    // the very first entry was the least recently used and is gone
    assert!(cache.load("m", "p0").is_none());
    assert!(cache.load("m", "p200").is_some());
}
