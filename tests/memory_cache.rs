use axum_web_starter::memory_cache::MemoryCache;

fn key(s: &str) -> String {
    s.to_string()
}

#[test]
fn new_cache_is_empty_with_its_settings() {
    let c = MemoryCache::new(10_000, 300);
    assert_eq!(c.len(), 0);
    assert_eq!(c.capacity(), 10_000);
    assert_eq!(c.default_ttl(), 300);
}

#[test]
fn read_after_write_hits() {
    let mut c = MemoryCache::new(4, 300);
    c.write(key("a"), vec![1, 2, 3], 300, 1000);
    assert_eq!(c.read(&key("a"), 1000), Some(vec![1, 2, 3]));
    assert_eq!(c.read(&key("a"), 1299), Some(vec![1, 2, 3]));
}

#[test]
fn entry_expires_after_its_ttl() {
    let mut c = MemoryCache::new(4, 300);
    c.write(key("a"), vec![7], 300, 1000);
    assert_eq!(c.read(&key("a"), 1300), None);
    assert_eq!(c.len(), 0);
    assert_eq!(c.read(&key("a"), 1000), None);
}

#[test]
fn missing_key_misses() {
    let mut c = MemoryCache::new(4, 300);
    assert_eq!(c.read(&key("nothing"), 0), None);
}

#[test]
fn overwrite_replaces_value_and_lifetime() {
    let mut c = MemoryCache::new(4, 300);
    c.write(key("a"), vec![1], 10, 0);
    c.write(key("a"), vec![2], 100, 5);
    assert_eq!(c.len(), 1);
    assert_eq!(c.read(&key("a"), 50), Some(vec![2]));
}

#[test]
fn delete_removes_and_is_idempotent() {
    let mut c = MemoryCache::new(4, 300);
    c.write(key("a"), vec![1], 300, 0);
    c.delete(&key("a"));
    assert_eq!(c.read(&key("a"), 1), None);
    c.delete(&key("a"));
    assert_eq!(c.len(), 0);
}

#[test]
fn full_cache_evicts_least_recently_used() {
    let mut c = MemoryCache::new(2, 300);
    c.write(key("a"), vec![1], 300, 0);
    c.write(key("b"), vec![2], 300, 0);
    assert_eq!(c.read(&key("a"), 1), Some(vec![1]));
    c.write(key("c"), vec![3], 300, 2);
    assert_eq!(c.len(), 2);
    assert_eq!(c.read(&key("b"), 3), None);
    assert_eq!(c.read(&key("a"), 3), Some(vec![1]));
    assert_eq!(c.read(&key("c"), 3), Some(vec![3]));
}

#[test]
fn lifetime_past_the_clock_end_saturates() {
    let mut c = MemoryCache::new(1, 300);
    c.write(key("a"), vec![9], u64::MAX, 10);
    assert_eq!(c.read(&key("a"), u64::MAX - 1), Some(vec![9]));
    assert_eq!(c.read(&key("a"), u64::MAX), None);
}

#[test]
fn default_settings() {
    let c = MemoryCache::with_defaults();
    assert_eq!(c.capacity(), 10_000);
    assert_eq!(c.default_ttl(), 300);
    assert_eq!(c.len(), 0);
}
