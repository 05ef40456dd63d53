use hoststatus::cache::{create_cache, CacheState, SystemStatsCache};
use hoststatus::engine::DeltaCpuEngine;
use hoststatus::stats::{CpuStats, CpuUsageBreakdown, StatsError, SystemStats};
use std::sync::Arc;

/// A consistent snapshot for tests: `cpu_centi` is the total usage in
/// hundredths of a percent, split 50/10/40 across user/nice/system as the
/// original fixture did; memory figures honour used = total - available.
fn create_test_stats(hostname: &str, cpu_centi: u32) -> SystemStats {
    SystemStats {
        hostname: hostname.to_string(),
        cpu_usage_centipercent: cpu_centi,
        cpu_stats: CpuStats {
            overall: CpuUsageBreakdown {
                user_centipercent: cpu_centi / 2,
                nice_centipercent: cpu_centi / 10,
                system_centipercent: cpu_centi * 2 / 5,
                total_centipercent: cpu_centi,
            },
            per_core: Vec::new(),
            core_count: 0,
        },
        memory_total: 1024 * 1024 * 1024,          // 1GB
        memory_used: 768 * 1024 * 1024,            // total - available
        memory_available: 256 * 1024 * 1024,       // 256MB
        memory_cached: 128 * 1024 * 1024,          // 128MB
        memory_free: 128 * 1024 * 1024,            // 128MB
        timestamp: 0,
    }
}

fn wait_millis(ms: u64) {
    let start = std::time::Instant::now();
    while start.elapsed() < std::time::Duration::from_millis(ms) {
        std::hint::spin_loop();
    }
}

#[test]
fn test_cache_basic_operations() {
    let cache = SystemStatsCache::new(10 * 1000);

    assert!(cache.get().is_none());

    let stats = create_test_stats("test", 5000);
    cache.update(stats.clone());

    let cached = cache.get().unwrap();
    assert_eq!(cached.hostname, "test");
    assert_eq!(cached.cpu_usage_centipercent, 5000);
}

#[test]
fn test_cache_expiration() {
    let cache = SystemStatsCache::new(50);

    let stats = create_test_stats("test", 5000);
    cache.update(stats);

    assert!(cache.get().is_some());

    wait_millis(100);

    assert!(cache.get().is_none());
}

#[test]
fn test_cache_creation() {
    let cache = SystemStatsCache::new(10 * 1000);

    assert!(cache.get().is_none());
}

#[test]
fn test_cache_update_and_get() {
    let cache = SystemStatsCache::new(10 * 1000);
    let stats = create_test_stats("test-host", 5000);

    cache.update(stats.clone());

    let cached = cache.get().unwrap();
    assert_eq!(cached.hostname, "test-host");
    assert_eq!(cached.cpu_usage_centipercent, 5000);
    assert_eq!(cached.memory_total, 1024 * 1024 * 1024);
}

#[test]
fn test_cache_multiple_updates() {
    let cache = SystemStatsCache::new(10 * 1000);

    let stats1 = create_test_stats("host1", 3000);
    cache.update(stats1.clone());

    let cached1 = cache.get().unwrap();
    assert_eq!(cached1.hostname, "host1");
    assert_eq!(cached1.cpu_usage_centipercent, 3000);

    let stats2 = create_test_stats("host2", 7000);
    cache.update(stats2.clone());

    let cached2 = cache.get().unwrap();
    assert_eq!(cached2.hostname, "host2");
    assert_eq!(cached2.cpu_usage_centipercent, 7000);
}

#[test]
fn test_cache_drop() {
    let cache = SystemStatsCache::new(10 * 1000);
    let stats = create_test_stats("test-host", 5000);
    cache.update(stats);

    assert!(cache.get().is_some());

    // The held snapshot is released exactly once, by ownership.
    drop(cache);
}

#[test]
fn test_create_cache_function() {
    let cache = create_cache(5);

    assert!(cache.get().is_none());

    let stats = create_test_stats("test", 8000);
    cache.update(stats.clone());

    let cached = cache.get().unwrap();
    assert_eq!(cached.hostname, "test");
    assert_eq!(cached.cpu_usage_centipercent, 8000);
}

#[test]
fn test_cache_concurrent_access() {
    let cache = Arc::new(SystemStatsCache::new(10 * 1000));
    let stats = create_test_stats("concurrent-test", 6000);
    cache.update(stats.clone());

    let mut results = vec![];
    for i in 0..10 {
        let cache_clone = cache.clone();
        let cached = cache_clone.get().unwrap();
        assert_eq!(cached.hostname, "concurrent-test");
        assert_eq!(cached.cpu_usage_centipercent, 6000);
        results.push(format!("task-{}-{}", i, cached.hostname));
    }

    for result in results {
        assert!(result.starts_with("task-"));
        assert!(result.ends_with("concurrent-test"));
    }
}

#[test]
fn test_cache_zero_ttl() {
    let cache = SystemStatsCache::new(1);
    let stats = create_test_stats("zero-ttl", 4000);

    cache.update(stats);

    assert!(cache.get().is_some());

    wait_millis(10);
    assert!(cache.get().is_none());
}

#[test]
fn test_cache_large_ttl() {
    let cache = SystemStatsCache::new(3600 * 1000);
    let stats = create_test_stats("large-ttl", 9000);

    cache.update(stats);

    assert!(cache.get().is_some());

    wait_millis(100);
    assert!(cache.get().is_some());
}

#[test]
fn test_cache_state_empty_lookup() {
    // Before any update a lookup yields nothing, at any time.
    let state = CacheState::new(10_000);
    assert!(state.lookup(0).is_none());
    assert!(state.lookup(123).is_none());
    assert!(state.lookup(u64::MAX).is_none());
}

#[test]
fn test_cache_state_freshness_window() {
    // An update at 5000 with a 10s TTL serves the snapshot up to 15000
    // inclusive and nothing from 15001 on.
    let mut state = CacheState::new(10_000);
    state.store(create_test_stats("window", 2500), 5000);
    let hit = state.lookup(5000).unwrap();
    assert_eq!(hit.hostname, "window");
    assert!(state.lookup(15_000).is_some());
    assert!(state.lookup(15_001).is_none());
    // A clock that moved backwards counts as no elapsed time.
    assert!(state.lookup(4000).is_some());
}

#[test]
fn test_get_or_update_collects_and_caches() {
    let cache = SystemStatsCache::new(3600 * 1000);
    let mut engine = DeltaCpuEngine::new();
    let stat = "cpu 100 20 50 800 10 5 15\ncpu0 100 20 50 800 10 5 15";
    let meminfo = "MemTotal: 1000 kB\nMemAvailable: 400 kB\nMemFree: 300 kB\nCached: 100 kB";

    // Cold start: the first cycle is collected, installed, and all-zero.
    let first = cache
        .get_or_update(&mut engine, stat.as_bytes(), meminfo.as_bytes(), "host-a".to_string())
        .unwrap();
    assert_eq!(first.hostname, "host-a");
    assert_eq!(first.cpu_usage_centipercent, 0);
    assert_eq!(first.memory_total, 1000 * 1024);
    assert_eq!(first.memory_used, 600 * 1024);
    assert_eq!(first.cpu_stats.core_count, 1);

    // While fresh the cache answers; the new readings are not even parsed.
    let second = cache
        .get_or_update(&mut engine, b"garbage", b"", "host-b".to_string())
        .unwrap();
    assert_eq!(second.hostname, "host-a");
}

#[test]
fn test_get_or_update_cold_parse_failure() {
    let cache = SystemStatsCache::new(10 * 1000);
    let mut engine = DeltaCpuEngine::new();
    let result = cache.get_or_update(&mut engine, b"no counters here", b"", "h".to_string());
    assert!(matches!(result.unwrap_err(), StatsError::ParseError(_)));
    // A failed cycle leaves the cache untouched.
    assert!(cache.get().is_none());
}
