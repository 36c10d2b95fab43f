use whtop::cache::{CachePolicy, SnapshotCache};
use whtop::errors::{ConfigError, ProviderError};
use whtop::metrics::{GlobalCpuInfo, SnapshotData};

fn sample_data(frequency: u64) -> SnapshotData {
    SnapshotData {
        global_cpu: GlobalCpuInfo { usage: 1250, frequency },
        cpus: Vec::new(),
        total_memory: 16_000_000,
        used_memory: 8_000_000,
        free_memory: 4_000_000,
        available_memory: 7_500_000,
        processes: Vec::new(),
    }
}

fn provider_failure() -> ProviderError {
    ProviderError { message: String::from("capture failed") }
}

fn cache_with_interval(millis: i64) -> SnapshotCache {
    let policy = CachePolicy::new(millis).expect("interval must be accepted");
    SnapshotCache::new(policy)
}

#[test]
fn refresh_runs_only_when_stale() {
    // With a two-second window: t=0 refreshes, t=1 serves the cached
    // snapshot, t=2.1 refreshes again.
    let mut cache = cache_with_interval(2000);

    let (r, ran) = cache.acquire_at(0, Ok(sample_data(1)));
    assert_eq!(r.unwrap(), 0);
    assert!(ran);

    let (r, ran) = cache.acquire_at(1000, Ok(sample_data(2)));
    assert_eq!(r.unwrap(), 0);
    assert!(!ran);

    let (r, ran) = cache.acquire_at(2100, Ok(sample_data(3)));
    assert_eq!(r.unwrap(), 2100);
    assert!(ran);
    assert_eq!(cache.last_refresh_millis(), Some(2100));
}

#[test]
fn zero_interval_disables_caching() {
    // With a zero window every acquire triggers the provider.
    let mut cache = cache_with_interval(0);
    let mut captures: usize = 0;
    for call in 0..10u64 {
        let (r, ran) = cache.acquire_at(call, Ok(sample_data(call)));
        assert_eq!(r.unwrap(), call);
        if ran {
            captures += 1;
        }
    }
    assert_eq!(captures, 10);
}

#[test]
fn storm_of_callers_captures_once() {
    // 50 callers racing past the fast path while stale, serialized by the
    // exclusive lock: exactly one capture, and every caller observes the
    // identical capture timestamp.
    let mut cache = cache_with_interval(2000);
    let mut captures: usize = 0;
    let mut observed: Vec<u64> = Vec::new();
    for caller in 0..50u64 {
        let (r, ran) = cache.acquire_at(10_000, Ok(sample_data(caller)));
        observed.push(r.unwrap());
        if ran {
            captures += 1;
        }
    }
    assert_eq!(captures, 1);
    assert!(observed.iter().all(|&ts| ts == 10_000));
}

#[test]
fn acquire_is_idempotent_within_window() {
    // Two acquires inside the same staleness window return the identical
    // capture timestamp.
    let mut cache = cache_with_interval(5000);
    let (first, _) = cache.acquire_at(100, Ok(sample_data(1)));
    let (second, ran) = cache.acquire_at(5099, Ok(sample_data(2)));
    assert_eq!(first.unwrap(), second.unwrap());
    assert!(!ran);
}

#[test]
fn provider_failure_leaves_cache_untouched() {
    let mut cache = cache_with_interval(1000);
    let (r, _) = cache.acquire_at(0, Ok(sample_data(7)));
    assert_eq!(r.unwrap(), 0);

    // A caller inside the window is served from the cache, unaffected by
    // what happens later.
    let (r, ran) = cache.acquire_at(500, Err(provider_failure()));
    assert_eq!(r.unwrap(), 0);
    assert!(!ran);

    // A stale caller whose refresh fails gets the error; the cached state
    // stays as it was.
    let (r, ran) = cache.acquire_at(2000, Err(provider_failure()));
    assert_eq!(r.unwrap_err().message, "capture failed");
    assert!(ran);
    assert_eq!(cache.last_refresh_millis(), Some(0));
    assert_eq!(cache.current().captured_at, 0);
    assert_eq!(cache.current().data.global_cpu.frequency, 7);

    // The next natural attempt succeeds and refreshes.
    let (r, ran) = cache.acquire_at(2100, Ok(sample_data(8)));
    assert_eq!(r.unwrap(), 2100);
    assert!(ran);
    assert_eq!(cache.current().data.global_cpu.frequency, 8);
}

#[test]
fn served_timestamps_never_go_backwards() {
    let mut cache = cache_with_interval(300);
    let mut last: u64 = 0;
    let times = [0u64, 100, 250, 400, 450, 900, 901, 2000];
    for (step, now) in times.iter().enumerate() {
        let (r, _) = cache.acquire_at(*now, Ok(sample_data(step as u64)));
        let ts = r.unwrap();
        assert!(ts >= last, "timestamp went backwards");
        last = ts;
    }
}

#[test]
fn negative_refresh_interval_is_rejected() {
    assert_eq!(CachePolicy::new(-1).unwrap_err(), ConfigError::NegativeRefreshInterval);
    assert!(CachePolicy::new(0).is_ok());
    assert!(CachePolicy::new(2000).is_ok());
}
