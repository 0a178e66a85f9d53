use capacity_cache::cache::{Cache, DEFAULT_PENDING_LIMIT};
use capacity_cache::error::{CapacityError, PredicateError};
use capacity_cache::listener::{EvictionListener, NoListener, RemovalCause};

struct Recorder {
    seen: Vec<(u64, RemovalCause)>,
}

impl EvictionListener<String> for Recorder {
    fn on_evict(&mut self, key: u64, _value: String, cause: RemovalCause) {
        self.seen.push((key, cause));
    }
}

fn recording(capacity: u64) -> Cache<String, Recorder> {
    Cache::with_listener(capacity, Recorder { seen: Vec::new() })
}

fn fill<L: EvictionListener<String>>(cache: &mut Cache<String, L>, from: u64, to: u64) {
    for i in from..to {
        assert!(cache.insert(i, format!("value-{}", i)));
    }
}

#[test]
fn blocking_scenario_shrinks_then_drains() {
    let mut cache: Cache<String, NoListener> = Cache::new(100);
    fill(&mut cache, 0, 50);
    cache.run_pending_tasks();
    assert_eq!(cache.entry_count(), 50);
    assert_eq!(cache.set_max_capacity_block(30), Ok(()));
    assert!(cache.entry_count() <= 30);
    assert_eq!(cache.entry_count(), 30);
    assert_eq!(cache.set_max_capacity_block(0), Ok(()));
    assert_eq!(cache.entry_count(), 0);
    assert!(cache.insert(999, "test-value".to_string()));
    cache.run_pending_tasks();
    assert_eq!(cache.entry_count(), 0);
    assert!(!cache.contains_key(999));
}

#[test]
fn counting_listener_sees_every_eviction() {
    let mut cache = recording(50);
    fill(&mut cache, 0, 50);
    cache.run_pending_tasks();
    assert_eq!(cache.entry_count(), 50);
    assert_eq!(cache.set_max_capacity_block(20), Ok(()));
    assert!(cache.entry_count() <= 20);
    assert!(cache.listener().seen.len() >= 30);
    assert_eq!(cache.listener().seen.len(), 30);
}

#[test]
fn repeated_blocking_change_evicts_nothing_more() {
    let mut cache = recording(100);
    fill(&mut cache, 0, 60);
    assert_eq!(cache.set_max_capacity_block(25), Ok(()));
    let after_first = cache.listener().seen.len();
    assert_eq!(after_first, 35);
    assert!(cache.weighted_size() <= 25);
    assert_eq!(cache.set_max_capacity_block(25), Ok(()));
    assert_eq!(cache.listener().seen.len(), after_first);
    assert!(cache.weighted_size() <= 25);
    assert_eq!(cache.entry_count(), 25);
}

#[test]
fn blocking_change_converges_with_weights() {
    let mut cache: Cache<String, NoListener> = Cache::new(1000);
    for i in 0..10u64 {
        assert!(cache.insert_with_weight(i, format!("v{}", i), i + 1));
    }
    assert_eq!(cache.weighted_size(), 55);
    assert_eq!(cache.set_max_capacity_block(20), Ok(()));
    // the eight oldest entries, of weights 1 to 8, go first and leave 9 + 10
    assert_eq!(cache.weighted_size(), 19);
    assert_eq!(cache.entry_count(), 2);
    assert!(cache.contains_key(8));
    assert!(cache.contains_key(9));
    assert_eq!(cache.set_max_capacity_block(5), Ok(()));
    assert_eq!(cache.weighted_size(), 0);
    assert_eq!(cache.entry_count(), 0);
}

#[test]
fn zero_capacity_drains_and_stays_empty() {
    let mut cache = recording(10);
    fill(&mut cache, 0, 5);
    assert_eq!(cache.set_max_capacity_block(0), Ok(()));
    assert_eq!(cache.entry_count(), 0);
    assert_eq!(cache.listener().seen.len(), 5);
    assert!(cache.insert(7, "late".to_string()));
    assert_eq!(cache.entry_count(), 1);
    cache.run_pending_tasks();
    assert_eq!(cache.entry_count(), 0);
    assert_eq!(cache.listener().seen.len(), 6);
}

#[test]
fn zero_capacity_removes_weightless_entries() {
    let mut cache: Cache<String, NoListener> = Cache::new(10);
    assert!(cache.insert_with_weight(1, "a".to_string(), 0));
    assert!(cache.insert_with_weight(2, "b".to_string(), 0));
    cache.run_pending_tasks();
    assert_eq!(cache.entry_count(), 2);
    assert_eq!(cache.set_max_capacity_block(0), Ok(()));
    assert_eq!(cache.entry_count(), 0);
}

#[test]
fn listener_hears_exactly_the_surplus() {
    let mut cache = recording(100);
    fill(&mut cache, 0, 40);
    cache.run_pending_tasks();
    assert_eq!(cache.set_max_capacity_block(15), Ok(()));
    let seen = &cache.listener().seen;
    assert_eq!(seen.len(), 25);
    assert!(seen.iter().all(|n| n.1 == RemovalCause::SizeConstraint));
    let keys: Vec<u64> = seen.iter().map(|n| n.0).collect();
    assert_eq!(keys, (0..25).collect::<Vec<u64>>());
    assert_eq!(cache.entry_count(), 15);
}

#[test]
fn queued_requests_match_blocking_calls() {
    let mut queued = recording(200);
    let mut blocking = recording(200);
    fill(&mut queued, 0, 120);
    fill(&mut blocking, 0, 120);

    let mut blocking_counts = Vec::new();
    for n in [100u64, 50, 80] {
        let before = blocking.listener().seen.len();
        assert_eq!(blocking.set_max_capacity_block(n), Ok(()));
        blocking_counts.push(blocking.listener().seen.len() - before);
    }
    assert_eq!(blocking_counts, vec![20, 50, 0]);

    for n in [100u64, 50, 80] {
        assert_eq!(queued.set_max_capacity_async(n), Ok(()));
    }
    assert_eq!(queued.policy().max_capacity(), Some(200));
    assert_eq!(queued.entry_count(), 120);
    queued.run_pending_tasks();

    assert_eq!(queued.policy().max_capacity(), Some(80));
    assert_eq!(blocking.policy().max_capacity(), Some(80));
    assert_eq!(queued.listener().seen, blocking.listener().seen);
    assert_eq!(queued.entry_count(), blocking.entry_count());
    assert_eq!(queued.entry_count(), 50);
}

#[test]
fn earlier_small_request_is_not_coalesced_away() {
    let mut cache = recording(100);
    fill(&mut cache, 0, 40);
    assert_eq!(cache.set_max_capacity_async(10), Ok(()));
    assert_eq!(cache.set_max_capacity_async(100), Ok(()));
    cache.run_pending_tasks();
    assert_eq!(cache.listener().seen.len(), 30);
    assert_eq!(cache.entry_count(), 10);
    assert_eq!(cache.policy().max_capacity(), Some(100));
}

#[test]
fn blocking_change_applies_queued_requests_first() {
    let mut cache = recording(100);
    fill(&mut cache, 0, 40);
    assert_eq!(cache.set_max_capacity_async(5), Ok(()));
    assert_eq!(cache.set_max_capacity_block(100), Ok(()));
    assert_eq!(cache.entry_count(), 5);
    assert_eq!(cache.listener().seen.len(), 35);
    assert_eq!(cache.policy().max_capacity(), Some(100));
}

#[test]
fn async_change_waits_for_maintenance() {
    let mut cache: Cache<String, NoListener> = Cache::new(100);
    fill(&mut cache, 0, 50);
    assert_eq!(cache.set_max_capacity_async(30), Ok(()));
    assert_eq!(cache.policy().max_capacity(), Some(100));
    assert_eq!(cache.entry_count(), 50);
    cache.run_pending_tasks();
    assert_eq!(cache.policy().max_capacity(), Some(30));
    assert_eq!(cache.entry_count(), 30);
    for n in [50u64, 40, 35, 25, 20] {
        assert_eq!(cache.set_max_capacity_async(n), Ok(()));
    }
    cache.run_pending_tasks();
    assert_eq!(cache.policy().max_capacity(), Some(20));
    assert_eq!(cache.entry_count(), 20);
}

#[test]
fn raising_capacity_keeps_entries() {
    let mut cache = recording(100);
    fill(&mut cache, 0, 50);
    assert_eq!(cache.set_max_capacity(200), Ok(()));
    assert_eq!(cache.policy().max_capacity(), Some(200));
    assert_eq!(cache.entry_count(), 50);
    assert!(cache.listener().seen.is_empty());
}

#[test]
fn closed_cache_refuses_changes() {
    let mut cache: Cache<String, NoListener> = Cache::new(10);
    fill(&mut cache, 0, 3);
    assert_eq!(cache.set_max_capacity_async(1), Ok(()));
    cache.close();
    assert_eq!(cache.set_max_capacity_block(1), Err(CapacityError::CacheDropped));
    assert_eq!(cache.set_max_capacity(1), Err(CapacityError::CacheDropped));
    assert_eq!(cache.set_max_capacity_async(1), Err(CapacityError::CacheDropped));
    cache.run_pending_tasks();
    assert_eq!(cache.entry_count(), 3);
    assert_eq!(cache.policy().max_capacity(), Some(10));
}

#[test]
fn full_queue_refuses_async_changes() {
    let mut cache: Cache<String, NoListener> = Cache::new(10).with_pending_limit(2);
    assert_eq!(cache.set_max_capacity_async(5), Ok(()));
    assert_eq!(cache.set_max_capacity_async(6), Ok(()));
    assert_eq!(cache.set_max_capacity_async(7), Err(CapacityError::ChannelError));
    cache.run_pending_tasks();
    assert_eq!(cache.policy().max_capacity(), Some(6));
    assert_eq!(cache.set_max_capacity_async(7), Ok(()));
    let mut closed_queue: Cache<String, NoListener> = Cache::new(10).with_pending_limit(0);
    assert_eq!(closed_queue.set_max_capacity_async(1), Err(CapacityError::ChannelError));
    assert_eq!(closed_queue.set_max_capacity_block(1), Ok(()));
}

#[test]
fn default_queue_takes_the_default_limit() {
    let mut cache: Cache<String, NoListener> = Cache::new(10);
    for i in 0..DEFAULT_PENDING_LIMIT {
        assert_eq!(cache.set_max_capacity_async(i as u64), Ok(()));
    }
    assert_eq!(cache.set_max_capacity_async(1), Err(CapacityError::ChannelError));
}

#[test]
fn reinsertion_moves_an_entry_to_the_back() {
    let mut cache = recording(10);
    fill(&mut cache, 0, 3);
    assert!(cache.insert(0, "again".to_string()));
    assert_eq!(cache.entry_count(), 3);
    assert_eq!(cache.get(0), Some(&"again".to_string()));
    assert_eq!(cache.set_max_capacity_block(1), Ok(()));
    let keys: Vec<u64> = cache.listener().seen.iter().map(|n| n.0).collect();
    assert_eq!(keys, vec![1, 2]);
    assert!(cache.contains_key(0));
}

#[test]
fn remove_and_get() {
    let mut cache = recording(10);
    fill(&mut cache, 0, 3);
    assert_eq!(cache.get(1), Some(&"value-1".to_string()));
    assert_eq!(cache.get(5), None);
    assert_eq!(cache.remove(1), Some("value-1".to_string()));
    assert_eq!(cache.remove(1), None);
    assert!(!cache.contains_key(1));
    assert_eq!(cache.entry_count(), 2);
    assert!(cache.listener().seen.is_empty());
}

#[test]
fn overflowing_weight_is_refused() {
    let mut cache: Cache<String, NoListener> = Cache::new(u64::MAX);
    assert!(cache.insert_with_weight(1, "a".to_string(), u64::MAX - 1));
    assert!(!cache.insert_with_weight(2, "b".to_string(), 2));
    assert_eq!(cache.entry_count(), 1);
    assert!(cache.insert(2, "b".to_string()));
    assert_eq!(cache.weighted_size(), u64::MAX);
    assert!(cache.insert_with_weight(1, "c".to_string(), u64::MAX - 1));
    assert_eq!(cache.weighted_size(), u64::MAX);
}

#[test]
fn error_messages() {
    assert_eq!(CapacityError::CacheDropped.message(), "The cache has been dropped");
    assert_eq!(
        CapacityError::ChannelError.message(),
        "Failed to send capacity change operation to internal channel"
    );
    assert_eq!(
        PredicateError::InvalidationClosuresDisabled.message(),
        "Support for invalidation closures is disabled in this cache. \
         Please enable it by calling the support_invalidation_closures \
         method of the builder at the cache creation time"
    );
}
