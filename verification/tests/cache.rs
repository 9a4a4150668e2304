use kuroko::cache::{beyond_secs, elapsed_ms, within_secs, OnDemand, TranscriptCache};

#[test]
fn new_cache_serves_nothing() {
    let cache = TranscriptCache::new(1_000);
    assert_eq!(cache.fresh(1_000, 12), None);
    assert_eq!(cache.latest(), "");
}

#[test]
fn fresh_transcript_is_served_within_window() {
    let mut cache = TranscriptCache::new(0);
    cache.store("hello".to_string(), 5_000);
    assert_eq!(cache.fresh(5_000, 12), Some("hello".to_string()));
    assert_eq!(cache.fresh(16_999, 12), Some("hello".to_string()));
    assert_eq!(cache.fresh(17_000, 12), None);
    assert_eq!(cache.fresh(60_000, 12), None);
    assert_eq!(cache.latest(), "hello");
}

#[test]
fn empty_transcript_is_never_served() {
    let mut cache = TranscriptCache::new(0);
    cache.store("hello".to_string(), 5_000);
    cache.store(String::new(), 6_000);
    assert_eq!(cache.fresh(6_000, 12), None);
    assert_eq!(cache.latest(), "");
}

#[test]
fn window_of_nothing_serves_nothing() {
    let mut cache = TranscriptCache::new(0);
    cache.store("hello".to_string(), 5_000);
    assert_eq!(cache.fresh(5_000, 0), None);
}

#[test]
fn clock_behind_the_cache_counts_as_no_time() {
    let mut cache = TranscriptCache::new(0);
    cache.store("hello".to_string(), 5_000);
    assert_eq!(cache.fresh(4_000, 1), Some("hello".to_string()));
    assert_eq!(elapsed_ms(5_000, 4_000), 0);
    assert_eq!(elapsed_ms(5_000, 7_500), 2_500);
}

#[test]
fn last_writer_wins() {
    let mut cache = TranscriptCache::new(0);
    cache.store("worker".to_string(), 1_000);
    cache.store("on demand".to_string(), 1_001);
    assert_eq!(cache.fresh(1_002, 12), Some("on demand".to_string()));
}

#[test]
fn on_demand_request_is_planned() {
    let mut cache = TranscriptCache::new(0);
    assert!(matches!(cache.on_demand(100, 12), OnDemand::Transcribe));
    cache.store("hello".to_string(), 200);
    match cache.on_demand(300, 12) {
        OnDemand::Cached(text) => assert_eq!(text, "hello"),
        other => panic!("expected the cached transcript, got {:?}", other),
    }
    assert!(matches!(cache.on_demand(12_199, 12), OnDemand::Cached(_)));
    assert!(matches!(cache.on_demand(12_200, 12), OnDemand::Transcribe));
    cache.store(String::new(), 12_200);
    assert!(matches!(cache.on_demand(12_201, 12), OnDemand::Transcribe));
}

#[test]
fn stale_request_on_an_empty_window_updates_the_cache() {
    let mut cache = TranscriptCache::new(0);
    cache.store("hello".to_string(), 200);
    assert!(matches!(cache.on_demand(20_000, 12), OnDemand::Transcribe));
    // an empty window transcribes to the empty text, which is stored
    assert_eq!(cache.settle(Ok(String::new()), 20_000), Ok(String::new()));
    assert_eq!(cache.latest(), "");
    assert_eq!(cache.fresh(20_000, 12), None);
    cache.store("later".to_string(), 31_999);
    assert_eq!(cache.fresh(32_000, 12), Some("later".to_string()));
}

#[test]
fn settle_stores_a_transcript_and_hands_it_on() {
    let mut cache = TranscriptCache::new(0);
    assert_eq!(cache.settle(Ok("good morning".to_string()), 4_000), Ok("good morning".to_string()));
    assert_eq!(cache.latest(), "good morning");
    assert_eq!(cache.fresh(15_999, 12), Some("good morning".to_string()));
    assert_eq!(cache.fresh(16_000, 12), None);
}

#[test]
fn settle_leaves_the_cache_alone_on_failure() {
    let mut cache = TranscriptCache::new(0);
    cache.store("hello".to_string(), 1_000);
    assert_eq!(
        cache.settle(Err("decoding failed".to_string()), 9_000),
        Err("decoding failed".to_string())
    );
    assert_eq!(cache.latest(), "hello");
    // the time is still that of the last success
    assert_eq!(cache.fresh(12_999, 12), Some("hello".to_string()));
    assert_eq!(cache.fresh(13_000, 12), None);
}

#[test]
fn seconds_are_compared_exactly() {
    assert!(within_secs(11_999, 12));
    assert!(!within_secs(12_000, 12));
    assert!(!within_secs(0, 0));
    assert!(within_secs(u64::MAX - 1, u64::MAX));
    assert!(!beyond_secs(20_000, 20));
    assert!(beyond_secs(20_001, 20));
    assert!(!beyond_secs(0, 0));
    assert!(beyond_secs(1, 0));
    assert!(!beyond_secs(u64::MAX, u64::MAX));
}
