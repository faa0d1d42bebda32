use based_rollup::event_indexer::{plan_batches, BlockRange, EventIndexer, EventIndexerConfig};

fn config_with_batch(batch_size: u64) -> EventIndexerConfig {
    let mut config = EventIndexerConfig::default();
    config.batch_size = batch_size;
    config
}

fn ranges(pairs: &[(u64, u64)]) -> Vec<BlockRange> {
    pairs.iter().map(|&(from, to)| BlockRange { from, to }).collect()
}

#[test]
fn default_config_values() {
    let config = EventIndexerConfig::default();
    assert_eq!(config.batch_size, 1000);
    assert_eq!(config.max_retries, 3);
    assert_eq!(config.retry_delay_ms, 1000);
    assert_eq!(config.max_block_range, 10000);
}

#[test]
fn new_indexer_starts_at_zero() {
    let indexer = EventIndexer::new(EventIndexerConfig::default());
    assert_eq!(indexer.last_indexed_block(), 0);
    assert!(!indexer.is_indexing());
    assert_eq!(indexer.contract_address(), &vec![0u8; 20]);
    assert_eq!(indexer.topic(), &vec![0u8; 32]);
    assert_eq!(indexer.config().batch_size, 1000);
}

#[test]
fn plan_covers_range_in_batches() {
    assert_eq!(plan_batches(10, 25, 4), ranges(&[(10, 13), (14, 17), (18, 21), (22, 25)]));
    assert_eq!(plan_batches(10, 24, 4), ranges(&[(10, 13), (14, 17), (18, 21), (22, 24)]));
}

#[test]
fn plan_single_block() {
    assert_eq!(plan_batches(3, 3, 5), ranges(&[(3, 3)]));
    assert_eq!(plan_batches(3, 7, 1).len(), 5);
}

#[test]
fn plan_batch_larger_than_span() {
    assert_eq!(plan_batches(0, 99, 1000), ranges(&[(0, 99)]));
}

#[test]
fn plan_reaches_largest_block() {
    let max = u64::MAX;
    assert_eq!(plan_batches(max - 2, max, 2), ranges(&[(max - 2, max - 1), (max, max)]));
    assert_eq!(plan_batches(0, max, u64::MAX), ranges(&[(0, max - 1), (max, max)]));
}

#[test]
fn scenario_historical_then_live() {
    let mut indexer = EventIndexer::new(config_with_batch(2));
    let span = indexer.start_run(Some(0), 5);
    assert_eq!(span, Some(BlockRange { from: 0, to: 5 }));
    let plan = indexer.begin_index_events(0, 5);
    assert!(indexer.is_indexing());
    assert_eq!(plan, ranges(&[(0, 1), (2, 3), (4, 5)]));
    for range in plan {
        indexer.record_batch(range);
    }
    indexer.finish_index_events();
    assert!(!indexer.is_indexing());
    assert_eq!(indexer.last_indexed_block(), 5);
    assert_eq!(indexer.live_range(6), Some(BlockRange { from: 6, to: 6 }));
    assert_eq!(indexer.live_range(9), Some(BlockRange { from: 6, to: 9 }));
}

#[test]
fn scenario_start_at_head() {
    let mut indexer = EventIndexer::new(EventIndexerConfig::default());
    assert_eq!(indexer.start_run(Some(7), 7), None);
    assert_eq!(indexer.last_indexed_block(), 7);
    assert_eq!(indexer.live_range(7), None);
    assert_eq!(indexer.live_range(8), Some(BlockRange { from: 8, to: 8 }));
}

#[test]
fn start_run_uses_cursor_without_start() {
    let mut indexer = EventIndexer::new(EventIndexerConfig::default());
    indexer.record_head(4);
    assert_eq!(indexer.start_run(None, 10), Some(BlockRange { from: 4, to: 10 }));
    assert_eq!(indexer.start_run(Some(12), 10), None);
    assert_eq!(indexer.last_indexed_block(), 12);
}

#[test]
fn cursor_ends_at_upper_bound() {
    let mut indexer = EventIndexer::new(config_with_batch(3));
    let plan = indexer.begin_index_events(5, 14);
    for range in plan {
        indexer.record_batch(range);
    }
    assert_eq!(indexer.last_indexed_block(), 14);
}

#[test]
fn live_heads_are_consecutive_and_monotone() {
    let mut indexer = EventIndexer::new(EventIndexerConfig::default());
    indexer.start_run(Some(20), 10);
    let first = indexer.live_range(23).unwrap();
    assert_eq!(first, BlockRange { from: 21, to: 23 });
    indexer.record_head(first.to);
    assert_eq!(indexer.live_range(25), Some(BlockRange { from: 24, to: 25 }));
    indexer.record_head(22);
    assert_eq!(indexer.last_indexed_block(), 23);
}

#[test]
fn no_live_range_past_last_block() {
    let mut indexer = EventIndexer::new(EventIndexerConfig::default());
    indexer.record_head(u64::MAX);
    assert_eq!(indexer.live_range(u64::MAX), None);
}
