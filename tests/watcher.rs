use based_rollup::da_watcher::{
    CompressionType, DAWatcher, DataQuery, DefaultDataSourceFetcher, ManifestProducer,
    ProducerAction,
};
use std::time::Duration;

#[test]
fn test_watcher_creation() {
    let watcher = DAWatcher::new(Duration::from_secs(1), 100);
    assert_eq!(watcher.buffer_size(), 100);
    assert_eq!(watcher.poll_interval(), Duration::from_secs(1));

    let producer = ManifestProducer::new();
    let proposal = producer.next_manifest(1_700_000_000);

    assert_eq!(proposal.block_number, 0);
    assert_eq!(proposal.data_hash.len(), 32);
}

#[test]
fn producer_advances_after_delivery() {
    let mut producer = ManifestProducer::new();
    assert_eq!(producer.on_send(true), ProducerAction::Sleep);
    assert_eq!(producer.on_send(true), ProducerAction::Sleep);
    let manifest = producer.next_manifest(42);
    assert_eq!(manifest.block_number, 2);
    assert_eq!(manifest.timestamp, 42);
    assert_eq!(manifest.data_hash, vec![0u8; 32]);
    assert!(!producer.is_stopped());
}

#[test]
fn producer_stops_when_receiver_dropped() {
    let mut producer = ManifestProducer::new();
    assert_eq!(producer.on_send(true), ProducerAction::Sleep);
    assert_eq!(producer.on_send(false), ProducerAction::Stop);
    assert!(producer.is_stopped());
    assert_eq!(producer.next_block(), 1);
}

#[test]
fn fetcher_stages_in_order() {
    let fetcher = DefaultDataSourceFetcher;
    let query = DataQuery { block_range: (1, 4) };
    let raw = fetcher.fetch(&query).unwrap();
    assert_eq!(raw, vec![0u8; 32]);
    let decoded = fetcher.decode(vec![1, 2, 3]).unwrap();
    assert_eq!(decoded, vec![1, 2, 3]);
    let decompressed = fetcher.decompress(decoded).unwrap();
    assert_eq!(decompressed, vec![1, 2, 3]);
    assert_eq!(fetcher.compression_type(), CompressionType::Uncompressed);
    assert_eq!(fetcher.retrieve(&query).unwrap(), vec![0u8; 32]);
}
