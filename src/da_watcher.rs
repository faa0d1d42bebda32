//! The data-availability watcher: its manifests, the decisions of its
//! producer task, and the default staged data-source fetcher.
use vstd::prelude::*;
use std::time::Duration;

verus! {

/// Number of bytes of a manifest's data hash.
pub const DATA_HASH_LEN: usize = 32;

/// Summary of one unit of rollup input data.
#[derive(Debug, Clone)]
pub struct ProposalManifest {
    pub block_number: u64,
    /// Unix seconds.
    pub timestamp: u64,
    pub data_hash: Vec<u8>,
}

/// Errors of the watcher.
#[derive(Debug)]
pub enum WatcherError {
    ChannelError(String),
    FetchError(String),
}

/// Polls for proposals and hands out manifests over a bounded channel.
pub struct DAWatcher {
    poll_interval: Duration,
    buffer_size: usize,
}

impl DAWatcher {
    pub closed spec fn spec_poll_interval(&self) -> Duration {
        self.poll_interval
    }

    /// Capacity of the channel of manifests.
    pub closed spec fn spec_buffer_size(&self) -> usize {
        self.buffer_size
    }

    pub fn new(poll_interval: Duration, buffer_size: usize) -> (r: Self)
        ensures
            r.spec_poll_interval() == poll_interval,
            r.spec_buffer_size() == buffer_size,
    {
        DAWatcher { poll_interval, buffer_size }
    }

    pub fn poll_interval(&self) -> (r: Duration)
        ensures
            r == self.spec_poll_interval(),
    {
        self.poll_interval
    }

    pub fn buffer_size(&self) -> (r: usize)
        ensures
            r == self.spec_buffer_size(),
    {
        self.buffer_size
    }
}

/// What the producer task does after handing a manifest to the channel.
#[derive(Clone, Copy, Debug, PartialEq, Eq, Structural)]
pub enum ProducerAction {
    /// Sleep one poll interval, then produce the next manifest.
    Sleep,
    /// Exit the task.
    Stop,
}

/// State of the watcher's producer task: the block number of the next
/// manifest, and whether the task has ended.
pub struct ManifestProducer {
    next_block: u64,
    stopped: bool,
}

impl ManifestProducer {
    pub closed spec fn spec_next_block(&self) -> u64 {
        self.next_block
    }

    pub closed spec fn spec_stopped(&self) -> bool {
        self.stopped
    }

    /// A producer that starts at block 0.
    pub fn new() -> (r: Self)
        ensures
            r.spec_next_block() == 0,
            !r.spec_stopped(),
    {
        ManifestProducer { next_block: 0, stopped: false }
    }

    pub fn next_block(&self) -> (r: u64)
        ensures
            r == self.spec_next_block(),
    {
        self.next_block
    }

    pub fn is_stopped(&self) -> (r: bool)
        ensures
            r == self.spec_stopped(),
    {
        self.stopped
    }

    /// The manifest of the current tick, stamped with `timestamp`.
    pub fn next_manifest(&self, timestamp: u64) -> (r: ProposalManifest)
        requires
            !self.spec_stopped(),
        ensures
            r.block_number == self.spec_next_block(),
            r.timestamp == timestamp,
            r.data_hash@ == Seq::new(DATA_HASH_LEN as nat, |i: int| 0u8),
    {
        ProposalManifest {
            block_number: self.next_block,
            timestamp,
            data_hash: vec![0u8; DATA_HASH_LEN],
        }
    }

    /// Decides after a send: a manifest that reached the channel moves the
    /// producer to the next block and it sleeps one tick; a send that failed
    /// because the receiver is gone ends the task at once. The block
    /// numbers are exhausted after `u64::MAX`, which ends the task too.
    pub fn on_send(&mut self, delivered: bool) -> (r: ProducerAction)
        requires
            !old(self).spec_stopped(),
        ensures
            !delivered ==> r == ProducerAction::Stop && final(self).spec_stopped()
                && final(self).spec_next_block() == old(self).spec_next_block(),
            delivered && old(self).spec_next_block() < u64::MAX ==> r == ProducerAction::Sleep
                && !final(self).spec_stopped() && final(self).spec_next_block()
                == old(self).spec_next_block() + 1,
            delivered && old(self).spec_next_block() == u64::MAX ==> r == ProducerAction::Stop
                && final(self).spec_stopped() && final(self).spec_next_block()
                == old(self).spec_next_block(),
    {
        if !delivered || self.next_block == u64::MAX {
            self.stopped = true;
            ProducerAction::Stop
        } else {
            self.next_block = self.next_block + 1;
            ProducerAction::Sleep
        }
    }
}

/// A request for the data of an inclusive block range.
#[derive(Debug, Clone, Copy)]
pub struct DataQuery {
    pub block_range: (u64, u64),
}

/// Decompression algorithm that applies to a fetched payload.
#[derive(Debug, Clone, Copy, PartialEq, Eq, Structural)]
pub enum CompressionType {
    Uncompressed,
    Gzip,
    Zstd,
}

/// Errors of the fetch, decode and decompress stages.
#[derive(Debug)]
pub enum FetcherError {
    NetworkError(String),
    DecodeError(String),
    DecompressionError(String),
}

/// Number of bytes that the default fetcher returns for any query.
pub const DEFAULT_PAYLOAD_LEN: usize = 32;

/// What the default fetcher returns: a zeroed payload.
pub open spec fn default_payload() -> Seq<u8> {
    Seq::new(DEFAULT_PAYLOAD_LEN as nat, |i: int| 0u8)
}

/// Stateless fetcher that serves a zeroed payload, stored uncompressed.
pub struct DefaultDataSourceFetcher;

impl DefaultDataSourceFetcher {
    pub fn fetch(&self, query: &DataQuery) -> (r: Result<Vec<u8>, FetcherError>)
        ensures
            r matches Ok(v) && v@ == default_payload(),
    {
        Ok(vec![0u8; DEFAULT_PAYLOAD_LEN])
    }

    /// The payload is stored as is: decoding hands it back unchanged.
    pub fn decode(&self, raw: Vec<u8>) -> (r: Result<Vec<u8>, FetcherError>)
        ensures
            r matches Ok(v) && v@ == raw@,
    {
        Ok(raw)
    }

    /// The payload is uncompressed: decompression hands it back unchanged.
    pub fn decompress(&self, data: Vec<u8>) -> (r: Result<Vec<u8>, FetcherError>)
        ensures
            r matches Ok(v) && v@ == data@,
    {
        Ok(data)
    }

    pub fn compression_type(&self) -> (r: CompressionType)
        ensures
            r == CompressionType::Uncompressed,
    {
        CompressionType::Uncompressed
    }

    /// Runs the three stages in order, fetch, decode, decompress; the first
    /// error of a stage is returned as it came, and no later stage runs.
    pub fn retrieve(&self, query: &DataQuery) -> (r: Result<Vec<u8>, FetcherError>)
        ensures
            r matches Ok(v) && v@ == default_payload(),
    {
        let raw = match self.fetch(query) {
            Ok(v) => v,
            Err(e) => return Err(e),
        };
        let decoded = match self.decode(raw) {
            Ok(v) => v,
            Err(e) => return Err(e),
        };
        self.decompress(decoded)
    }
}

} // verus!
