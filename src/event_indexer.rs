//! Configuration, errors and the indexing cursor of the event indexer.
use vstd::prelude::*;

verus! {

/// Configuration for the event indexer.
#[derive(Clone, Copy, Debug)]
pub struct EventIndexerConfig {
    /// Largest number of blocks covered by one log request.
    pub batch_size: u64,
    /// Number of retries of a failed log request before the failure surfaces.
    pub max_retries: u32,
    /// Base unit of the linear backoff between retries.
    pub retry_delay_ms: u64,
    /// Configured cap on a block span; carried, not enforced by batching.
    pub max_block_range: u64,
}

impl EventIndexerConfig {
    /// Every setting is a positive integer.
    pub open spec fn is_valid(&self) -> bool {
        &&& self.batch_size > 0
        &&& self.max_retries > 0
        &&& self.retry_delay_ms > 0
        &&& self.max_block_range > 0
    }
}

impl Default for EventIndexerConfig {
    fn default() -> (r: Self)
        ensures
            r.batch_size == 1000,
            r.max_retries == 3,
            r.retry_delay_ms == 1000,
            r.max_block_range == 10000,
            r.is_valid(),
    {
        EventIndexerConfig {
            batch_size: 1000,
            max_retries: 3,
            retry_delay_ms: 1000,
            max_block_range: 10000,
        }
    }
}

/// Errors surfaced by the event indexer.
#[derive(Debug)]
pub enum EventIndexerError {
    /// The chain provider failed, after the retries it was owed.
    ProviderError(String),
    /// Any other failure.
    Other(String),
}

/// An inclusive range of block numbers.
#[derive(Clone, Copy, Debug, PartialEq, Eq, Structural)]
pub struct BlockRange {
    pub from: u64,
    pub to: u64,
}

/// Upper bound of the sub-range that starts at `from`: `from + b - 1`, but
/// never past `to`.
pub open spec fn batch_end(from: u64, to: u64, b: u64) -> u64 {
    if to - from < b - 1 {
        to
    } else {
        (from + (b - 1)) as u64
    }
}

/// The closed sub-ranges, in order, that cover `[from, to]` in steps of at
/// most `b` blocks.
pub open spec fn batches(from: u64, to: u64, b: u64) -> Seq<BlockRange>
    decreases to - from,
{
    if from > to || b == 0 {
        seq![]
    } else if batch_end(from, to, b) >= to {
        seq![BlockRange { from, to }]
    } else {
        seq![BlockRange { from, to: batch_end(from, to, b) }] + batches(
            (batch_end(from, to, b) + 1) as u64,
            to,
            b,
        )
    }
}

/// Splits `[from, to]` into consecutive closed sub-ranges of at most
/// `batch_size` blocks each.
pub fn plan_batches(from: u64, to: u64, batch_size: u64) -> (r: Vec<BlockRange>)
    requires
        from <= to,
        batch_size > 0,
    ensures
        r@ == batches(from, to, batch_size),
{
    let mut out: Vec<BlockRange> = Vec::new();
    let mut current: u64 = from;
    let mut done = false;
    while !done
        invariant
            batch_size > 0,
            from <= current <= to,
            done ==> out@ == batches(from, to, batch_size),
            !done ==> out@ + batches(current, to, batch_size) == batches(from, to, batch_size),
        decreases to - current + (if done { 0int } else { 1int }),
    {
        let end: u64 = if to - current < batch_size - 1 {
            to
        } else {
            current + (batch_size - 1)
        };
        let ghost before = out@;
        out.push(BlockRange { from: current, to: end });
        if end >= to {
            assert(batches(current, to, batch_size) == seq![BlockRange { from: current, to }]);
            assert(out@ == before + batches(current, to, batch_size));
            done = true;
        } else {
            let ghost rest = batches((end + 1) as u64, to, batch_size);
            assert(batches(current, to, batch_size) == seq![BlockRange { from: current, to: end }]
                + rest);
            assert(out@ + rest == before + (seq![BlockRange { from: current, to: end }] + rest));
            current = end + 1;
        }
    }
    out
}

/// Whether block `n` lies in one of the ranges of `s`.
pub open spec fn covered_by(s: Seq<BlockRange>, n: int) -> bool {
    exists|i: int| 0 <= i < s.len() && #[trigger] s[i].from <= n <= s[i].to
}

/// For `from <= to`, the sub-ranges of `batches` are ascending, disjoint and
/// no longer than `b` blocks each, and their union is exactly `[from, to]`:
/// the first starts at `from`, the last ends at `to`, and each starts one
/// block after its predecessor ends.
pub proof fn lemma_batches_partition(from: u64, to: u64, b: u64)
    requires
        from <= to,
        b > 0,
    ensures
        batches(from, to, b).len() > 0,
        batches(from, to, b)[0].from == from,
        batches(from, to, b).last().to == to,
        forall|i: int|
            0 <= i < batches(from, to, b).len() ==> {
                let r = #[trigger] batches(from, to, b)[i];
                &&& from <= r.from <= r.to <= to
                &&& r.to - r.from + 1 <= b
            },
        forall|i: int|
            0 <= i < batches(from, to, b).len() - 1 ==> #[trigger] batches(from, to, b)[i + 1].from
                == batches(from, to, b)[i].to + 1,
        forall|i: int, j: int|
            #![trigger batches(from, to, b)[i], batches(from, to, b)[j]]
            0 <= i < j < batches(from, to, b).len() ==> batches(from, to, b)[i].to
                < batches(from, to, b)[j].from,
        forall|n: int| from <= n <= to <==> #[trigger] covered_by(batches(from, to, b), n),
    decreases to - from,
{
    let s = batches(from, to, b);
    let end = batch_end(from, to, b);
    if end >= to {
        assert(s =~= seq![BlockRange { from, to }]);
        assert forall|n: int| from <= n <= to implies #[trigger] covered_by(s, n) by {
            assert(s[0].from <= n <= s[0].to);
        }
    } else {
        let next = (end + 1) as u64;
        let rest = batches(next, to, b);
        lemma_batches_partition(next, to, b);
        assert(s == seq![BlockRange { from, to: end }] + rest);
        assert forall|i: int| 0 <= i < s.len() - 1 implies #[trigger] s[i + 1].from == s[i].to
            + 1 by {
            assert(s[i + 1] == rest[i]);
            if i > 0 {
                assert(s[i] == rest[i - 1]);
                assert(rest[(i - 1) + 1].from == rest[i - 1].to + 1);
            } else {
                assert(s[0].to == end);
            }
        }
        assert forall|i: int, j: int| #![trigger s[i], s[j]] 0 <= i < j < s.len() implies s[i].to
            < s[j].from by {
            assert(s[j] == rest[j - 1]);
            if i > 0 {
                assert(s[i] == rest[i - 1]);
            }
            assert(rest[j - 1].from >= next);
        }
        assert forall|n: int| from <= n <= to <==> #[trigger] covered_by(s, n) by {
            if from <= n <= to {
                if n <= end {
                    assert(s[0].from <= n <= s[0].to);
                } else {
                    assert(covered_by(rest, n));
                    let k = choose|k: int| 0 <= k < rest.len() && #[trigger] rest[k].from <= n <= rest[k].to;
                    assert(s[k + 1] == rest[k]);
                }
            }
            if covered_by(s, n) {
                let i = choose|i: int| 0 <= i < s.len() && #[trigger] s[i].from <= n <= s[i].to;
                if i > 0 {
                    assert(s[i] == rest[i - 1]);
                }
            }
        }
    }
}

/// Number of bytes of a contract address.
pub const ADDRESS_LEN: usize = 20;

/// Number of bytes of an event topic.
pub const TOPIC_LEN: usize = 32;

/// The live range owed for a new head: one block past the cursor up to the
/// head, or nothing when the head brings no new block.
pub open spec fn live_range_of(cursor: u64, head: u64) -> Option<BlockRange> {
    if head > cursor {
        Some(BlockRange { from: (cursor + 1) as u64, to: head })
    } else {
        None
    }
}

/// The cursor after each range of `s` has been recorded in turn, starting
/// from `cursor`.
pub open spec fn cursor_after(cursor: u64, s: Seq<BlockRange>) -> u64
    decreases s.len(),
{
    if s.len() == 0 {
        cursor
    } else {
        cursor_after(s[0].to, s.drop_first())
    }
}

/// Indexes the log events of one contract and topic: a historical catch-up
/// over fixed-size batches, then live tailing of new chain heads. This type
/// makes the decisions; the caller performs the fetches they name.
#[derive(Clone, Debug)]
pub struct EventIndexer {
    config: EventIndexerConfig,
    contract_address: Vec<u8>,
    topic: Vec<u8>,
    last_indexed_block: u64,
    is_indexing: bool,
}

impl EventIndexer {
    pub closed spec fn spec_config(&self) -> EventIndexerConfig {
        self.config
    }

    /// Last block whose logs have been fetched.
    pub closed spec fn spec_cursor(&self) -> u64 {
        self.last_indexed_block
    }

    /// Whether a historical indexing phase is under way.
    pub closed spec fn spec_indexing(&self) -> bool {
        self.is_indexing
    }

    pub closed spec fn spec_contract_address(&self) -> Seq<u8> {
        self.contract_address@
    }

    pub closed spec fn spec_topic(&self) -> Seq<u8> {
        self.topic@
    }

    pub open spec fn wf(&self) -> bool {
        self.spec_config().is_valid()
    }

    /// A fresh indexer: cursor at block 0, not indexing, zero address and
    /// topic.
    pub fn new(config: EventIndexerConfig) -> (r: Self)
        requires
            config.is_valid(),
        ensures
            r.wf(),
            r.spec_config() == config,
            r.spec_cursor() == 0,
            !r.spec_indexing(),
            r.spec_contract_address() == Seq::new(ADDRESS_LEN as nat, |i: int| 0u8),
            r.spec_topic() == Seq::new(TOPIC_LEN as nat, |i: int| 0u8),
    {
        EventIndexer {
            config,
            contract_address: vec![0u8; ADDRESS_LEN],
            topic: vec![0u8; TOPIC_LEN],
            last_indexed_block: 0,
            is_indexing: false,
        }
    }

    pub fn config(&self) -> (r: &EventIndexerConfig)
        ensures
            *r == self.spec_config(),
    {
        &self.config
    }

    pub fn last_indexed_block(&self) -> (r: u64)
        ensures
            r == self.spec_cursor(),
    {
        self.last_indexed_block
    }

    pub fn is_indexing(&self) -> (r: bool)
        ensures
            r == self.spec_indexing(),
    {
        self.is_indexing
    }

    pub fn contract_address(&self) -> (r: &Vec<u8>)
        ensures
            r@ == self.spec_contract_address(),
    {
        &self.contract_address
    }

    pub fn topic(&self) -> (r: &Vec<u8>)
        ensures
            r@ == self.spec_topic(),
    {
        &self.topic
    }

    /// Starts a run once the chain head is known: an explicit start block
    /// overrides the cursor, which is set to it. Returns the historical span
    /// `[start, head]` when the start lies below the head.
    pub fn start_run(&mut self, start_block: Option<u64>, head: u64) -> (r: Option<BlockRange>)
        ensures
            final(self).spec_config() == old(self).spec_config(),
            final(self).spec_indexing() == old(self).spec_indexing(),
            final(self).spec_contract_address() == old(self).spec_contract_address(),
            final(self).spec_topic() == old(self).spec_topic(),
            final(self).spec_cursor() == match start_block {
                Some(s) => s,
                None => old(self).spec_cursor(),
            },
            r == (if final(self).spec_cursor() < head {
                Some(BlockRange { from: final(self).spec_cursor(), to: head })
            } else {
                None
            }),
    {
        let start = match start_block {
            Some(s) => s,
            None => self.last_indexed_block,
        };
        self.last_indexed_block = start;
        if start < head {
            Some(BlockRange { from: start, to: head })
        } else {
            None
        }
    }

    /// Enters the historical phase over `[from, to]` and returns the batches
    /// to fetch, in order.
    pub fn begin_index_events(&mut self, from: u64, to: u64) -> (r: Vec<BlockRange>)
        requires
            old(self).wf(),
            from <= to,
        ensures
            final(self).spec_config() == old(self).spec_config(),
            final(self).spec_cursor() == old(self).spec_cursor(),
            final(self).spec_contract_address() == old(self).spec_contract_address(),
            final(self).spec_topic() == old(self).spec_topic(),
            final(self).spec_indexing(),
            r@ == batches(from, to, old(self).spec_config().batch_size),
    {
        self.is_indexing = true;
        plan_batches(from, to, self.config.batch_size)
    }

    /// Records that the logs of `range` were fetched: the cursor moves to
    /// its upper bound.
    pub fn record_batch(&mut self, range: BlockRange)
        ensures
            final(self).spec_config() == old(self).spec_config(),
            final(self).spec_indexing() == old(self).spec_indexing(),
            final(self).spec_contract_address() == old(self).spec_contract_address(),
            final(self).spec_topic() == old(self).spec_topic(),
            final(self).spec_cursor() == range.to,
    {
        self.last_indexed_block = range.to;
    }

    /// Leaves the historical phase.
    pub fn finish_index_events(&mut self)
        ensures
            final(self).spec_config() == old(self).spec_config(),
            final(self).spec_cursor() == old(self).spec_cursor(),
            final(self).spec_contract_address() == old(self).spec_contract_address(),
            final(self).spec_topic() == old(self).spec_topic(),
            !final(self).spec_indexing(),
    {
        self.is_indexing = false;
    }

    /// The range to fetch for a newly observed head: from one past the
    /// cursor up to the head; `None` for a head at or below the cursor.
    pub fn live_range(&self, head: u64) -> (r: Option<BlockRange>)
        ensures
            r == live_range_of(self.spec_cursor(), head),
    {
        if head > self.last_indexed_block {
            Some(BlockRange { from: self.last_indexed_block + 1, to: head })
        } else {
            None
        }
    }

    /// Records that the logs up to `head` were fetched and processed. The
    /// cursor never moves back.
    pub fn record_head(&mut self, head: u64)
        ensures
            final(self).spec_config() == old(self).spec_config(),
            final(self).spec_indexing() == old(self).spec_indexing(),
            final(self).spec_contract_address() == old(self).spec_contract_address(),
            final(self).spec_topic() == old(self).spec_topic(),
            final(self).spec_cursor() == (if head > old(self).spec_cursor() {
                head
            } else {
                old(self).spec_cursor()
            }),
    {
        if head > self.last_indexed_block {
            self.last_indexed_block = head;
        }
    }
}

/// Recording a non-empty sequence of ranges in turn leaves the cursor at the
/// upper bound of the last one, whatever it was before.
pub proof fn lemma_cursor_after_last(cursor: u64, s: Seq<BlockRange>)
    requires
        s.len() > 0,
    ensures
        cursor_after(cursor, s) == s.last().to,
    decreases s.len(),
{
    let tail = s.drop_first();
    if s.len() > 1 {
        lemma_cursor_after_last(s[0].to, tail);
        assert(tail.last() == s.last());
    } else {
        assert(cursor_after(s[0].to, tail) == s[0].to);
    }
}

/// Once every batch of `[from, to]` has been recorded, the cursor is `to`.
pub proof fn lemma_cursor_after_batches(cursor: u64, from: u64, to: u64, b: u64)
    requires
        from <= to,
        b > 0,
    ensures
        cursor_after(cursor, batches(from, to, b)) == to,
{
    lemma_batches_partition(from, to, b);
    lemma_cursor_after_last(cursor, batches(from, to, b));
}

/// The cursor that the historical phase of a run leaves behind: the cursor
/// is set to `start`, then each batch of `[start, head]` is recorded when
/// `start` lies below `head`.
pub open spec fn cursor_after_historical(start: u64, head: u64, b: u64) -> u64 {
    if start < head {
        cursor_after(start, batches(start, head, b))
    } else {
        start
    }
}

/// The first live range of a run starts one block past the cursor that the
/// historical phase left, which is the larger of the start and the head
/// seen at the start: blocks up to there were covered by the historical
/// batches, and blocks after it are covered by the live range, so none is
/// skipped or fetched twice, whatever head is observed next.
pub proof fn lemma_live_follows_historical(start: u64, head: u64, b: u64, next_head: u64)
    requires
        b > 0,
    ensures
        cursor_after_historical(start, head, b) == (if start < head {
            head
        } else {
            start
        }),
        next_head > cursor_after_historical(start, head, b) ==> live_range_of(
            cursor_after_historical(start, head, b),
            next_head,
        ) == Some(
            BlockRange { from: (cursor_after_historical(start, head, b) + 1) as u64, to: next_head },
        ),
        next_head <= cursor_after_historical(start, head, b) ==> live_range_of(
            cursor_after_historical(start, head, b),
            next_head,
        ) is None,
{
    if start < head {
        lemma_cursor_after_batches(start, start, head, b);
    }
}

/// Successive live ranges are adjacent: after a head has been recorded, the
/// range owed for a later head starts one block past it.
pub proof fn lemma_live_ranges_adjacent(cursor: u64, head: u64, next_head: u64)
    requires
        cursor < head < next_head,
    ensures
        live_range_of(cursor, head) == Some(BlockRange { from: (cursor + 1) as u64, to: head }),
        live_range_of(head, next_head) == Some(
            BlockRange { from: (head + 1) as u64, to: next_head },
        ),
{
}

} // verus!
