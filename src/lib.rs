//! Core derivation driver of a rollup node: gap-free event ingestion
//! (historical catch-up followed by live tailing, with bounded retry) and the
//! decisions of the manifest producer, stated and proved with Verus.
pub mod event_indexer;
pub mod retry;
pub mod da_watcher;
