//! Watches selected wallets' trade feeds and a node's pending-transaction
//! feed, normalizing both into plain, validated records.
//!
//! The library holds the decisions: decoding inbound trade events, probing
//! nested and flat fields, normalizing trade sides, classifying protocol
//! frames, the reconnect backoff policies, and the mempool address filter
//! with its heuristic payload decoder. Transport and task plumbing live
//! outside the library.

pub mod frames;
pub mod json;
pub mod mempool;
pub mod retry;
pub mod supervisor;
pub mod text;
pub mod trade;
pub mod watcher;
