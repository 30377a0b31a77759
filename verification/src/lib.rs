//! Core of an embedded storage engine's write-ahead log.
//!
//! The crate provides the durable, self-describing binary log that a
//! log-structured key-value store replays after a crash: a versioned
//! 64-byte file header, checksummed framed entries, the shared file
//! format contract, replay over segment bytes, and the operational
//! metrics bundle. Sibling pieces — the sorted-table primitives, a
//! simpler framed log, and a small in-memory store — live beside it.

pub mod basic_wal;
pub mod checksum;
pub mod error;
pub mod format;
pub mod kvstore;
pub mod magic;
pub mod sstable;
pub mod types;
pub mod util;
pub mod wal;

pub use error::Error;
pub use types::{Key, Operation, SyncMode, Timestamp, Value};
