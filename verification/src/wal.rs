//! The write-ahead log: a single-writer, append-only, crash-safe
//! binary log of key/value mutations.
//!
//! A segment file is one 64-byte header followed by zero or more
//! framed entries. The header identifies the file, its format version
//! and its creation; every entry carries a CRC-32 over its payload so
//! corruption and partial writes are detected on replay.
//!
//! ```text
//! +----------------+
//! |   WAL header   |  64 bytes
//! +----------------+
//! |   WAL entry    |  variable
//! +----------------+
//! |      ...       |
//! +----------------+
//! ```

pub mod header;
pub mod log_entry;
pub mod metrics;
pub mod reader;
pub mod writer;

pub use header::{WALHeader, WAL_CURRENT_VERSION, WAL_HEADER_SIZE, WAL_MAGIC};
pub use metrics::{TimedOperation, WALMetrics};
pub use reader::ReaderStats;
pub use writer::WriterCore;
pub use log_entry::{
    WALEntry, DEFAULT_READER_BUFFER_SIZE, MAX_ENTRY_SIZE, MAX_KEY_SIZE, MAX_VALUE_SIZE,
    MIN_ENTRY_SIZE,
};
