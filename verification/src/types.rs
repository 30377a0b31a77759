//! Primitive types shared across the storage engine.

use vstd::prelude::*;

verus! {

/// A key is an opaque byte sequence; it may be empty.
pub type Key = Vec<u8>;

/// A value is an opaque byte sequence; it may be empty.
pub type Value = Vec<u8>;

/// A monotonic sequence number assigned by the caller, in microseconds.
pub type Timestamp = u64;

/// The operation recorded by a log entry.
#[derive(Clone, Copy, Debug, PartialEq, Eq, Structural)]
pub enum Operation {
    /// Store a value under a key.
    Put,
    /// Remove a key.
    Delete,
}

/// Durability level applied after each append.
#[derive(Clone, Copy, Debug, PartialEq, Eq, Structural)]
pub enum SyncMode {
    /// Leave data in the process buffer until an explicit sync.
    NoSync,
    /// Flush the buffered writer to the operating system.
    Normal,
    /// Flush and fsync to stable storage.
    Full,
}

} // verus!
