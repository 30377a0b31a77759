//! Error taxonomy for the storage engine.
//!
//! Every recoverable failure in the library surfaces as one of these
//! variants. `Corruption` covers any violation of an on-disk format,
//! `InvalidFormat` is raised while identifying a file, `StorageEngine`
//! carries operational failures such as a full segment, and `Io` carries
//! the text of an underlying storage error.

use vstd::prelude::*;

verus! {

/// Errors reported by the storage engine.
#[derive(Debug, Clone, PartialEq, Eq)]
pub enum Error {
    /// An underlying storage error, carried as text.
    Io(String),
    /// A detectable violation of an on-disk format.
    Corruption(String),
    /// A format-identification failure.
    InvalidFormat(String),
    /// An operational failure of the engine, such as a full segment.
    StorageEngine(String),
}

} // verus!
