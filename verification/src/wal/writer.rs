//! The decision core of the log writer.
//!
//! The writer proper owns a file handle behind a mutex; what it
//! decides — whether an append fits under the size limit, and how the
//! size counter and the metrics move on success, failure and sync —
//! lives here, on plain values, so the decisions are verified. The
//! surrounding writer performs the file I/O, consults
//! [`check_size_limit`](WriterCore::check_size_limit) before writing
//! a frame, and reports the outcome back.

use vstd::prelude::*;

use crate::error::Error;
use crate::types::SyncMode;
use crate::wal::metrics::{spec_max_size, spec_rolling_avg, spec_wrapping_add, WALMetrics};

verus! {

/// The writer's shared state: the byte count of the segment, the
/// configured limit and durability mode, and the metrics bundle.
pub struct WriterCore {
    /// Current size of the segment in bytes, header included.
    pub size: u64,
    /// The configured durability mode.
    pub sync_mode: SyncMode,
    /// Largest size the segment may reach before rotation.
    pub size_limit: u64,
    /// The writer's metrics.
    pub metrics: WALMetrics,
}

impl WriterCore {
    /// Creates the state for a segment that currently holds
    /// `initial_size` bytes; the metrics start fresh, with the file
    /// counted as opened and its size recorded.
    pub fn new(initial_size: u64, sync_mode: SyncMode, size_limit: u64) -> (r: Self)
        ensures
            r.size == initial_size,
            r.sync_mode == sync_mode,
            r.size_limit == size_limit,
            r.metrics == (WALMetrics {
                files_opened: 1,
                current_file_size: initial_size,
                ..WALMetrics::spec_zeroed()
            }),
    {
        let mut metrics = WALMetrics::new();
        metrics.record_file_opened();
        metrics.update_file_size(initial_size);
        Self { size: initial_size, sync_mode, size_limit, metrics }
    }

    /// Decides whether a frame of `entry_size` bytes may be appended.
    ///
    /// Fails, with the distinguishable size-limit error and a failed
    /// write recorded, exactly when the frame would push the segment
    /// past its limit; the size is never changed here, so a rejected
    /// append leaves the segment as it was and the writer usable.
    pub fn check_size_limit(&mut self, entry_size: u64) -> (r: Result<(), Error>)
        ensures
            r is Ok <==> old(self).size + entry_size <= old(self).size_limit,
            r is Ok ==> *final(self) == *old(self),
            r is Err ==> *final(self) == (WriterCore {
                metrics: (WALMetrics {
                    writes_failed: spec_wrapping_add(old(self).metrics.writes_failed, 1),
                    ..old(self).metrics
                }),
                ..*old(self)
            }),
            r matches Err(e) ==> e matches Error::StorageEngine(_),
    {
        if entry_size > self.size_limit || self.size > self.size_limit - entry_size {
            self.metrics.record_write(entry_size, false);
            return Err(Error::StorageEngine("WAL file size limit reached".to_owned()));
        }
        Ok(())
    }

    /// Records a write that reached the file: the size counter and
    /// the current file size advance by the frame length, and the
    /// write is counted with its bytes.
    pub fn record_append(&mut self, entry_size: u64)
        requires
            old(self).size + entry_size <= u64::MAX,
        ensures
            *final(self) == (WriterCore {
                size: (old(self).size + entry_size) as u64,
                metrics: (WALMetrics {
                    writes_total: spec_wrapping_add(old(self).metrics.writes_total, 1),
                    bytes_written: spec_wrapping_add(old(self).metrics.bytes_written, entry_size),
                    avg_entry_size: spec_rolling_avg(old(self).metrics.avg_entry_size, entry_size),
                    max_entry_size: spec_max_size(old(self).metrics.max_entry_size, entry_size),
                    current_file_size: (old(self).size + entry_size) as u64,
                    ..old(self).metrics
                }),
                ..*old(self)
            }),
    {
        self.size = self.size + entry_size;
        self.metrics.record_write(entry_size, true);
        self.metrics.update_file_size(self.size);
    }

    /// Records a write that failed in the file I/O: the size is not
    /// advanced, only the failure is counted.
    pub fn record_append_failure(&mut self, entry_size: u64)
        ensures
            *final(self) == (WriterCore {
                metrics: (WALMetrics {
                    writes_failed: spec_wrapping_add(old(self).metrics.writes_failed, 1),
                    ..old(self).metrics
                }),
                ..*old(self)
            }),
    {
        self.metrics.record_write(entry_size, false);
    }

    /// Records one sync and its duration.
    pub fn record_sync(&mut self, duration_ms: u64)
        ensures
            *final(self) == (WriterCore {
                metrics: (WALMetrics {
                    sync_total: spec_wrapping_add(old(self).metrics.sync_total, 1),
                    sync_duration_ms: spec_wrapping_add(
                        old(self).metrics.sync_duration_ms,
                        duration_ms,
                    ),
                    ..old(self).metrics
                }),
                ..*old(self)
            }),
    {
        self.metrics.record_sync(duration_ms);
    }

    /// The current size of the segment in bytes.
    pub fn size(&self) -> (r: u64)
        ensures
            r == self.size,
    {
        self.size
    }

    /// The writer's metrics.
    pub fn metrics(&self) -> (r: &WALMetrics)
        ensures
            r == self.metrics,
    {
        &self.metrics
    }
}

} // verus!
