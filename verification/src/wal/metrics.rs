//! Operational counters for log writers and readers.
//!
//! One bundle of integer counters accompanies each writer or reader.
//! Counters wrap on overflow, like hardware counters; the rolling
//! average entry size is an integer exponential moving average and
//! the maximum entry size only ever grows.

use vstd::prelude::*;

verus! {

/// A counter increment that wraps on overflow.
pub open spec fn spec_wrapping_add(a: u64, b: u64) -> u64 {
    vstd::wrapping::u64_specs::wrapping_add(a, b)
}

/// The rolling average after one more entry of size `size`: the size
/// itself when no average exists yet, otherwise nine parts old
/// average to one part new size, rounded down.
pub open spec fn spec_rolling_avg(avg: u64, size: u64) -> u64 {
    if avg == 0 {
        size
    } else {
        ((9 * avg + size) / 10) as u64
    }
}

/// The larger of the recorded maximum and a new size.
pub open spec fn spec_max_size(max: u64, size: u64) -> u64 {
    if size > max {
        size
    } else {
        max
    }
}

/// Metrics for write-ahead log operations.
///
/// Counts writes, reads, syncs and rotations together with byte
/// totals, corruption sightings, entry-size statistics and the
/// current file size.
#[derive(Debug, Clone, Copy, PartialEq, Eq, Structural)]
pub struct WALMetrics {
    /// Successful writes.
    pub writes_total: u64,
    /// Failed writes, size-limit rejections included.
    pub writes_failed: u64,
    /// Bytes written by successful writes.
    pub bytes_written: u64,
    /// Sync operations performed.
    pub sync_total: u64,
    /// Total milliseconds spent in syncs.
    pub sync_duration_ms: u64,
    /// Segment rotations signalled.
    pub rotation_count: u64,
    /// Successful reads.
    pub reads_total: u64,
    /// Failed reads.
    pub reads_failed: u64,
    /// Bytes read by successful reads.
    pub bytes_read: u64,
    /// Corrupted entries encountered.
    pub corrupted_entries: u64,
    /// Rolling average entry size, in bytes.
    pub avg_entry_size: u64,
    /// Largest entry seen, in bytes.
    pub max_entry_size: u64,
    /// Current size of the file, in bytes.
    pub current_file_size: u64,
    /// Files opened.
    pub files_opened: u64,
}

impl WALMetrics {
    /// Creates a metrics bundle with every counter at zero.
    pub fn new() -> (r: Self)
        ensures
            r == Self::spec_zeroed(),
    {
        Self {
            writes_total: 0,
            writes_failed: 0,
            bytes_written: 0,
            sync_total: 0,
            sync_duration_ms: 0,
            rotation_count: 0,
            reads_total: 0,
            reads_failed: 0,
            bytes_read: 0,
            corrupted_entries: 0,
            avg_entry_size: 0,
            max_entry_size: 0,
            current_file_size: 0,
            files_opened: 0,
        }
    }

    /// The bundle with every counter at zero.
    pub open spec fn spec_zeroed() -> Self {
        WALMetrics {
            writes_total: 0,
            writes_failed: 0,
            bytes_written: 0,
            sync_total: 0,
            sync_duration_ms: 0,
            rotation_count: 0,
            reads_total: 0,
            reads_failed: 0,
            bytes_read: 0,
            corrupted_entries: 0,
            avg_entry_size: 0,
            max_entry_size: 0,
            current_file_size: 0,
            files_opened: 0,
        }
    }

    /// Records a write: on success it counts the write and its bytes
    /// and refreshes the entry-size statistics; on failure it counts
    /// only the failure.
    pub fn record_write(&mut self, size: u64, success: bool)
        ensures
            success ==> *final(self) == (WALMetrics {
                writes_total: spec_wrapping_add(old(self).writes_total, 1),
                bytes_written: spec_wrapping_add(old(self).bytes_written, size),
                avg_entry_size: spec_rolling_avg(old(self).avg_entry_size, size),
                max_entry_size: spec_max_size(old(self).max_entry_size, size),
                ..*old(self)
            }),
            !success ==> *final(self) == (WALMetrics {
                writes_failed: spec_wrapping_add(old(self).writes_failed, 1),
                ..*old(self)
            }),
    {
        if success {
            self.writes_total = self.writes_total.wrapping_add(1);
            self.bytes_written = self.bytes_written.wrapping_add(size);
            self.update_avg_entry_size(size);
            self.update_max_entry_size(size);
        } else {
            self.writes_failed = self.writes_failed.wrapping_add(1);
        }
    }

    /// Records one sync and the milliseconds it took.
    pub fn record_sync(&mut self, duration_ms: u64)
        ensures
            *final(self) == (WALMetrics {
                sync_total: spec_wrapping_add(old(self).sync_total, 1),
                sync_duration_ms: spec_wrapping_add(old(self).sync_duration_ms, duration_ms),
                ..*old(self)
            }),
    {
        self.sync_total = self.sync_total.wrapping_add(1);
        self.sync_duration_ms = self.sync_duration_ms.wrapping_add(duration_ms);
    }

    /// Records a read: on success it counts the read and its bytes,
    /// on failure only the failure.
    pub fn record_read(&mut self, size: u64, success: bool)
        ensures
            success ==> *final(self) == (WALMetrics {
                reads_total: spec_wrapping_add(old(self).reads_total, 1),
                bytes_read: spec_wrapping_add(old(self).bytes_read, size),
                ..*old(self)
            }),
            !success ==> *final(self) == (WALMetrics {
                reads_failed: spec_wrapping_add(old(self).reads_failed, 1),
                ..*old(self)
            }),
    {
        if success {
            self.reads_total = self.reads_total.wrapping_add(1);
            self.bytes_read = self.bytes_read.wrapping_add(size);
        } else {
            self.reads_failed = self.reads_failed.wrapping_add(1);
        }
    }

    /// Records a corrupted entry.
    pub fn record_corruption(&mut self)
        ensures
            *final(self) == (WALMetrics {
                corrupted_entries: spec_wrapping_add(old(self).corrupted_entries, 1),
                ..*old(self)
            }),
    {
        self.corrupted_entries = self.corrupted_entries.wrapping_add(1);
    }

    /// Records a file rotation.
    pub fn record_rotation(&mut self)
        ensures
            *final(self) == (WALMetrics {
                rotation_count: spec_wrapping_add(old(self).rotation_count, 1),
                ..*old(self)
            }),
    {
        self.rotation_count = self.rotation_count.wrapping_add(1);
    }

    /// Records a file being opened.
    pub fn record_file_opened(&mut self)
        ensures
            *final(self) == (WALMetrics {
                files_opened: spec_wrapping_add(old(self).files_opened, 1),
                ..*old(self)
            }),
    {
        self.files_opened = self.files_opened.wrapping_add(1);
    }

    /// Sets the current file size.
    pub fn update_file_size(&mut self, size: u64)
        ensures
            *final(self) == (WALMetrics { current_file_size: size, ..*old(self) }),
    {
        self.current_file_size = size;
    }

    /// Folds one entry size into the rolling average.
    fn update_avg_entry_size(&mut self, size: u64)
        ensures
            *final(self) == (WALMetrics {
                avg_entry_size: spec_rolling_avg(old(self).avg_entry_size, size),
                ..*old(self)
            }),
    {
        let current_avg = self.avg_entry_size;
        let new_avg: u64 = if current_avg == 0 {
            size
        } else {
            let wide: u128 = 9 * (current_avg as u128) + (size as u128);
            (wide / 10) as u64
        };
        self.avg_entry_size = new_avg;
    }

    /// Raises the recorded maximum entry size if this one is larger.
    fn update_max_entry_size(&mut self, size: u64)
        ensures
            *final(self) == (WALMetrics {
                max_entry_size: spec_max_size(old(self).max_entry_size, size),
                ..*old(self)
            }),
    {
        if size > self.max_entry_size {
            self.max_entry_size = size;
        }
    }

    /// Resets every counter to zero.
    pub fn reset(&mut self)
        ensures
            *final(self) == Self::spec_zeroed(),
    {
        self.writes_total = 0;
        self.writes_failed = 0;
        self.bytes_written = 0;
        self.sync_total = 0;
        self.sync_duration_ms = 0;
        self.rotation_count = 0;
        self.reads_total = 0;
        self.reads_failed = 0;
        self.bytes_read = 0;
        self.corrupted_entries = 0;
        self.avg_entry_size = 0;
        self.max_entry_size = 0;
        self.current_file_size = 0;
        self.files_opened = 0;
    }

    /// The number of successful writes.
    pub fn writes_total(&self) -> (r: u64)
        ensures
            r == self.writes_total,
    {
        self.writes_total
    }

    /// The number of failed writes.
    pub fn writes_failed(&self) -> (r: u64)
        ensures
            r == self.writes_failed,
    {
        self.writes_failed
    }

    /// The number of bytes written.
    pub fn bytes_written(&self) -> (r: u64)
        ensures
            r == self.bytes_written,
    {
        self.bytes_written
    }

    /// The number of sync operations.
    pub fn sync_total(&self) -> (r: u64)
        ensures
            r == self.sync_total,
    {
        self.sync_total
    }

    /// The total sync duration in milliseconds.
    pub fn sync_duration_ms(&self) -> (r: u64)
        ensures
            r == self.sync_duration_ms,
    {
        self.sync_duration_ms
    }

    /// The number of file rotations.
    pub fn rotation_count(&self) -> (r: u64)
        ensures
            r == self.rotation_count,
    {
        self.rotation_count
    }

    /// The number of successful reads.
    pub fn reads_total(&self) -> (r: u64)
        ensures
            r == self.reads_total,
    {
        self.reads_total
    }

    /// The number of failed reads.
    pub fn reads_failed(&self) -> (r: u64)
        ensures
            r == self.reads_failed,
    {
        self.reads_failed
    }

    /// The number of bytes read.
    pub fn bytes_read(&self) -> (r: u64)
        ensures
            r == self.bytes_read,
    {
        self.bytes_read
    }

    /// The number of corrupted entries seen.
    pub fn corrupted_entries(&self) -> (r: u64)
        ensures
            r == self.corrupted_entries,
    {
        self.corrupted_entries
    }

    /// The rolling average entry size.
    pub fn avg_entry_size(&self) -> (r: u64)
        ensures
            r == self.avg_entry_size,
    {
        self.avg_entry_size
    }

    /// The largest entry size seen.
    pub fn max_entry_size(&self) -> (r: u64)
        ensures
            r == self.max_entry_size,
    {
        self.max_entry_size
    }

    /// The current file size.
    pub fn current_file_size(&self) -> (r: u64)
        ensures
            r == self.current_file_size,
    {
        self.current_file_size
    }

    /// The number of files opened.
    pub fn files_opened(&self) -> (r: u64)
        ensures
            r == self.files_opened,
    {
        self.files_opened
    }
}

/// A running stopwatch for timing one operation.
pub struct TimedOperation {
    start: std::time::Instant,
}

/// Relies on std::time::Instant, carried opaquely as the stopwatch's
/// starting point.
#[verifier::external_type_specification]
#[verifier::external_body]
pub struct ExInstant(std::time::Instant);

impl TimedOperation {
    /// Starts timing an operation.
    pub fn start() -> Self {
        Self { start: instant_now() }
    }

    /// Completes the timing and returns the elapsed milliseconds.
    pub fn complete(self) -> u64 {
        elapsed_millis(&self.start)
    }
}

/// Relies on std::time::Instant::now: a moment of the monotonic
/// clock.
#[verifier::external_body]
fn instant_now() -> std::time::Instant {
    std::time::Instant::now()
}

/// Relies on std::time::Instant::elapsed: the milliseconds since the
/// instant was taken.
#[verifier::external_body]
fn elapsed_millis(start: &std::time::Instant) -> u64 {
    start.elapsed().as_millis() as u64
}

} // verus!
