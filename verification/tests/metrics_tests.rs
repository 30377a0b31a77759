//! Tests for the metrics bundle.

use ferrisdb_storage::wal::{TimedOperation, WALMetrics, WriterCore};
use ferrisdb_storage::types::SyncMode;
use ferrisdb_storage::error::Error;

#[test]
fn record_write_updates_counters_and_averages_correctly() {
    let mut metrics = WALMetrics::new();

    // Record some successful writes
    metrics.record_write(100, true);
    metrics.record_write(200, true);
    metrics.record_write(150, true);

    // Record a failed write
    metrics.record_write(300, false);

    assert_eq!(metrics.writes_total(), 3);
    assert_eq!(metrics.writes_failed(), 1);
    assert_eq!(metrics.bytes_written(), 450);
    assert_eq!(metrics.max_entry_size(), 200);
    let success = metrics.writes_total() as f64;
    let total = (metrics.writes_total() + metrics.writes_failed()) as f64;
    assert_eq!(success / total * 100.0, 75.0);
}

#[test]
fn record_read_updates_counters_and_tracks_corruption() {
    let mut metrics = WALMetrics::new();

    metrics.record_read(100, true);
    metrics.record_read(200, true);
    metrics.record_read(0, false);
    metrics.record_corruption();

    assert_eq!(metrics.reads_total(), 2);
    assert_eq!(metrics.reads_failed(), 1);
    assert_eq!(metrics.bytes_read(), 300);
    assert_eq!(metrics.corrupted_entries(), 1);

    let success = metrics.reads_total() as f64;
    let total = (metrics.reads_total() + metrics.reads_failed()) as f64;
    let success_rate = success / total * 100.0;
    assert!((success_rate - (200.0 / 3.0)).abs() < 0.01);
}

#[test]
fn record_sync_accumulates_duration_and_count() {
    let mut metrics = WALMetrics::new();

    metrics.record_sync(10);
    metrics.record_sync(20);
    metrics.record_sync(30);

    assert_eq!(metrics.sync_total(), 3);
    assert_eq!(metrics.sync_duration_ms(), 60);
    let avg = metrics.sync_duration_ms() as f64 / metrics.sync_total() as f64;
    assert_eq!(avg, 20.0);
}

#[test]
fn reset_sets_all_counters_to_zero() {
    let mut metrics = WALMetrics::new();

    // Add some data
    metrics.record_write(100, true);
    metrics.record_read(200, true);
    metrics.record_sync(30);

    // Reset
    metrics.reset();

    // Verify all counters are zero
    assert_eq!(metrics.writes_total(), 0);
    assert_eq!(metrics.reads_total(), 0);
    assert_eq!(metrics.sync_total(), 0);
}

#[test]
fn rolling_average_follows_integer_ema() {
    let mut metrics = WALMetrics::new();
    metrics.record_write(100, true);
    assert_eq!(metrics.avg_entry_size(), 100);
    metrics.record_write(200, true);
    // (9 * 100 + 200) / 10
    assert_eq!(metrics.avg_entry_size(), 110);
    metrics.record_write(10, true);
    // (9 * 110 + 10) / 10
    assert_eq!(metrics.avg_entry_size(), 100);
}

#[test]
fn timed_operation_returns_some_duration() {
    let timer = TimedOperation::start();
    let mut acc: u64 = 0;
    for i in 0..1000u64 {
        acc = acc.wrapping_add(i);
    }
    assert!(acc > 0);
    let _duration = timer.complete();
}

#[test]
fn writer_core_rejects_append_past_size_limit() {
    let mut core = WriterCore::new(64, SyncMode::NoSync, 100);
    assert_eq!(core.size(), 64);
    assert_eq!(core.metrics().files_opened(), 1);
    assert_eq!(core.metrics().current_file_size(), 64);

    // 30 more bytes would fit; 40 would not.
    assert!(core.check_size_limit(30).is_ok());
    let result = core.check_size_limit(40);
    assert!(
        matches!(result.unwrap_err(), Error::StorageEngine(msg) if msg.contains("size limit"))
    );
    // The failed check changed nothing but the failure counter.
    assert_eq!(core.size(), 64);
    assert_eq!(core.metrics().writes_failed(), 1);

    core.record_append(30);
    assert_eq!(core.size(), 94);
    assert_eq!(core.metrics().writes_total(), 1);
    assert_eq!(core.metrics().bytes_written(), 30);
    assert_eq!(core.metrics().current_file_size(), 94);

    core.record_sync(7);
    assert_eq!(core.metrics().sync_total(), 1);
    assert_eq!(core.metrics().sync_duration_ms(), 7);
}
