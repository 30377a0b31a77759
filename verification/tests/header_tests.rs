//! Tests for the 64-byte segment header.

use ferrisdb_storage::error::Error;
use ferrisdb_storage::format::{FileHeader, FileMetadata};
use ferrisdb_storage::wal::{WALHeader, WAL_HEADER_SIZE};

fn now_micros() -> u64 {
    std::time::SystemTime::now()
        .duration_since(std::time::UNIX_EPOCH)
        .unwrap_or_else(|_| std::time::Duration::from_secs(0))
        .as_micros() as u64
}

#[test]
fn encode_decode_preserves_all_header_fields() {
    let header = WALHeader::new(12345);
    let encoded = header.encode();
    let decoded = WALHeader::decode(&encoded).unwrap();

    assert_eq!(header, decoded);
}

#[test]
fn validate_returns_error_for_incorrect_magic() {
    let mut header = WALHeader::new(12345);
    header.magic = *b"BADMAGIC";

    assert!(header.validate().is_err());
}

#[test]
fn decode_returns_error_when_checksum_corrupted() {
    let header = WALHeader::new(12345);
    let encoded = header.encode();

    // Corrupt some data
    let mut corrupted = encoded;
    corrupted[25] ^= 0xFF;

    let result = WALHeader::decode(&corrupted);
    assert!(result.is_err());
    assert!(matches!(result.unwrap_err(), Error::Corruption(msg) if msg.contains("checksum")));
}

#[test]
fn validate_returns_error_for_unsupported_version() {
    let mut header = WALHeader::new(12345);
    header.version = 0x0200; // v2.0 - not supported

    let result = header.validate();
    assert!(result.is_err());
    assert!(matches!(result.unwrap_err(), Error::Corruption(msg) if msg.contains("version")));
}

#[test]
fn header_size_equals_64_bytes_cache_line() {
    assert_eq!(WAL_HEADER_SIZE, 64);
    assert_eq!(std::mem::size_of::<WALHeader>(), 64);
}

#[test]
fn new_sets_file_sequence_and_current_timestamp() {
    let header = WALHeader::new(98765);

    assert_eq!(header.file_id(), 98765);
    assert!(header.created_at() > 0);

    // Check timestamp is reasonable (within last hour)
    let now = now_micros();
    assert!(header.created_at() <= now);
    assert!(header.created_at() > now - 3600 * 1_000_000);
}

#[test]
fn validate_rejects_nonzero_flags() {
    let mut header = WALHeader::new(5);
    header.flags = 0x0001;
    header.header_checksum = header.compute_checksum();

    let result = header.validate();
    assert!(matches!(result.unwrap_err(), Error::Corruption(msg) if msg.contains("flags")));
}

#[test]
fn validate_rejects_wrong_header_size_field() {
    let mut header = WALHeader::new(5);
    header.header_size = 128;
    header.header_checksum = header.compute_checksum();

    let result = header.validate();
    assert!(matches!(result.unwrap_err(), Error::Corruption(msg) if msg.contains("header size")));
}

#[test]
fn created_at_string_renders_seconds_and_padded_micros() {
    let mut header = WALHeader::new(1);
    header.created_at = 1_500_000_042_000_007;
    assert_eq!(header.created_at_string(), "1500000042.000007Z");
}
