//! End-to-end replay scenarios over segment images.

use ferrisdb_storage::error::Error;
use ferrisdb_storage::format::FileHeader;
use ferrisdb_storage::kvstore::KeyValueStore;
use ferrisdb_storage::types::Operation;
use ferrisdb_storage::wal::reader::{read_entry_at, replay_entries, replay_segment};
use ferrisdb_storage::wal::{WALEntry, WALHeader, WAL_HEADER_SIZE};

fn segment_with(entries: &[WALEntry]) -> Vec<u8> {
    let mut image = WALHeader::new(42).encode();
    for e in entries {
        image.extend_from_slice(&e.encode().unwrap());
    }
    image
}

#[test]
fn replay_recovers_appended_entries_in_order() {
    let entries = vec![
        WALEntry::new_put(b"user:1".to_vec(), b"Alice".to_vec(), 1).unwrap(),
        WALEntry::new_put(b"user:2".to_vec(), b"Bob".to_vec(), 2).unwrap(),
        WALEntry::new_delete(b"user:1".to_vec(), 3).unwrap(),
        WALEntry::new_put(b"user:3".to_vec(), b"Charlie".to_vec(), 4).unwrap(),
    ];
    let image = segment_with(&entries);

    let (header, replayed, outcome) = replay_segment(&image).unwrap();
    assert_eq!(header.file_sequence, 42);
    assert!(outcome.is_none());
    assert_eq!(replayed, entries);

    // Applying the replayed mutations rebuilds the in-memory state.
    let mut store = KeyValueStore::new();
    let mut deleted: Vec<String> = Vec::new();
    for entry in &replayed {
        let key = String::from_utf8(entry.key.clone()).unwrap();
        match entry.operation {
            Operation::Put => {
                store.set(key, String::from_utf8(entry.value.clone()).unwrap());
            }
            Operation::Delete => deleted.push(key),
        }
    }
    assert_eq!(store.get("user:2"), Some("Bob".to_string()));
    assert_eq!(store.get("user:3"), Some("Charlie".to_string()));
    assert!(deleted.contains(&"user:1".to_string()));
}

#[test]
fn replay_rejects_file_smaller_than_header() {
    let result = replay_segment(b"too small");
    assert!(result.is_err());
}

#[test]
fn replay_rejects_tampered_header_bytes() {
    let image = segment_with(&[]);
    for offset in (0..16).chain(20..64) {
        let mut tampered = image.clone();
        tampered[offset] ^= 0x01;
        assert!(
            replay_segment(&tampered).is_err(),
            "header flip at {} accepted",
            offset
        );
    }
}

#[test]
fn replay_rejects_future_major_version() {
    let mut header = WALHeader::new(7);
    header.version = 0x0200;
    header.header_checksum = header.compute_checksum();
    let image = header.encode();

    let result = replay_segment(&image);
    assert!(
        matches!(result.unwrap_err(), Error::Corruption(msg) if msg.contains("version"))
    );
}

#[test]
fn tampered_entry_fails_with_checksum_error_after_valid_header() {
    let entry = WALEntry::new_put(b"k".to_vec(), b"v".to_vec(), 42).unwrap();
    let mut image = segment_with(std::slice::from_ref(&entry));
    // Flip a byte inside the entry's timestamp (frame offset 8 + 12).
    image[WAL_HEADER_SIZE + 20] ^= 0xFF;

    let (_, replayed, outcome) = replay_segment(&image).unwrap();
    assert!(replayed.is_empty());
    assert!(
        matches!(outcome.unwrap(), Error::Corruption(msg) if msg.contains("checksum"))
    );
}

#[test]
fn truncated_tail_yields_entries_before_the_cut() {
    let entries: Vec<WALEntry> = (0..5)
        .map(|i| {
            WALEntry::new_put(
                format!("key_{}", i).into_bytes(),
                format!("value_{}", i).into_bytes(),
                i,
            )
            .unwrap()
        })
        .collect();
    let image = segment_with(&entries);

    // Cut five bytes off the end, mid-way through the fifth entry.
    let cut = &image[..image.len() - 5];
    let (_, replayed, outcome) = replay_segment(cut).unwrap();

    assert_eq!(replayed.len(), 4);
    for (i, entry) in replayed.iter().enumerate() {
        assert_eq!(entry.key, format!("key_{}", i).into_bytes());
        assert_eq!(entry.timestamp, i as u64);
    }
    assert!(outcome.is_some());
}

#[test]
fn clean_end_reports_no_error() {
    let entries = vec![WALEntry::new_delete(b"gone".to_vec(), 9).unwrap()];
    let image = segment_with(&entries);
    let (_, replayed, outcome) = replay_segment(&image).unwrap();
    assert_eq!(replayed.len(), 1);
    assert!(outcome.is_none());
}

#[test]
fn read_entry_at_steps_through_frames() {
    let e1 = WALEntry::new_put(b"a".to_vec(), b"1".to_vec(), 1).unwrap();
    let e2 = WALEntry::new_delete(b"a".to_vec(), 2).unwrap();
    let mut data = e1.encode().unwrap();
    let first_len = data.len();
    data.extend_from_slice(&e2.encode().unwrap());

    let (got1, next) = read_entry_at(&data, 0).unwrap().unwrap();
    assert_eq!(got1, e1);
    assert_eq!(next, first_len);

    let (got2, end) = read_entry_at(&data, next).unwrap().unwrap();
    assert_eq!(got2, e2);
    assert_eq!(end, data.len());

    assert!(read_entry_at(&data, end).unwrap().is_none());
}

#[test]
fn oversized_length_prefix_is_rejected_at_read() {
    let mut data = vec![0u8; 64];
    data[0..4].copy_from_slice(&0xFFFF_FFFFu32.to_le_bytes());
    let result = read_entry_at(&data, 0);
    assert!(
        matches!(result.unwrap_err(), Error::Corruption(msg) if msg.contains("exceeds maximum"))
    );
}

#[test]
fn partial_length_prefix_is_an_error_not_an_entry() {
    let entry = WALEntry::new_put(b"k".to_vec(), b"v".to_vec(), 1).unwrap();
    let mut data = entry.encode().unwrap();
    // Append two stray bytes: not enough for another length prefix.
    data.extend_from_slice(&[0x01, 0x02]);

    let (replayed, outcome) = replay_entries(&data, 0);
    assert_eq!(replayed.len(), 1);
    assert!(outcome.is_some());
}

#[test]
fn frame_overrunning_the_data_is_an_error() {
    let entry = WALEntry::new_put(b"k".to_vec(), b"v".to_vec(), 1).unwrap();
    let encoded = entry.encode().unwrap();
    // Keep the full length prefix but cut the body short.
    let cut = &encoded[..encoded.len() - 2];
    let result = read_entry_at(cut, 0);
    assert!(
        matches!(result.unwrap_err(), Error::Corruption(msg) if msg.contains("EOF"))
    );
}
