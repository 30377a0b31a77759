//! Tests for encoding and decoding framed log entries.

use crc32fast::Hasher;
use ferrisdb_storage::error::Error;
use ferrisdb_storage::wal::{WALEntry, MAX_KEY_SIZE, MAX_VALUE_SIZE};

#[test]
fn test_encode_decode_put() {
    let entry = WALEntry::new_put(b"test_key".to_vec(), b"test_value".to_vec(), 12345)
        .expect("Failed to create entry");

    let encoded = entry.encode().expect("Failed to encode");
    let decoded = WALEntry::decode(&encoded).unwrap();

    assert_eq!(entry, decoded);
}

#[test]
fn test_encode_decode_delete() {
    let entry = WALEntry::new_delete(b"test_key".to_vec(), 12345).expect("Failed to create entry");

    let encoded = entry.encode().expect("Failed to encode");
    let decoded = WALEntry::decode(&encoded).unwrap();

    assert_eq!(entry, decoded);
}

#[test]
fn test_corruption_detection() {
    let entry = WALEntry::new_put(b"test_key".to_vec(), b"test_value".to_vec(), 12345)
        .expect("Failed to create entry");

    let mut encoded = entry.encode().expect("Failed to encode");
    // Corrupt the data
    encoded[20] ^= 0xFF;

    let result = WALEntry::decode(&encoded);
    assert!(result.is_err());
    assert!(matches!(result.unwrap_err(), Error::Corruption(_)));
}

#[test]
fn encode_decode_preserves_put_entry_data() {
    let entry = WALEntry::new_put(
        b"key_with_unicode_\xf0\x9f\xa6\x80".to_vec(),
        b"value_with_unicode_\xf0\x9f\x8e\x89".to_vec(),
        u64::MAX,
    )
    .expect("Failed to create entry");

    let encoded = entry.encode().expect("Failed to encode");
    let decoded = WALEntry::decode(&encoded).expect("Failed to decode");

    assert_eq!(entry.timestamp, decoded.timestamp);
    assert_eq!(entry.operation, decoded.operation);
    assert_eq!(entry.key, decoded.key);
    assert_eq!(entry.value, decoded.value);
}

#[test]
fn encode_decode_preserves_delete_entry_data() {
    let entry =
        WALEntry::new_delete(b"delete_key".to_vec(), 999999).expect("Failed to create entry");

    let encoded = entry.encode().expect("Failed to encode");
    let decoded = WALEntry::decode(&encoded).expect("Failed to decode");

    assert_eq!(entry.timestamp, decoded.timestamp);
    assert_eq!(entry.operation, decoded.operation);
    assert_eq!(entry.key, decoded.key);
    assert!(decoded.value.is_empty());
}

#[test]
fn new_put_rejects_oversized_key() {
    let large_key = vec![0u8; MAX_KEY_SIZE + 1];
    let result = WALEntry::new_put(large_key, b"value".to_vec(), 123);
    assert!(result.is_err());
    assert!(matches!(result.unwrap_err(), Error::Corruption(_)));
}

#[test]
fn new_put_rejects_oversized_value() {
    let large_value = vec![0u8; MAX_VALUE_SIZE + 1];
    let result = WALEntry::new_put(b"key".to_vec(), large_value, 123);
    assert!(result.is_err());
    assert!(matches!(result.unwrap_err(), Error::Corruption(_)));
}

#[test]
fn new_delete_rejects_oversized_key() {
    let large_key = vec![0u8; MAX_KEY_SIZE + 1];
    let result = WALEntry::new_delete(large_key, 123);
    assert!(result.is_err());
    assert!(matches!(result.unwrap_err(), Error::Corruption(_)));
}

#[test]
fn decode_detects_truncated_header() {
    let data = vec![0u8; 7]; // Too small for header
    let result = WALEntry::decode(&data);
    assert!(result.is_err());
    assert!(matches!(result.unwrap_err(), Error::Corruption(_)));
}

#[test]
fn decode_detects_length_mismatch() {
    let mut data = vec![0u8; 100];
    // Set length to 200 but only provide 100 bytes
    data[0..4].copy_from_slice(&200u32.to_le_bytes());
    let result = WALEntry::decode(&data);
    assert!(result.is_err());
    let err = result.unwrap_err();
    assert!(matches!(err, Error::Corruption(msg) if msg.contains("length mismatch")));
}

#[test]
fn decode_detects_checksum_corruption() {
    let entry =
        WALEntry::new_put(b"key".to_vec(), b"value".to_vec(), 123).expect("Failed to create entry");
    let mut encoded = entry.encode().expect("Failed to encode");

    // Corrupt checksum bytes
    encoded[4] ^= 0xFF;
    encoded[5] ^= 0xFF;

    let result = WALEntry::decode(&encoded);
    assert!(result.is_err());
    let err = result.unwrap_err();
    assert!(matches!(err, Error::Corruption(msg) if msg.contains("checksum mismatch")));
}

#[test]
fn decode_detects_invalid_operation_type() {
    let entry =
        WALEntry::new_put(b"key".to_vec(), b"value".to_vec(), 123).expect("Failed to create entry");
    let mut encoded = entry.encode().expect("Failed to encode");

    // Set invalid operation type (99)
    encoded[16] = 99;

    // Recalculate checksum for valid data with invalid op
    let mut hasher = Hasher::new();
    hasher.update(&encoded[8..]);
    let checksum = hasher.finalize();
    encoded[4..8].copy_from_slice(&checksum.to_le_bytes());

    let result = WALEntry::decode(&encoded);
    assert!(result.is_err());
    let err = result.unwrap_err();
    assert!(matches!(err, Error::Corruption(msg) if msg.contains("Invalid operation type: 99")));
}

#[test]
fn decode_detects_truncated_key() {
    let entry = WALEntry::new_put(b"test_key".to_vec(), b"value".to_vec(), 123)
        .expect("Failed to create entry");
    let encoded = entry.encode().expect("Failed to encode");

    // Truncate in the middle of the key
    let truncated = &encoded[..encoded.len() - 10];

    let result = WALEntry::decode(truncated);
    assert!(result.is_err());
    let err = result.unwrap_err();
    assert!(matches!(err, Error::Corruption(msg) if msg.contains("length mismatch")));
}

#[test]
fn decode_detects_truncated_value() {
    let entry = WALEntry::new_put(b"key".to_vec(), b"test_value".to_vec(), 123)
        .expect("Failed to create entry");
    let encoded = entry.encode().expect("Failed to encode");

    // Truncate in the middle of the value
    let truncated = &encoded[..encoded.len() - 5];

    let result = WALEntry::decode(truncated);
    assert!(result.is_err());
    let err = result.unwrap_err();
    assert!(matches!(err, Error::Corruption(msg) if msg.contains("length mismatch")));
}

#[test]
fn decode_detects_oversized_key_length() {
    let entry =
        WALEntry::new_put(b"key".to_vec(), b"value".to_vec(), 123).expect("Failed to create entry");
    let mut encoded = entry.encode().expect("Failed to encode");

    // Set key length to exceed MAX_KEY_SIZE
    let oversized_len = (MAX_KEY_SIZE + 1000) as u32;
    encoded[17..21].copy_from_slice(&oversized_len.to_le_bytes());

    // Recalculate checksum
    let mut hasher = Hasher::new();
    hasher.update(&encoded[8..]);
    let checksum = hasher.finalize();
    encoded[4..8].copy_from_slice(&checksum.to_le_bytes());

    let result = WALEntry::decode(&encoded);
    assert!(result.is_err());
    let err = result.unwrap_err();
    assert!(
        matches!(err, Error::Corruption(msg) if msg.contains("Key size") && msg.contains("exceeds maximum"))
    );
}

#[test]
fn decode_detects_trailing_bytes() {
    let entry =
        WALEntry::new_put(b"key".to_vec(), b"value".to_vec(), 123).expect("Failed to create entry");
    let mut encoded = entry.encode().expect("Failed to encode");

    // Add extra bytes at the end
    encoded.extend_from_slice(b"extra");

    // Update length field to include extra bytes
    let new_len = (encoded.len() - 4) as u32;
    encoded[0..4].copy_from_slice(&new_len.to_le_bytes());

    // Recalculate checksum to make the data "valid" except for trailing bytes
    let mut hasher = Hasher::new();
    hasher.update(&encoded[8..]);
    let checksum = hasher.finalize();
    encoded[4..8].copy_from_slice(&checksum.to_le_bytes());

    let result = WALEntry::decode(&encoded);
    assert!(result.is_err());
    let err = result.unwrap_err();
    assert!(matches!(err, Error::Corruption(msg) if msg.contains("trailing bytes")));
}

#[test]
fn handles_empty_key_and_value() {
    let entry = WALEntry::new_put(vec![], vec![], 0).expect("Failed to create entry");
    let encoded = entry.encode().expect("Failed to encode");
    let decoded = WALEntry::decode(&encoded).expect("Failed to decode");

    assert_eq!(decoded.key, Vec::<u8>::new());
    assert_eq!(decoded.value, Vec::<u8>::new());
    assert_eq!(decoded.timestamp, 0);
}

#[test]
fn handles_maximum_allowed_sizes() {
    // Test with max allowed key size
    let max_key = vec![0xAB; MAX_KEY_SIZE];
    let entry =
        WALEntry::new_put(max_key.clone(), vec![1, 2, 3], 12345).expect("Failed to create entry");
    let encoded = entry.encode().expect("Failed to encode");
    let decoded = WALEntry::decode(&encoded).expect("Failed to decode");
    assert_eq!(decoded.key, max_key);

    // Test with max allowed value size
    let max_value = vec![0xCD; MAX_VALUE_SIZE];
    let entry =
        WALEntry::new_put(vec![1, 2, 3], max_value.clone(), 54321).expect("Failed to create entry");
    let encoded = entry.encode().expect("Failed to encode");
    let decoded = WALEntry::decode(&encoded).expect("Failed to decode");
    assert_eq!(decoded.value, max_value);
}

#[test]
fn encoded_size_matches_field_sum() {
    let key = b"some_key".to_vec();
    let value = b"some_value_bytes".to_vec();
    let entry = WALEntry::new_put(key.clone(), value.clone(), 77).unwrap();
    let encoded = entry.encode().unwrap();

    let expected_size = 4 + 4 + 8 + 1 + 4 + key.len() + 4 + value.len();
    assert_eq!(encoded.len(), expected_size);

    let prefix = u32::from_le_bytes(encoded[0..4].try_into().unwrap()) as usize;
    assert_eq!(prefix, encoded.len() - 4);
}

#[test]
fn single_bit_flips_after_length_prefix_are_detected() {
    let entry = WALEntry::new_put(b"bitflip_key".to_vec(), b"bitflip_value".to_vec(), 42).unwrap();
    let encoded = entry.encode().unwrap();

    for byte in 4..encoded.len() {
        for bit in 0..8 {
            let mut tampered = encoded.clone();
            tampered[byte] ^= 1 << bit;
            let result = WALEntry::decode(&tampered);
            assert!(
                matches!(result, Err(Error::Corruption(_))),
                "flip at byte {} bit {} was not detected",
                byte,
                bit
            );
        }
    }
}

#[test]
fn encoded_checksum_is_the_standard_crc32() {
    // The CRC-32 (IEEE) of this entry's payload, computed
    // independently of the crate: the checksum field must hold it.
    let entry = WALEntry::new_put(b"key".to_vec(), b"value".to_vec(), 123).unwrap();
    let encoded = entry.encode().unwrap();
    let stored = u32::from_le_bytes(encoded[4..8].try_into().unwrap());
    assert_eq!(stored, 0xEE8E_10D9);
}

#[test]
fn decode_never_panics_on_arbitrary_bytes() {
    // A small deterministic byte-stream generator; decode must return
    // without aborting on every input.
    let mut state: u64 = 0x1234_5678_9abc_def0;
    for len in 0..200usize {
        let mut data = Vec::with_capacity(len);
        for _ in 0..len {
            state = state.wrapping_mul(6364136223846793005).wrapping_add(1442695040888963407);
            data.push((state >> 33) as u8);
        }
        let _ = WALEntry::decode(&data);
    }
}
