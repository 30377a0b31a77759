//! A simpler framed log sharing the engine's entry discipline.
//!
//! This smaller write-ahead log opens with an 8-byte preamble — a
//! 4-byte magic and a 4-byte version — and then frames entries much
//! like the main segment format:
//!
//! ```text
//! +------------+------------+------------+-------+------------+
//! | length(4B) | CRC32(4B)  | time(8B)   | op(1B)| key len(4B)|
//! +------------+------------+------------+-------+------------+
//! | key(var)   | val len(4B)| value(var) |
//! +------------+------------+------------+
//! ```
//!
//! The length field counts everything after itself, checksum
//! included; the CRC-32 covers everything after the checksum. All
//! integers are little-endian. The codec lives here, verified; the
//! log file itself, with its open/append/recover cycle, is the thin
//! shell around these functions.

use vstd::prelude::*;

use crate::checksum::{crc32, crc32_of};
use crate::util::utf8_string;

verus! {

use vstd::bytes::{
    spec_u32_from_le_bytes, spec_u32_to_le_bytes, spec_u64_from_le_bytes, spec_u64_to_le_bytes,
    u32_from_le_bytes, u32_to_le_bytes, u64_from_le_bytes, u64_to_le_bytes,
    lemma_auto_spec_u32_to_from_le_bytes, lemma_auto_spec_u64_to_from_le_bytes,
};
use vstd::slice::slice_to_vec;
use vstd::utf8::{decode_utf8, valid_utf8};

/// Magic number identifying this log's files: "WAL!".
pub const WAL_MAGIC: u32 = 0x57414C21;

/// Version written in the file preamble.
pub const WAL_VERSION: u32 = 1;

/// Relies on std::io::Error, carried opaquely inside [`WalError::Io`].
#[verifier::external_type_specification]
#[verifier::external_body]
pub struct ExIoError(std::io::Error);

/// Errors of the simpler log.
#[derive(Debug)]
pub enum WalError {
    /// An underlying I/O error, including unexpected end of input.
    Io(std::io::Error),
    /// The stored checksum does not match the data.
    ChecksumMismatch { expected: u32, actual: u32 },
    /// The file does not start with the log's magic number.
    InvalidMagic,
    /// An entry whose bytes cannot be interpreted.
    CorruptedEntry { offset: u64 },
}

/// A logged mutation, with text keys and values.
#[derive(Debug, Clone, PartialEq)]
pub enum Operation {
    Store { key: String, value: String },
    Delete { key: String },
}

/// The tag of a logged mutation.
#[derive(Debug, Clone, Copy, PartialEq, Eq, Structural)]
pub enum OperationType {
    Put,
    Delete,
}

/// One entry of the log, in the text form.
#[derive(Debug, Clone, PartialEq)]
pub struct LogEntry {
    pub sequence: u64,
    pub operation: Operation,
}

/// One entry of the log, in the binary form.
#[derive(Debug, Clone, PartialEq, Eq)]
pub struct WALEntry {
    pub timestamp: u64,
    pub operation: OperationType,
    pub key: Vec<u8>,
    pub value: Vec<u8>,
}

/// Durability level applied after each append.
#[derive(Debug, Clone, Copy, PartialEq, Eq, Structural)]
pub enum SyncMode {
    /// Fastest but least safe: the OS decides when to write.
    NoSync,
    /// Sync file data but not metadata.
    DataOnly,
    /// Sync everything.
    Full,
}

impl WALEntry {
    /// Creates a new Put entry.
    pub fn new_put(key: Vec<u8>, value: Vec<u8>, timestamp: u64) -> (r: Self)
        ensures
            r.timestamp == timestamp,
            r.operation == OperationType::Put,
            r.key@ == key@,
            r.value@ == value@,
    {
        Self { timestamp, operation: OperationType::Put, key, value }
    }

    /// Creates a new Delete entry; the value is empty.
    pub fn new_delete(key: Vec<u8>, timestamp: u64) -> (r: Self)
        ensures
            r.timestamp == timestamp,
            r.operation == OperationType::Delete,
            r.key@ == key@,
            r.value@ == Seq::<u8>::empty(),
    {
        let value: Vec<u8> = Vec::new();
        let r = Self { timestamp, operation: OperationType::Delete, key, value };
        proof {
            assert(r.value@ =~= Seq::<u8>::empty());
        }
        r
    }
}

/// The tag byte written for an operation type.
pub open spec fn spec_type_tag(op: OperationType) -> u8 {
    match op {
        OperationType::Put => 1,
        OperationType::Delete => 2,
    }
}

/// The operation type read from a tag byte (meaningful for 1 and 2).
pub open spec fn spec_tag_type(tag: u8) -> OperationType {
    if tag == 1 {
        OperationType::Put
    } else {
        OperationType::Delete
    }
}

/// The checksummed part of a frame: everything after length and CRC.
pub open spec fn spec_simple_payload(
    timestamp: u64,
    op: OperationType,
    key: Seq<u8>,
    value: Seq<u8>,
) -> Seq<u8> {
    spec_u64_to_le_bytes(timestamp) + seq![spec_type_tag(op)] + spec_u32_to_le_bytes(
        key.len() as u32,
    ) + key + spec_u32_to_le_bytes(value.len() as u32) + value
}

/// The complete frame an entry encodes to, length prefix included.
pub open spec fn spec_simple_encoding(
    timestamp: u64,
    op: OperationType,
    key: Seq<u8>,
    value: Seq<u8>,
) -> Seq<u8> {
    let payload = spec_simple_payload(timestamp, op, key, value);
    spec_u32_to_le_bytes((payload.len() + 4) as u32) + spec_u32_to_le_bytes(crc32_of(payload))
        + payload
}

/// The declared key length of a frame body (the bytes after the
/// length prefix).
pub open spec fn spec_simple_key_len(data: Seq<u8>) -> int {
    spec_u32_from_le_bytes(data.subrange(13, 17)) as int
}

/// The declared value length of a frame body.
pub open spec fn spec_simple_value_len(data: Seq<u8>) -> int {
    let k = spec_simple_key_len(data);
    spec_u32_from_le_bytes(data.subrange(17 + k, 21 + k)) as int
}

/// Whether the stored checksum of a frame body matches its bytes.
pub open spec fn spec_simple_checksum_ok(data: Seq<u8>) -> bool {
    &&& data.len() >= 4
    &&& spec_u32_from_le_bytes(data.subrange(0, 4)) == crc32_of(data.skip(4))
}

/// Whether a frame body carries an unknown operation tag behind a
/// matching checksum.
pub open spec fn spec_simple_bad_tag(data: Seq<u8>) -> bool {
    &&& spec_simple_checksum_ok(data)
    &&& data.len() >= 13
    &&& data[12] != 1
    &&& data[12] != 2
}

/// Whether a frame body decodes: checksum, a known tag, and lengths
/// that fit in the data. Bytes after the value are ignored.
pub open spec fn spec_simple_frame_ok(data: Seq<u8>) -> bool {
    let k = spec_simple_key_len(data);
    let v = spec_simple_value_len(data);
    &&& spec_simple_checksum_ok(data)
    &&& data.len() >= 17
    &&& (data[12] == 1 || data[12] == 2)
    &&& data.len() >= 17 + k
    &&& data.len() >= 21 + k
    &&& data.len() >= 21 + k + v
}

/// Encodes a binary entry to its frame, length prefix included.
///
/// The length fields force the only bound: key, value and the fixed
/// fields must fit the 32-bit length prefix.
pub fn encode_wal_entry(entry: &WALEntry) -> (r: Vec<u8>)
    requires
        entry.key@.len() + entry.value@.len() + 21 < 0x1_0000_0000,
    ensures
        r@ == spec_simple_encoding(entry.timestamp, entry.operation, entry.key@, entry.value@),
{
    let mut payload: Vec<u8> = Vec::new();
    let mut ts_bytes = u64_to_le_bytes(entry.timestamp);
    payload.append(&mut ts_bytes);
    payload.push(
        match entry.operation {
            OperationType::Put => 1,
            OperationType::Delete => 2,
        },
    );
    let mut key_len_bytes = u32_to_le_bytes(entry.key.len() as u32);
    payload.append(&mut key_len_bytes);
    payload.extend_from_slice(entry.key.as_slice());
    let mut value_len_bytes = u32_to_le_bytes(entry.value.len() as u32);
    payload.append(&mut value_len_bytes);
    payload.extend_from_slice(entry.value.as_slice());
    assert(payload@ =~= spec_simple_payload(
        entry.timestamp,
        entry.operation,
        entry.key@,
        entry.value@,
    ));

    let checksum = crc32(payload.as_slice());
    let mut out = u32_to_le_bytes((payload.len() + 4) as u32);
    let mut crc_bytes = u32_to_le_bytes(checksum);
    out.append(&mut crc_bytes);
    out.append(&mut payload);
    assert(out@ =~= spec_simple_encoding(
        entry.timestamp,
        entry.operation,
        entry.key@,
        entry.value@,
    ));
    out
}

/// Relies on std::io::Error::new: the error reported for a frame
/// body shorter than its fields declare.
#[verifier::external_body]
fn eof_error() -> std::io::Error {
    std::io::Error::new(std::io::ErrorKind::UnexpectedEof, "failed to fill whole buffer")
}

/// Decodes a binary entry from a frame body — the bytes after the
/// length prefix.
///
/// Succeeds exactly when the body's checksum matches, its tag is
/// known and its declared lengths fit; the checksum is verified
/// first, an unknown tag behind a valid checksum is a corrupted
/// entry, and a body too short for its fields is an I/O error, as a
/// short read would be. Bytes after the value are ignored.
pub fn decode_wal_entry(data: &[u8]) -> (r: Result<WALEntry, WalError>)
    ensures
        r is Ok <==> spec_simple_frame_ok(data@),
        r matches Ok(e) ==> {
            let k = spec_simple_key_len(data@);
            let v = spec_simple_value_len(data@);
            &&& e.timestamp == spec_u64_from_le_bytes(data@.subrange(4, 12))
            &&& e.operation == spec_tag_type(data@[12])
            &&& e.key@ == data@.subrange(17, 17 + k)
            &&& e.value@ == data@.subrange(21 + k, 21 + k + v)
        },
        (r matches Err(WalError::ChecksumMismatch { expected, actual }) ==> data@.len() >= 4
            && expected == spec_u32_from_le_bytes(data@.subrange(0, 4)) && actual == crc32_of(
            data@.skip(4),
        ) && expected != actual),
        ((data@.len() >= 4 && !spec_simple_checksum_ok(data@)) <==> r matches Err(
            WalError::ChecksumMismatch { .. },
        )),
        (spec_simple_bad_tag(data@) <==> r matches Err(WalError::CorruptedEntry { .. })),
        (r matches Err(WalError::CorruptedEntry { offset }) ==> offset == 13),
        (r matches Err(WalError::Io(_)) <==> !spec_simple_frame_ok(data@) && !(data@.len() >= 4
            && !spec_simple_checksum_ok(data@)) && !spec_simple_bad_tag(data@)),
{
    let n = data.len();
    if n < 4 {
        return Err(WalError::Io(eof_error()));
    }
    let expected_checksum = u32_from_le_bytes(&data[0..4]);
    let actual_checksum = crc32(&data[4..n]);
    proof {
        assert(data@.subrange(4, n as int) =~= data@.skip(4));
    }
    if expected_checksum != actual_checksum {
        return Err(WalError::ChecksumMismatch {
            expected: expected_checksum,
            actual: actual_checksum,
        });
    }

    if n < 12 {
        return Err(WalError::Io(eof_error()));
    }
    let timestamp = u64_from_le_bytes(&data[4..12]);

    if n < 13 {
        return Err(WalError::Io(eof_error()));
    }
    let tag = data[12];
    let operation = if tag == 1 {
        OperationType::Put
    } else if tag == 2 {
        OperationType::Delete
    } else {
        return Err(WalError::CorruptedEntry { offset: 13 });
    };

    if n < 17 {
        return Err(WalError::Io(eof_error()));
    }
    let key_len = u32_from_le_bytes(&data[13..17]) as usize;
    if n - 17 < key_len {
        return Err(WalError::Io(eof_error()));
    }
    let key = slice_to_vec(&data[17..17 + key_len]);

    if n - 17 - key_len < 4 {
        return Err(WalError::Io(eof_error()));
    }
    let value_len = u32_from_le_bytes(&data[17 + key_len..21 + key_len]) as usize;
    if n - 21 - key_len < value_len {
        return Err(WalError::Io(eof_error()));
    }
    let value = slice_to_vec(&data[21 + key_len..21 + key_len + value_len]);

    Ok(WALEntry { timestamp, operation, key, value })
}

/// Encodes a text entry: its strings become UTF-8 bytes in a binary
/// entry, with the sequence number as the timestamp.
pub fn encode_entry(entry: &LogEntry) -> (r: Vec<u8>)
    requires
        (match entry.operation {
            Operation::Store { key, value } => vstd::utf8::encode_utf8(key@).len()
                + vstd::utf8::encode_utf8(value@).len() + 21 < 0x1_0000_0000,
            Operation::Delete { key } => vstd::utf8::encode_utf8(key@).len() + 21 < 0x1_0000_0000,
        }),
    ensures
        r@ == (match entry.operation {
            Operation::Store { key, value } => spec_simple_encoding(
                entry.sequence,
                OperationType::Put,
                vstd::utf8::encode_utf8(key@),
                vstd::utf8::encode_utf8(value@),
            ),
            Operation::Delete { key } => spec_simple_encoding(
                entry.sequence,
                OperationType::Delete,
                vstd::utf8::encode_utf8(key@),
                Seq::<u8>::empty(),
            ),
        }),
{
    let wal_entry = match &entry.operation {
        Operation::Store { key, value } => {
            let kb = key.as_str().as_bytes_vec();
            let vb = value.as_str().as_bytes_vec();
            WALEntry::new_put(kb, vb, entry.sequence)
        },
        Operation::Delete { key } => {
            let kb = key.as_str().as_bytes_vec();
            WALEntry::new_delete(kb, entry.sequence)
        },
    };
    encode_wal_entry(&wal_entry)
}

/// Decodes a text entry from a frame body: the binary entry's key
/// and value must be valid UTF-8; the timestamp becomes the sequence
/// number. A binary entry whose text is not UTF-8 is a corrupted
/// entry.
pub fn decode_entry(data: &[u8]) -> (r: Result<LogEntry, WalError>)
    ensures
        r is Ok <==> {
            let k = spec_simple_key_len(data@);
            let v = spec_simple_value_len(data@);
            &&& spec_simple_frame_ok(data@)
            &&& valid_utf8(data@.subrange(17, 17 + k))
            &&& (data@[12] == 1 ==> valid_utf8(data@.subrange(21 + k, 21 + k + v)))
        },
        r matches Ok(le) ==> {
            let k = spec_simple_key_len(data@);
            let v = spec_simple_value_len(data@);
            &&& le.sequence == spec_u64_from_le_bytes(data@.subrange(4, 12))
            &&& data@[12] == 1 ==> (le.operation matches Operation::Store { key, value } && key@
                == decode_utf8(data@.subrange(17, 17 + k)) && value@ == decode_utf8(
                data@.subrange(21 + k, 21 + k + v),
            ))
            &&& data@[12] == 2 ==> (le.operation matches Operation::Delete { key } && key@
                == decode_utf8(data@.subrange(17, 17 + k)))
        },
        ((data@.len() >= 4 && !spec_simple_checksum_ok(data@)) <==> r matches Err(
            WalError::ChecksumMismatch { .. },
        )),
        (r matches Err(WalError::Io(_)) <==> !spec_simple_frame_ok(data@) && !(data@.len() >= 4
            && !spec_simple_checksum_ok(data@)) && !spec_simple_bad_tag(data@)),
{
    let wal_entry = match decode_wal_entry(data) {
        Ok(e) => e,
        Err(e) => {
            return Err(e);
        },
    };

    let key = match utf8_string(wal_entry.key.as_slice()) {
        Some(s) => s,
        Option::None => {
            return Err(WalError::CorruptedEntry { offset: 0 });
        },
    };

    let operation = match wal_entry.operation {
        OperationType::Put => {
            let value = match utf8_string(wal_entry.value.as_slice()) {
                Some(s) => s,
                Option::None => {
                    return Err(WalError::CorruptedEntry { offset: 0 });
                },
            };
            Operation::Store { key, value }
        },
        OperationType::Delete => Operation::Delete { key },
    };

    Ok(LogEntry { sequence: wal_entry.timestamp, operation })
}

/// Encoding then decoding a binary entry is the identity: the frame
/// body after the length prefix decodes back to the same timestamp,
/// operation, key and value.
pub proof fn lemma_simple_roundtrip(timestamp: u64, op: OperationType, key: Seq<u8>, value: Seq<u8>)
    requires
        key.len() + value.len() + 21 < 0x1_0000_0000,
    ensures
        ({
            let body = spec_simple_encoding(timestamp, op, key, value).skip(4);
            &&& spec_simple_frame_ok(body)
            &&& spec_u64_from_le_bytes(body.subrange(4, 12)) == timestamp
            &&& spec_tag_type(body[12]) == op
            &&& body.subrange(17, 17 + spec_simple_key_len(body)) == key
            &&& body.subrange(
                21 + spec_simple_key_len(body),
                21 + spec_simple_key_len(body) + spec_simple_value_len(body),
            ) == value
        }),
{
    lemma_auto_spec_u32_to_from_le_bytes();
    lemma_auto_spec_u64_to_from_le_bytes();
    let p = spec_simple_payload(timestamp, op, key, value);
    let e = spec_simple_encoding(timestamp, op, key, value);
    let body = e.skip(4);
    let k = key.len() as int;
    let v = value.len() as int;
    assert(p.len() == 17 + k + v);
    assert(body =~= spec_u32_to_le_bytes(crc32_of(p)) + p);
    assert(body.len() == 21 + k + v);
    assert(body.subrange(0, 4) =~= spec_u32_to_le_bytes(crc32_of(p)));
    assert(body.skip(4) =~= p);
    assert(body.subrange(4, 12) =~= spec_u64_to_le_bytes(timestamp));
    assert(body[12] == spec_type_tag(op));
    assert(body.subrange(13, 17) =~= spec_u32_to_le_bytes(key.len() as u32));
    assert(spec_simple_key_len(body) == k);
    assert(body.subrange(17, 17 + k) =~= key);
    assert(body.subrange(17 + k, 21 + k) =~= spec_u32_to_le_bytes(value.len() as u32));
    assert(spec_simple_value_len(body) == v);
    assert(body.subrange(21 + k, 21 + k + v) =~= value);
    assert(spec_tag_type(spec_type_tag(op)) == op);
}

/// Configuration builder for the simpler log.
pub struct WalBuilder {
    /// Path of the log file.
    pub path: String,
    /// Durability level applied after each append.
    pub sync_mode: SyncMode,
    /// Size at which the log asks for rotation.
    pub max_file_size: u64,
}

impl WalBuilder {
    /// Starts a configuration for the log at `path`, with data-only
    /// durability and a 100 MiB size limit.
    pub fn new(path: &str) -> (r: Self)
        ensures
            r.path@ == path@,
            r.sync_mode == SyncMode::DataOnly,
            r.max_file_size == 100u64 * 1024 * 1024,
    {
        Self {
            path: path.to_owned(),
            sync_mode: SyncMode::DataOnly,
            max_file_size: 100 * 1024 * 1024,
        }
    }

    /// Chooses the durability mode.
    pub fn sync_mode(self, mode: SyncMode) -> (r: Self)
        ensures
            r.path@ == self.path@,
            r.sync_mode == mode,
            r.max_file_size == self.max_file_size,
    {
        Self { sync_mode: mode, ..self }
    }

    /// Chooses the size at which the log asks for rotation.
    pub fn max_file_size(self, size: u64) -> (r: Self)
        ensures
            r.path@ == self.path@,
            r.sync_mode == self.sync_mode,
            r.max_file_size == size,
    {
        Self { max_file_size: size, ..self }
    }
}

} // verus!
