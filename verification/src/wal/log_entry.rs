//! The framed entry of the write-ahead log.
//!
//! ## Binary format
//!
//! ```text
//! Offset  Size  Field      Description
//! ------  ----  -----      -----------
//! 0       4     length     Frame size in bytes after this field
//! 4       4     crc32      CRC-32 over bytes 8..end of frame
//! 8       8     timestamp  Operation timestamp (microseconds)
//! 16      1     op tag     1 = Put, 2 = Delete
//! 17      4     key_len    Key length in bytes
//! 21      k     key        Key data
//! 21+k    4     value_len  Value length in bytes (0 for Delete)
//! 25+k    v     value      Value data (empty for Delete)
//! ```
//!
//! All multi-byte integers are little-endian. The length field does
//! not include itself, so a frame occupies `length + 4` bytes. The
//! size bounds below are enforced identically on encode and decode;
//! any decoded value that exceeds them is treated as corruption.

use vstd::prelude::*;

use crate::checksum::{crc32, crc32_of};
use crate::error::Error;
use crate::types::{Key, Operation, Timestamp, Value};
use crate::util::{msg_num, msg_two_hex, msg_two_nums};

verus! {

use vstd::bytes::{
    spec_u32_from_le_bytes, spec_u32_to_le_bytes, spec_u64_from_le_bytes, spec_u64_to_le_bytes,
    u32_from_le_bytes, u32_to_le_bytes, u64_from_le_bytes, u64_to_le_bytes,
    lemma_auto_spec_u32_to_from_le_bytes, lemma_auto_spec_u64_to_from_le_bytes,
};
use vstd::slice::slice_to_vec;

/// Largest accepted key, in bytes.
pub const MAX_KEY_SIZE: usize = 10 * 1024;

/// Largest accepted value, in bytes.
pub const MAX_VALUE_SIZE: usize = 100 * 1024;

/// Smallest possible frame: every field present, key and value empty.
pub const MIN_ENTRY_SIZE: usize = 25;

/// Largest possible frame.
pub const MAX_ENTRY_SIZE: usize = MAX_KEY_SIZE + MAX_VALUE_SIZE + MIN_ENTRY_SIZE;

/// Initial capacity of the reader's reusable frame buffer.
pub const DEFAULT_READER_BUFFER_SIZE: usize = 8 * 1024;

/// The mathematical content of one log entry.
pub struct EntryModel {
    pub timestamp: u64,
    pub operation: Operation,
    pub key: Seq<u8>,
    pub value: Seq<u8>,
}

/// An entry in the write-ahead log: one Put or Delete with its key,
/// value and caller-assigned timestamp. Immutable once created.
#[derive(Debug, Clone, PartialEq, Eq)]
pub struct WALEntry {
    /// Timestamp when this operation occurred.
    pub timestamp: Timestamp,
    /// Type of operation (Put or Delete).
    pub operation: Operation,
    /// The key being operated on.
    pub key: Key,
    /// The value (empty for Delete operations).
    pub value: Value,
}

impl View for WALEntry {
    type V = EntryModel;

    open spec fn view(&self) -> EntryModel {
        EntryModel {
            timestamp: self.timestamp,
            operation: self.operation,
            key: self.key@,
            value: self.value@,
        }
    }
}

/// The tag byte written for an operation.
pub open spec fn spec_op_tag(op: Operation) -> u8 {
    match op {
        Operation::Put => 1,
        Operation::Delete => 2,
    }
}

/// The operation read from a tag byte (meaningful for tags 1 and 2).
pub open spec fn spec_tag_op(tag: u8) -> Operation {
    if tag == 1 {
        Operation::Put
    } else {
        Operation::Delete
    }
}

/// Whether an entry's key and value respect the size bounds.
pub open spec fn spec_entry_bounded(m: EntryModel) -> bool {
    m.key.len() <= MAX_KEY_SIZE && m.value.len() <= MAX_VALUE_SIZE
}

/// The checksummed part of a frame: everything after length and CRC.
pub open spec fn spec_entry_payload(m: EntryModel) -> Seq<u8> {
    spec_u64_to_le_bytes(m.timestamp) + seq![spec_op_tag(m.operation)] + spec_u32_to_le_bytes(
        m.key.len() as u32,
    ) + m.key + spec_u32_to_le_bytes(m.value.len() as u32) + m.value
}

/// The complete frame an entry encodes to.
pub open spec fn spec_entry_encoding(m: EntryModel) -> Seq<u8> {
    spec_u32_to_le_bytes((spec_entry_payload(m).len() + 4) as u32) + spec_u32_to_le_bytes(
        crc32_of(spec_entry_payload(m)),
    ) + spec_entry_payload(m)
}

/// The declared key length of a frame.
pub open spec fn spec_frame_key_len(data: Seq<u8>) -> int {
    spec_u32_from_le_bytes(data.subrange(17, 21)) as int
}

/// The declared value length of a frame.
pub open spec fn spec_frame_value_len(data: Seq<u8>) -> int {
    let k = spec_frame_key_len(data);
    spec_u32_from_le_bytes(data.subrange(21 + k, 25 + k)) as int
}

/// Whether a byte sequence is one well-formed frame: correctly sized,
/// checksummed, with a known operation tag and in-bounds lengths, and
/// nothing trailing.
pub open spec fn spec_frame_ok(data: Seq<u8>) -> bool {
    let len_field = spec_u32_from_le_bytes(data.subrange(0, 4)) as int;
    let k = spec_frame_key_len(data);
    let v = spec_frame_value_len(data);
    &&& data.len() >= MIN_ENTRY_SIZE
    &&& len_field <= MAX_ENTRY_SIZE
    &&& data.len() == len_field + 4
    &&& spec_u32_from_le_bytes(data.subrange(4, 8)) == crc32_of(data.skip(8))
    &&& (data[16] == 1 || data[16] == 2)
    &&& k <= MAX_KEY_SIZE
    &&& data.len() >= 25 + k
    &&& v <= MAX_VALUE_SIZE
    &&& data.len() == 25 + k + v
}

/// The entry a well-formed frame decodes to.
pub open spec fn spec_frame_entry(data: Seq<u8>) -> EntryModel {
    let k = spec_frame_key_len(data);
    let v = spec_frame_value_len(data);
    EntryModel {
        timestamp: spec_u64_from_le_bytes(data.subrange(8, 16)),
        operation: spec_tag_op(data[16]),
        key: data.subrange(21, 21 + k),
        value: data.subrange(25 + k, 25 + k + v),
    }
}

fn op_tag(op: Operation) -> (r: u8)
    ensures
        r == spec_op_tag(op),
{
    match op {
        Operation::Put => 1,
        Operation::Delete => 2,
    }
}

impl WALEntry {
    /// Creates a new Put entry.
    ///
    /// Fails with `Corruption` exactly when the key or the value
    /// exceeds its size bound.
    pub fn new_put(key: Key, value: Value, timestamp: Timestamp) -> (r: Result<Self, Error>)
        ensures
            r is Ok <==> key@.len() <= MAX_KEY_SIZE && value@.len() <= MAX_VALUE_SIZE,
            r matches Ok(e) ==> e@ == (EntryModel {
                timestamp,
                operation: Operation::Put,
                key: key@,
                value: value@,
            }),
            r matches Err(e) ==> e matches Error::Corruption(_),
    {
        if key.len() > MAX_KEY_SIZE {
            return Err(Error::Corruption(msg_two_nums(
                "Key size ",
                key.len() as u64,
                " exceeds maximum ",
                MAX_KEY_SIZE as u64,
                "",
            )));
        }
        if value.len() > MAX_VALUE_SIZE {
            return Err(Error::Corruption(msg_two_nums(
                "Value size ",
                value.len() as u64,
                " exceeds maximum ",
                MAX_VALUE_SIZE as u64,
                "",
            )));
        }
        Ok(Self { timestamp, operation: Operation::Put, key, value })
    }

    /// Creates a new Delete entry; the value is forced empty.
    ///
    /// Fails with `Corruption` exactly when the key exceeds its size
    /// bound.
    pub fn new_delete(key: Key, timestamp: Timestamp) -> (r: Result<Self, Error>)
        ensures
            r is Ok <==> key@.len() <= MAX_KEY_SIZE,
            r matches Ok(e) ==> e@ == (EntryModel {
                timestamp,
                operation: Operation::Delete,
                key: key@,
                value: Seq::<u8>::empty(),
            }),
            r matches Err(e) ==> e matches Error::Corruption(_),
    {
        if key.len() > MAX_KEY_SIZE {
            return Err(Error::Corruption(msg_two_nums(
                "Key size ",
                key.len() as u64,
                " exceeds maximum ",
                MAX_KEY_SIZE as u64,
                "",
            )));
        }
        let value: Vec<u8> = Vec::new();
        let e = Self { timestamp, operation: Operation::Delete, key, value };
        assert(e@.value =~= Seq::<u8>::empty());
        Ok(e)
    }

    /// Encodes the entry into one contiguous frame in the binary
    /// format above.
    ///
    /// Succeeds exactly when the size bounds hold (they are re-checked
    /// here, defensively against mutation of the public fields). The
    /// frame's first four bytes, read little-endian, equal its length
    /// minus four.
    pub fn encode(&self) -> (r: Result<Vec<u8>, Error>)
        ensures
            r is Ok <==> spec_entry_bounded(self@),
            r matches Ok(out) ==> out@ == spec_entry_encoding(self@),
            r matches Ok(out) ==> out@.len() == 25 + self.key@.len() + self.value@.len(),
            r matches Ok(out) ==> spec_u32_from_le_bytes(out@.subrange(0, 4)) + 4 == out@.len(),
            r matches Err(e) ==> e matches Error::Corruption(_),
    {
        if self.key.len() > MAX_KEY_SIZE {
            return Err(Error::Corruption(msg_two_nums(
                "Key size ",
                self.key.len() as u64,
                " exceeds maximum ",
                MAX_KEY_SIZE as u64,
                "",
            )));
        }
        if self.value.len() > MAX_VALUE_SIZE {
            return Err(Error::Corruption(msg_two_nums(
                "Value size ",
                self.value.len() as u64,
                " exceeds maximum ",
                MAX_VALUE_SIZE as u64,
                "",
            )));
        }

        let mut payload: Vec<u8> = Vec::new();
        let mut ts_bytes = u64_to_le_bytes(self.timestamp);
        payload.append(&mut ts_bytes);
        payload.push(op_tag(self.operation));
        let mut key_len_bytes = u32_to_le_bytes(self.key.len() as u32);
        payload.append(&mut key_len_bytes);
        payload.extend_from_slice(self.key.as_slice());
        let mut value_len_bytes = u32_to_le_bytes(self.value.len() as u32);
        payload.append(&mut value_len_bytes);
        payload.extend_from_slice(self.value.as_slice());
        assert(payload@ =~= spec_entry_payload(self@));

        let checksum = crc32(payload.as_slice());
        let total_len: u32 = (payload.len() + 4) as u32;
        let mut out = u32_to_le_bytes(total_len);
        let mut crc_bytes = u32_to_le_bytes(checksum);
        out.append(&mut crc_bytes);
        out.append(&mut payload);
        assert(out@ =~= spec_entry_encoding(self@));
        proof {
            lemma_auto_spec_u32_to_from_le_bytes();
            assert(out@.subrange(0, 4) =~= spec_u32_to_le_bytes(total_len));
        }
        Ok(out)
    }

    /// Decodes one complete frame, strictly.
    ///
    /// Succeeds exactly when the input is one well-formed frame; any
    /// violation — a short buffer, a length that disagrees with the
    /// input size or exceeds the maximum, a checksum mismatch, an
    /// unknown operation tag, an out-of-bounds or truncated field, or
    /// trailing bytes — is reported as `Corruption` with a message
    /// naming the failed check. The length check runs before the
    /// checksum so obviously wrong frames cost no CRC work, and the
    /// checksum runs before any content is interpreted.
    pub fn decode(data: &[u8]) -> (r: Result<Self, Error>)
        ensures
            r is Ok <==> spec_frame_ok(data@),
            r matches Ok(e) ==> e@ == spec_frame_entry(data@),
            r matches Err(e) ==> e matches Error::Corruption(_),
    {
        let n = data.len();
        if n < MIN_ENTRY_SIZE {
            return Err(Error::Corruption(msg_two_nums(
                "WAL entry too small: ",
                n as u64,
                " bytes (minimum: ",
                MIN_ENTRY_SIZE as u64,
                ")",
            )));
        }

        let length = u32_from_le_bytes(&data[0..4]) as usize;
        if length > MAX_ENTRY_SIZE {
            return Err(Error::Corruption(msg_two_nums(
                "WAL entry size ",
                length as u64,
                " exceeds maximum ",
                MAX_ENTRY_SIZE as u64,
                "",
            )));
        }
        if n != length + 4 {
            return Err(Error::Corruption(msg_two_nums(
                "WAL entry length mismatch: declared ",
                (length + 4) as u64,
                " but got ",
                n as u64,
                " bytes",
            )));
        }

        let expected_checksum = u32_from_le_bytes(&data[4..8]);
        let actual_checksum = crc32(&data[8..n]);
        proof {
            assert(data@.subrange(8, n as int) =~= data@.skip(8));
        }
        if expected_checksum != actual_checksum {
            return Err(Error::Corruption(msg_two_hex(
                "WAL entry checksum mismatch: expected ",
                expected_checksum as u64,
                " but got ",
                actual_checksum as u64,
            )));
        }

        let timestamp = u64_from_le_bytes(&data[8..16]);
        let tag = data[16];
        let operation = if tag == 1 {
            Operation::Put
        } else if tag == 2 {
            Operation::Delete
        } else {
            return Err(Error::Corruption(msg_num("Invalid operation type: ", tag as u64, "")));
        };

        let key_len = u32_from_le_bytes(&data[17..21]) as usize;
        if key_len > MAX_KEY_SIZE {
            return Err(Error::Corruption(msg_two_nums(
                "Key size ",
                key_len as u64,
                " exceeds maximum ",
                MAX_KEY_SIZE as u64,
                "",
            )));
        }
        if n - 21 < key_len + 4 {
            return Err(Error::Corruption(msg_two_nums(
                "WAL entry truncated: expected ",
                key_len as u64,
                " key bytes but only ",
                (n - 25) as u64,
                " available",
            )));
        }
        let key = slice_to_vec(&data[21..21 + key_len]);

        let value_len = u32_from_le_bytes(&data[21 + key_len..25 + key_len]) as usize;
        if value_len > MAX_VALUE_SIZE {
            return Err(Error::Corruption(msg_two_nums(
                "Value size ",
                value_len as u64,
                " exceeds maximum ",
                MAX_VALUE_SIZE as u64,
                "",
            )));
        }
        if n - 25 - key_len < value_len {
            return Err(Error::Corruption(msg_two_nums(
                "WAL entry truncated: expected ",
                value_len as u64,
                " value bytes but only ",
                (n - 25 - key_len) as u64,
                " available",
            )));
        }
        let value = slice_to_vec(&data[25 + key_len..25 + key_len + value_len]);

        if n != 25 + key_len + value_len {
            return Err(Error::Corruption(msg_num(
                "WAL entry has ",
                (n - 25 - key_len - value_len) as u64,
                " unexpected trailing bytes",
            )));
        }

        Ok(Self { timestamp, operation, key, value })
    }
}

/// Encoding then decoding is the identity: the frame an in-bounds
/// entry encodes to is well formed, and parsing it yields the entry
/// back — keys, values, timestamps and operation alike.
pub proof fn lemma_entry_roundtrip(m: EntryModel)
    requires
        m.key.len() <= MAX_KEY_SIZE,
        m.value.len() <= MAX_VALUE_SIZE,
    ensures
        spec_frame_ok(spec_entry_encoding(m)),
        spec_frame_entry(spec_entry_encoding(m)) == m,
{
    lemma_auto_spec_u32_to_from_le_bytes();
    lemma_auto_spec_u64_to_from_le_bytes();
    let p = spec_entry_payload(m);
    let e = spec_entry_encoding(m);
    let k = m.key.len() as int;
    let v = m.value.len() as int;
    assert(spec_u64_to_le_bytes(m.timestamp).len() == 8);
    assert(spec_u32_to_le_bytes(m.key.len() as u32).len() == 4);
    assert(spec_u32_to_le_bytes(m.value.len() as u32).len() == 4);
    assert(p.len() == 17 + k + v);
    assert(e.len() == 25 + k + v);
    assert(e.subrange(0, 4) =~= spec_u32_to_le_bytes((p.len() + 4) as u32));
    assert(e.subrange(4, 8) =~= spec_u32_to_le_bytes(crc32_of(p)));
    assert(e.skip(8) =~= p);
    assert(e.subrange(8, 16) =~= spec_u64_to_le_bytes(m.timestamp));
    assert(e[16] == spec_op_tag(m.operation));
    assert(e.subrange(17, 21) =~= spec_u32_to_le_bytes(m.key.len() as u32));
    assert(spec_frame_key_len(e) == k);
    assert(e.subrange(21, 21 + k) =~= m.key);
    assert(e.subrange(21 + k, 25 + k) =~= spec_u32_to_le_bytes(m.value.len() as u32));
    assert(spec_frame_value_len(e) == v);
    assert(e.subrange(25 + k, 25 + k + v) =~= m.value);
    assert(spec_u64_from_le_bytes(spec_u64_to_le_bytes(m.timestamp)) == m.timestamp);
    assert(spec_tag_op(spec_op_tag(m.operation)) == m.operation);
}

} // verus!
