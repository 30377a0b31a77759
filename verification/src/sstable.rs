//! Primitives of the sorted-table format, the write-ahead log's
//! sibling on-disk format.
//!
//! A sorted table stores ordered key/value pairs in data blocks, with
//! an index block, a bloom filter and a fixed 40-byte footer that
//! locates them. Only the primitives live here: the internal key with
//! its ordering, the index entry, and the footer with its exact
//! little-endian layout.
//!
//! ## Footer layout (40 bytes)
//!
//! ```text
//! +--------------+--------------+--------------+--------------+--------------+
//! | index offset | index length | bloom offset | bloom length | magic number |
//! |  (8 bytes)   |  (8 bytes)   |  (8 bytes)   |  (8 bytes)   |  (8 bytes)   |
//! +--------------+--------------+--------------+--------------+--------------+
//! ```
//!
//! ## Key invariants
//!
//! 1. Entries are sorted by (user key ascending, timestamp descending).
//! 2. Tables are immutable after creation.
//! 3. All multi-byte integers are little-endian.

use vstd::prelude::*;

use crate::error::Error;
use crate::types::{Key, Operation, Timestamp};
use crate::util::{bytes_eq, decimal_string, lossy_string, msg_two_nums, spec_bytes_cmp,
    spec_decimal_chars, utf8_lossy_of};

verus! {

use vstd::bytes::{
    spec_u64_from_le_bytes, spec_u64_to_le_bytes, u64_from_le_bytes, u64_to_le_bytes,
    lemma_auto_spec_u64_to_from_le_bytes,
};
use vstd::string::StringExecFns;

/// Magic number for sorted-table files ("FERRISDB" in ASCII).
pub const SSTABLE_MAGIC: u64 = 0x4645525249534442;

/// Default data-block size (4 KiB).
pub const DEFAULT_BLOCK_SIZE: usize = 4096;

/// Footer size in bytes.
pub const FOOTER_SIZE: usize = 40;

/// Maximum key or value size (16 MiB).
pub const MAX_ENTRY_SIZE: usize = 16 * 1024 * 1024;

/// Internal key of a sorted-table entry: the user key with its
/// multi-version timestamp and operation. Keys order by (user key
/// ascending, timestamp descending), so the newest version of a key
/// comes first.
#[derive(Debug, Clone, Eq)]
pub struct InternalKey {
    pub user_key: Key,
    pub timestamp: Timestamp,
    pub operation: Operation,
}

/// The order of two internal keys: by user key, lexicographically;
/// between equal user keys the newer timestamp comes first.
pub open spec fn spec_internal_key_cmp(a: InternalKey, b: InternalKey) -> core::cmp::Ordering {
    match spec_bytes_cmp(a.user_key@, b.user_key@) {
        core::cmp::Ordering::Equal => {
            if b.timestamp < a.timestamp {
                core::cmp::Ordering::Less
            } else if b.timestamp > a.timestamp {
                core::cmp::Ordering::Greater
            } else {
                core::cmp::Ordering::Equal
            }
        },
        o => o,
    }
}

/// The diagnostic name of an operation.
pub open spec fn spec_operation_name(op: Operation) -> Seq<char> {
    match op {
        Operation::Put => "Put"@,
        Operation::Delete => "Delete"@,
    }
}

impl InternalKey {
    /// Creates a new internal key.
    pub fn new(user_key: Key, timestamp: Timestamp, operation: Operation) -> (r: Self)
        ensures
            r.user_key@ == user_key@,
            r.timestamp == timestamp,
            r.operation == operation,
    {
        Self { user_key, timestamp, operation }
    }

    /// The total serialized size of this internal key: the two length
    /// fields, the timestamp, the operation tag and the key bytes.
    pub fn serialized_size(&self) -> (r: usize)
        requires
            self.user_key@.len() + 17 <= usize::MAX,
        ensures
            r == 17 + self.user_key@.len(),
    {
        4 + 4 + 8 + 1 + self.user_key.len()
    }

    /// Renders the key as `key@timestamp:Operation` for diagnostics.
    pub fn display_string(&self) -> (r: String)
        ensures
            r@ == utf8_lossy_of(self.user_key@) + "@"@ + spec_decimal_chars(self.timestamp as int)
                + ":"@ + spec_operation_name(self.operation),
    {
        let mut s = lossy_string(self.user_key.as_slice());
        s.append("@");
        s.append(decimal_string(self.timestamp).as_str());
        s.append(":");
        match self.operation {
            Operation::Put => s.append("Put"),
            Operation::Delete => s.append("Delete"),
        }
        s
    }
}

impl PartialEq for InternalKey {
    fn eq(&self, other: &Self) -> (r: bool) {
        bytes_eq(self.user_key.as_slice(), other.user_key.as_slice())
            && self.timestamp == other.timestamp && self.operation == other.operation
    }
}

impl vstd::std_specs::cmp::PartialEqSpecImpl for InternalKey {
    open spec fn obeys_eq_spec() -> bool {
        true
    }

    open spec fn eq_spec(&self, other: &Self) -> bool {
        self.user_key@ == other.user_key@ && self.timestamp == other.timestamp && self.operation
            == other.operation
    }
}

impl PartialOrd for InternalKey {
    fn partial_cmp(&self, other: &Self) -> (r: Option<core::cmp::Ordering>) {
        let key_order = crate::util::bytes_cmp(
            self.user_key.as_slice(),
            other.user_key.as_slice(),
        );
        let o = match key_order {
            core::cmp::Ordering::Equal => {
                if other.timestamp < self.timestamp {
                    core::cmp::Ordering::Less
                } else if other.timestamp > self.timestamp {
                    core::cmp::Ordering::Greater
                } else {
                    core::cmp::Ordering::Equal
                }
            },
            core::cmp::Ordering::Less => core::cmp::Ordering::Less,
            core::cmp::Ordering::Greater => core::cmp::Ordering::Greater,
        };
        Some(o)
    }
}

impl vstd::std_specs::cmp::PartialOrdSpecImpl for InternalKey {
    open spec fn obeys_partial_cmp_spec() -> bool {
        true
    }

    open spec fn partial_cmp_spec(&self, other: &Self) -> Option<core::cmp::Ordering> {
        Some(spec_internal_key_cmp(*self, *other))
    }
}

/// Index entry pointing to one data block.
#[derive(Debug, Clone)]
pub struct IndexEntry {
    /// File offset of the data block.
    pub block_offset: u64,
    /// First key in the data block.
    pub first_key: Key,
}

impl IndexEntry {
    /// Creates a new index entry.
    pub fn new(block_offset: u64, first_key: Key) -> (r: Self)
        ensures
            r.block_offset == block_offset,
            r.first_key@ == first_key@,
    {
        Self { block_offset, first_key }
    }

    /// The serialized size of this index entry: the block offset, the
    /// key length field and the key bytes.
    pub fn serialized_size(&self) -> (r: usize)
        requires
            self.first_key@.len() + 12 <= usize::MAX,
        ensures
            r == 12 + self.first_key@.len(),
    {
        8 + 4 + self.first_key.len()
    }
}

/// Sorted-table metadata stored in the footer.
#[derive(Debug, Clone, PartialEq, Eq, Structural)]
pub struct Footer {
    /// Offset of the index block.
    pub index_offset: u64,
    /// Length of the index block.
    pub index_length: u64,
    /// Offset of the bloom filter.
    pub bloom_offset: u64,
    /// Length of the bloom filter.
    pub bloom_length: u64,
    /// Magic number for validation.
    pub magic: u64,
}

/// The 40 bytes a footer serializes to.
pub open spec fn spec_footer_bytes(f: Footer) -> Seq<u8> {
    spec_u64_to_le_bytes(f.index_offset) + spec_u64_to_le_bytes(f.index_length)
        + spec_u64_to_le_bytes(f.bloom_offset) + spec_u64_to_le_bytes(f.bloom_length)
        + spec_u64_to_le_bytes(f.magic)
}

impl Footer {
    /// Creates a new footer carrying the table magic.
    pub fn new(index_offset: u64, index_length: u64, bloom_offset: u64, bloom_length: u64) -> (r:
        Self)
        ensures
            r == (Footer {
                index_offset,
                index_length,
                bloom_offset,
                bloom_length,
                magic: SSTABLE_MAGIC,
            }),
    {
        Self { index_offset, index_length, bloom_offset, bloom_length, magic: SSTABLE_MAGIC }
    }

    /// Serializes the footer to its exact 40 on-disk bytes.
    pub fn to_bytes(&self) -> (r: Vec<u8>)
        ensures
            r@ == spec_footer_bytes(*self),
            r@.len() == FOOTER_SIZE,
    {
        let mut bytes = u64_to_le_bytes(self.index_offset);
        let mut b2 = u64_to_le_bytes(self.index_length);
        bytes.append(&mut b2);
        let mut b3 = u64_to_le_bytes(self.bloom_offset);
        bytes.append(&mut b3);
        let mut b4 = u64_to_le_bytes(self.bloom_length);
        bytes.append(&mut b4);
        let mut b5 = u64_to_le_bytes(self.magic);
        bytes.append(&mut b5);
        assert(bytes@ =~= spec_footer_bytes(*self));
        bytes
    }

    /// Deserializes a footer. Succeeds exactly on a 40-byte input
    /// whose last eight bytes hold the table magic; the fields are
    /// read back exactly.
    pub fn from_bytes(bytes: &[u8]) -> (r: Result<Self, Error>)
        ensures
            r is Ok <==> bytes@.len() == FOOTER_SIZE && spec_u64_from_le_bytes(
                bytes@.subrange(32, 40),
            ) == SSTABLE_MAGIC,
            r matches Ok(f) ==> f == (Footer {
                index_offset: spec_u64_from_le_bytes(bytes@.subrange(0, 8)),
                index_length: spec_u64_from_le_bytes(bytes@.subrange(8, 16)),
                bloom_offset: spec_u64_from_le_bytes(bytes@.subrange(16, 24)),
                bloom_length: spec_u64_from_le_bytes(bytes@.subrange(24, 32)),
                magic: SSTABLE_MAGIC,
            }),
            r matches Err(e) ==> e matches Error::InvalidFormat(_),
    {
        if bytes.len() != FOOTER_SIZE {
            return Err(Error::InvalidFormat("Invalid footer size".to_owned()));
        }

        let index_offset = u64_from_le_bytes(&bytes[0..8]);
        let index_length = u64_from_le_bytes(&bytes[8..16]);
        let bloom_offset = u64_from_le_bytes(&bytes[16..24]);
        let bloom_length = u64_from_le_bytes(&bytes[24..32]);
        let magic = u64_from_le_bytes(&bytes[32..40]);

        if magic != SSTABLE_MAGIC {
            return Err(Error::InvalidFormat(msg_two_nums(
                "Invalid magic number: expected ",
                SSTABLE_MAGIC,
                ", got ",
                magic,
                "",
            )));
        }

        Ok(Self { index_offset, index_length, bloom_offset, bloom_length, magic })
    }
}

/// Serializing a footer and reading the bytes back restores every
/// field, and the result carries the table magic, so it passes
/// validation.
pub proof fn lemma_footer_roundtrip(f: Footer)
    ensures
        spec_footer_bytes(f).len() == FOOTER_SIZE,
        spec_u64_from_le_bytes(spec_footer_bytes(f).subrange(0, 8)) == f.index_offset,
        spec_u64_from_le_bytes(spec_footer_bytes(f).subrange(8, 16)) == f.index_length,
        spec_u64_from_le_bytes(spec_footer_bytes(f).subrange(16, 24)) == f.bloom_offset,
        spec_u64_from_le_bytes(spec_footer_bytes(f).subrange(24, 32)) == f.bloom_length,
        spec_u64_from_le_bytes(spec_footer_bytes(f).subrange(32, 40)) == f.magic,
{
    lemma_auto_spec_u64_to_from_le_bytes();
    let e = spec_footer_bytes(f);
    assert(e.subrange(0, 8) =~= spec_u64_to_le_bytes(f.index_offset));
    assert(e.subrange(8, 16) =~= spec_u64_to_le_bytes(f.index_length));
    assert(e.subrange(16, 24) =~= spec_u64_to_le_bytes(f.bloom_offset));
    assert(e.subrange(24, 32) =~= spec_u64_to_le_bytes(f.bloom_length));
    assert(e.subrange(32, 40) =~= spec_u64_to_le_bytes(f.magic));
}

} // verus!
