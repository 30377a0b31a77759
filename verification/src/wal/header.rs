//! The 64-byte preamble of a write-ahead log segment.
//!
//! The header is exactly one cache line and is written once, at
//! segment creation, before any entry; it is never mutated after.
//!
//! ## Binary layout
//!
//! ```text
//! Offset  Size  Field               Description
//! ------  ----  -----               -----------
//! 0       8     magic               "FDB_WAL\0"
//! 8       2     version             major in the high byte, minor low
//! 10      2     flags               reserved; must be zero
//! 12      4     header_size         64
//! 16      4     header_checksum     CRC-32 of bytes 0..16 and 20..64
//! 20      4     entry_start_offset  64; the first entry begins here
//! 24      8     created_at          microseconds since the Unix epoch
//! 32      8     file_sequence       unique id for this segment
//! 40      24    reserved            zero in the current version
//! ```
//!
//! All multi-byte integers are little-endian.

use vstd::prelude::*;

use crate::checksum::{crc32, crc32_of};
use crate::error::Error;
use crate::format::{ChecksummedHeader, FileFormat, FileHeader, FileMetadata};
use crate::util::msg_num;

verus! {

use vstd::bytes::{
    spec_u16_from_le_bytes, spec_u16_to_le_bytes, spec_u32_from_le_bytes, spec_u32_to_le_bytes,
    spec_u64_from_le_bytes, spec_u64_to_le_bytes, u16_from_le_bytes, u16_to_le_bytes,
    u32_from_le_bytes, u32_to_le_bytes, u64_from_le_bytes, u64_to_le_bytes,
    lemma_auto_spec_u16_to_from_le_bytes, lemma_auto_spec_u32_to_from_le_bytes,
    lemma_auto_spec_u64_to_from_le_bytes,
};
use vstd::string::StringExecFns;

/// Current format version of the segment header (v1.0).
pub const WAL_CURRENT_VERSION: u16 = 0x0100;

/// Oldest version this implementation still reads (v1.0).
pub const WAL_MIN_SUPPORTED_VERSION: u16 = 0x0100;

/// Size of the segment header in bytes.
pub const WAL_HEADER_SIZE: usize = 64;

/// The magic bytes that open every segment: "FDB_WAL\0".
pub open spec fn spec_wal_magic() -> Seq<u8> {
    seq![0x46u8, 0x44u8, 0x42u8, 0x5Fu8, 0x57u8, 0x41u8, 0x4Cu8, 0x00u8]
}

/// Magic bytes identifying segment files: "FDB_WAL\0".
pub const WAL_MAGIC: [u8; 8] = [0x46, 0x44, 0x42, 0x5F, 0x57, 0x41, 0x4C, 0x00];

/// The magic bytes, with their view pinned to [`spec_wal_magic`].
pub fn wal_magic() -> (r: [u8; 8])
    ensures
        r@ == spec_wal_magic(),
{
    let m: [u8; 8] = WAL_MAGIC;
    proof {
        assert(m@ =~= spec_wal_magic());
    }
    m
}

/// The segment file header.
#[derive(Debug, Clone, Copy, PartialEq, Eq)]
pub struct WALHeader {
    /// Magic bytes identifying this as a segment file.
    pub magic: [u8; 8],
    /// Version number (major.minor in high.low bytes).
    pub version: u16,
    /// Feature flags (currently unused, must be 0).
    pub flags: u16,
    /// Total size of the header (64 in the current version).
    pub header_size: u32,
    /// CRC-32 of the header, excluding this field.
    pub header_checksum: u32,
    /// Offset where entries begin (64 in the current version).
    pub entry_start_offset: u32,
    /// Creation timestamp in microseconds since the Unix epoch.
    pub created_at: u64,
    /// Unique sequence number for this file.
    pub file_sequence: u64,
    /// Reserved for future use (must be zero).
    pub reserved: [u8; 24],
}

/// The bytes a header encodes to.
pub open spec fn spec_header_encoding(h: WALHeader) -> Seq<u8> {
    h.magic@ + spec_u16_to_le_bytes(h.version) + spec_u16_to_le_bytes(h.flags)
        + spec_u32_to_le_bytes(h.header_size) + spec_u32_to_le_bytes(h.header_checksum)
        + spec_u32_to_le_bytes(h.entry_start_offset) + spec_u64_to_le_bytes(h.created_at)
        + spec_u64_to_le_bytes(h.file_sequence) + h.reserved@
}

/// The bytes the header checksum covers: every field except the
/// checksum itself.
pub open spec fn spec_header_checksum_input(h: WALHeader) -> Seq<u8> {
    h.magic@ + spec_u16_to_le_bytes(h.version) + spec_u16_to_le_bytes(h.flags)
        + spec_u32_to_le_bytes(h.header_size) + spec_u32_to_le_bytes(h.entry_start_offset)
        + spec_u64_to_le_bytes(h.created_at) + spec_u64_to_le_bytes(h.file_sequence) + h.reserved@
}

/// Whether a version is accepted: its major part lies between the
/// minimum supported and the current major.
pub open spec fn spec_wal_version_supported(version: u16) -> bool {
    WAL_MIN_SUPPORTED_VERSION >> 8 <= version >> 8 && version >> 8 <= WAL_CURRENT_VERSION >> 8
}

/// Whether a header passes validation: right magic, accepted version,
/// the literal sizes of the current format, zero flags, and a
/// checksum that matches its fields.
pub open spec fn spec_header_valid(h: WALHeader) -> bool {
    &&& h.magic@ == spec_wal_magic()
    &&& spec_wal_version_supported(h.version)
    &&& h.header_size == WAL_HEADER_SIZE
    &&& h.flags == 0
    &&& h.header_checksum == crc32_of(spec_header_checksum_input(h))
}

/// Whether the leading 64 bytes of `data` hold a valid header.
pub open spec fn spec_header_bytes_valid(data: Seq<u8>) -> bool {
    &&& data.subrange(0, 8) == spec_wal_magic()
    &&& spec_wal_version_supported(spec_u16_from_le_bytes(data.subrange(8, 10)))
    &&& spec_u32_from_le_bytes(data.subrange(12, 16)) == WAL_HEADER_SIZE
    &&& spec_u16_from_le_bytes(data.subrange(10, 12)) == 0
    &&& spec_u32_from_le_bytes(data.subrange(16, 20)) == crc32_of(
        data.subrange(0, 16) + data.subrange(20, 64),
    )
}

/// Whether a header holds exactly the fields read from the leading 64
/// bytes of `data`.
pub open spec fn spec_header_parsed_from(h: WALHeader, data: Seq<u8>) -> bool {
    &&& h.magic@ == data.subrange(0, 8)
    &&& h.version == spec_u16_from_le_bytes(data.subrange(8, 10))
    &&& h.flags == spec_u16_from_le_bytes(data.subrange(10, 12))
    &&& h.header_size == spec_u32_from_le_bytes(data.subrange(12, 16))
    &&& h.header_checksum == spec_u32_from_le_bytes(data.subrange(16, 20))
    &&& h.entry_start_offset == spec_u32_from_le_bytes(data.subrange(20, 24))
    &&& h.created_at == spec_u64_from_le_bytes(data.subrange(24, 32))
    &&& h.file_sequence == spec_u64_from_le_bytes(data.subrange(32, 40))
    &&& h.reserved@ == data.subrange(40, 64)
}

impl WALHeader {
    /// Creates a new header for a fresh segment: current version,
    /// zero flags, the literal sizes of the format, the given file
    /// sequence, the clock's time of creation, and a checksum
    /// computed over the result. The new header validates.
    pub fn new(file_sequence: u64) -> (r: Self)
        ensures
            r.magic@ == spec_wal_magic(),
            r.version == WAL_CURRENT_VERSION,
            r.flags == 0,
            r.header_size == WAL_HEADER_SIZE,
            r.entry_start_offset == WAL_HEADER_SIZE,
            r.file_sequence == file_sequence,
            r.reserved@ == Seq::new(24, |i: int| 0u8),
            r.header_checksum == crc32_of(spec_header_checksum_input(r)),
            spec_header_valid(r),
    {
        let mut header = Self {
            magic: wal_magic(),
            version: WAL_CURRENT_VERSION,
            flags: 0,
            header_size: WAL_HEADER_SIZE as u32,
            header_checksum: 0,
            entry_start_offset: WAL_HEADER_SIZE as u32,
            created_at: current_timestamp_micros(),
            file_sequence,
            reserved: [0; 24],
        };


        let ghost before = header;
        header.header_checksum = header.compute_checksum();
        proof {
            assert(spec_header_checksum_input(header) =~= spec_header_checksum_input(before));
            assert(header.reserved@ =~= Seq::new(24, |i: int| 0u8));
        }
        header
    }
}

impl WALHeader {
    /// Calculates the CRC-32 over every field except the stored
    /// checksum itself.
    pub fn compute_checksum(&self) -> (r: u32)
        ensures
            r == crc32_of(spec_header_checksum_input(*self)),
    {
        let mut buf: Vec<u8> = Vec::new();
        buf.extend_from_slice(self.magic.as_slice());
        let mut b2 = u16_to_le_bytes(self.version);
        buf.append(&mut b2);
        let mut b3 = u16_to_le_bytes(self.flags);
        buf.append(&mut b3);
        let mut b4 = u32_to_le_bytes(self.header_size);
        buf.append(&mut b4);
        let mut b5 = u32_to_le_bytes(self.entry_start_offset);
        buf.append(&mut b5);
        let mut b6 = u64_to_le_bytes(self.created_at);
        buf.append(&mut b6);
        let mut b7 = u64_to_le_bytes(self.file_sequence);
        buf.append(&mut b7);
        buf.extend_from_slice(self.reserved.as_slice());
        assert(buf@ =~= spec_header_checksum_input(*self));
        crc32(buf.as_slice())
    }
}

impl FileFormat for WALHeader {
    open spec fn spec_magic() -> Seq<u8> {
        spec_wal_magic()
    }

    open spec fn spec_format_name() -> Seq<char> {
        "WAL"@
    }

    open spec fn spec_current_version() -> u16 {
        WAL_CURRENT_VERSION
    }

    open spec fn spec_min_supported_version() -> u16 {
        WAL_MIN_SUPPORTED_VERSION
    }

    fn magic_bytes() -> (r: [u8; 8]) {
        wal_magic()
    }

    fn format_name() -> (r: &'static str) {
        "WAL"
    }

    fn current_version() -> (r: u16) {
        WAL_CURRENT_VERSION
    }

    fn min_supported_version() -> (r: u16) {
        WAL_MIN_SUPPORTED_VERSION
    }
}

impl FileHeader for WALHeader {
    open spec fn spec_header_size() -> int {
        WAL_HEADER_SIZE as int
    }

    open spec fn spec_encoding(&self) -> Seq<u8> {
        spec_header_encoding(*self)
    }

    open spec fn spec_valid(&self) -> bool {
        spec_header_valid(*self)
    }

    open spec fn spec_bytes_valid(data: Seq<u8>) -> bool {
        spec_header_bytes_valid(data)
    }

    open spec fn spec_parsed_from(&self, data: Seq<u8>) -> bool {
        spec_header_parsed_from(*self, data)
    }

    open spec fn spec_version(&self) -> u16 {
        self.version
    }

    open spec fn spec_magic_value(&self) -> Seq<u8> {
        self.magic@
    }

    fn header_size() -> (r: usize) {
        WAL_HEADER_SIZE
    }

    fn encode(&self) -> (r: Vec<u8>) {
        let mut buf: Vec<u8> = Vec::new();
        buf.extend_from_slice(self.magic.as_slice());
        let mut b2 = u16_to_le_bytes(self.version);
        buf.append(&mut b2);
        let mut b3 = u16_to_le_bytes(self.flags);
        buf.append(&mut b3);
        let mut b4 = u32_to_le_bytes(self.header_size);
        buf.append(&mut b4);
        let mut b5 = u32_to_le_bytes(self.header_checksum);
        buf.append(&mut b5);
        let mut b6 = u32_to_le_bytes(self.entry_start_offset);
        buf.append(&mut b6);
        let mut b7 = u64_to_le_bytes(self.created_at);
        buf.append(&mut b7);
        let mut b8 = u64_to_le_bytes(self.file_sequence);
        buf.append(&mut b8);
        buf.extend_from_slice(self.reserved.as_slice());
        assert(buf@ =~= spec_header_encoding(*self));
        buf
    }

    fn decode(data: &[u8]) -> (r: Result<Self, Error>) {
        if data.len() < WAL_HEADER_SIZE {
            return Err(Error::Corruption(msg_num(
                "WAL header too small: ",
                data.len() as u64,
                " bytes (expected 64)",
            )));
        }

        let magic: [u8; 8] = [
            data[0], data[1], data[2], data[3], data[4], data[5], data[6], data[7],
        ];
        let version = u16_from_le_bytes(&data[8..10]);
        let flags = u16_from_le_bytes(&data[10..12]);
        let header_size = u32_from_le_bytes(&data[12..16]);
        let header_checksum = u32_from_le_bytes(&data[16..20]);
        let entry_start_offset = u32_from_le_bytes(&data[20..24]);
        let created_at = u64_from_le_bytes(&data[24..32]);
        let file_sequence = u64_from_le_bytes(&data[32..40]);
        let reserved: [u8; 24] = [
            data[40], data[41], data[42], data[43], data[44], data[45], data[46], data[47],
            data[48], data[49], data[50], data[51], data[52], data[53], data[54], data[55],
            data[56], data[57], data[58], data[59], data[60], data[61], data[62], data[63],
        ];

        let header = Self {
            magic,
            version,
            flags,
            header_size,
            header_checksum,
            entry_start_offset,
            created_at,
            file_sequence,
            reserved,
        };
        proof {
            lemma_auto_spec_u16_to_from_le_bytes();
            lemma_auto_spec_u32_to_from_le_bytes();
            lemma_auto_spec_u64_to_from_le_bytes();
            assert(header.magic@ =~= data@.subrange(0, 8));
            assert(header.reserved@ =~= data@.subrange(40, 64));
            assert(spec_u16_to_le_bytes(header.version) == data@.subrange(8, 10));
            assert(spec_u16_to_le_bytes(header.flags) == data@.subrange(10, 12));
            assert(spec_u32_to_le_bytes(header.header_size) == data@.subrange(12, 16));
            assert(spec_u32_to_le_bytes(header.entry_start_offset) == data@.subrange(20, 24));
            assert(spec_u64_to_le_bytes(header.created_at) == data@.subrange(24, 32));
            assert(spec_u64_to_le_bytes(header.file_sequence) == data@.subrange(32, 40));
            assert(spec_header_checksum_input(header) =~= data@.subrange(0, 16) + data@.subrange(
                20,
                64,
            ));
        }

        let res = header.validate();
        match res {
            Ok(_) => Ok(header),
            Err(e) => Err(e),
        }
    }

    fn validate(&self) -> (r: Result<(), Error>) {
        let expected = wal_magic();
        if !crate::util::bytes_eq(self.magic.as_slice(), expected.as_slice()) {
            return Err(Error::Corruption("Invalid WAL magic".to_owned()));
        }

        if !self.is_version_supported() {
            return Err(Error::Corruption(msg_two_nums_version(self.version)));
        }

        if self.header_size != WAL_HEADER_SIZE as u32 {
            return Err(Error::Corruption(msg_num(
                "Invalid WAL header size: ",
                self.header_size as u64,
                " (expected 64)",
            )));
        }

        if self.flags != 0 {
            return Err(Error::Corruption(msg_num(
                "Invalid WAL flags: ",
                self.flags as u64,
                " (must be 0)",
            )));
        }

        let calculated = self.compute_checksum();
        if calculated != self.header_checksum {
            return Err(Error::Corruption(crate::util::msg_two_hex(
                "WAL header checksum mismatch: expected ",
                self.header_checksum as u64,
                ", got ",
                calculated as u64,
            )));
        }

        Ok(())
    }

    fn magic(&self) -> (r: &[u8; 8]) {
        &self.magic
    }

    fn version(&self) -> (r: u16) {
        self.version
    }
}

fn msg_two_nums_version(version: u16) -> String {
    let mut s = crate::util::msg_two_nums(
        "Unsupported WAL version: ",
        (version >> 8) as u64,
        ".",
        (version & 0xFF) as u64,
        " (supported: ",
    );
    s.append(crate::util::msg_num("", (WAL_CURRENT_VERSION >> 8) as u64, ".x)").as_str());
    s
}

impl ChecksummedHeader for WALHeader {
    open spec fn spec_checksum_input(&self) -> Seq<u8> {
        spec_header_checksum_input(*self)
    }

    open spec fn spec_stored_checksum(&self) -> u32 {
        self.header_checksum
    }

    fn calculate_checksum(&self) -> (r: u32) {
        self.compute_checksum()
    }

    fn stored_checksum(&self) -> (r: u32) {
        self.header_checksum
    }
}

impl FileMetadata for WALHeader {
    open spec fn spec_created_at(&self) -> u64 {
        self.created_at
    }

    open spec fn spec_file_id(&self) -> u64 {
        self.file_sequence
    }

    fn created_at(&self) -> (r: u64) {
        self.created_at
    }

    fn file_id(&self) -> (r: u64) {
        self.file_sequence
    }
}

/// Relies on std::time::SystemTime: the current time in microseconds
/// since the Unix epoch, or zero if the clock reports an earlier
/// time.
#[verifier::external_body]
pub(crate) fn current_timestamp_micros() -> u64 {
    std::time::SystemTime::now()
        .duration_since(std::time::UNIX_EPOCH)
        .unwrap_or_else(|_| std::time::Duration::from_secs(0))
        .as_micros() as u64
}

/// Encoding a header and reading its fields back is the identity, and
/// a valid header's encoding validates at the byte level.
pub proof fn lemma_header_roundtrip(h: WALHeader)
    ensures
        spec_header_encoding(h).len() == 64,
        spec_header_parsed_from(h, spec_header_encoding(h)),
        spec_header_valid(h) ==> spec_header_bytes_valid(spec_header_encoding(h)),
{
    lemma_auto_spec_u16_to_from_le_bytes();
    lemma_auto_spec_u32_to_from_le_bytes();
    lemma_auto_spec_u64_to_from_le_bytes();
    let e = spec_header_encoding(h);
    assert(e.len() == 64);
    assert(e.subrange(0, 8) =~= h.magic@);
    assert(e.subrange(8, 10) =~= spec_u16_to_le_bytes(h.version));
    assert(e.subrange(10, 12) =~= spec_u16_to_le_bytes(h.flags));
    assert(e.subrange(12, 16) =~= spec_u32_to_le_bytes(h.header_size));
    assert(e.subrange(16, 20) =~= spec_u32_to_le_bytes(h.header_checksum));
    assert(e.subrange(20, 24) =~= spec_u32_to_le_bytes(h.entry_start_offset));
    assert(e.subrange(24, 32) =~= spec_u64_to_le_bytes(h.created_at));
    assert(e.subrange(32, 40) =~= spec_u64_to_le_bytes(h.file_sequence));
    assert(e.subrange(40, 64) =~= h.reserved@);
    assert(e.subrange(0, 16) + e.subrange(20, 64) =~= spec_header_checksum_input(h));
}

} // verus!
