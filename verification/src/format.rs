//! The shared contract of the engine's on-disk formats.
//!
//! Every file format (write-ahead log, sorted table, manifest, …)
//! opens with a self-describing header. The traits here are a small
//! capability set a format satisfies: identity (magic, name,
//! versions), an encodable and validatable header, a checksummed
//! header, and creation metadata. A header is accepted exactly when
//! the major part of its version lies between the minimum supported
//! and the current major version; minor differences are compatible.

use vstd::prelude::*;

use crate::checksum::crc32_of;
use crate::error::Error;
use crate::util::{decimal_string, msg_two_hex, padded6_string, spec_decimal_chars,
    spec_padded6_chars};

verus! {

use vstd::string::StringExecFns;

/// Identity of a file format: magic bytes, diagnostic name, and the
/// current and minimum supported versions, each `major << 8 | minor`.
pub trait FileFormat: Sized {
    /// The format's 8-byte magic, as written at the start of a file.
    spec fn spec_magic() -> Seq<u8>;

    /// The format's diagnostic name.
    spec fn spec_format_name() -> Seq<char>;

    /// The current version of the format.
    spec fn spec_current_version() -> u16;

    /// The oldest version this implementation still reads.
    spec fn spec_min_supported_version() -> u16;

    /// Magic bytes identifying this file type.
    fn magic_bytes() -> (r: [u8; 8])
        ensures
            r@ == Self::spec_magic(),
    ;

    /// Human-readable name for error messages.
    fn format_name() -> (r: &'static str)
        ensures
            r@ == Self::spec_format_name(),
    ;

    /// Current version of this format.
    fn current_version() -> (r: u16)
        ensures
            r == Self::spec_current_version(),
    ;

    /// Minimum supported version for reading.
    fn min_supported_version() -> (r: u16)
        ensures
            r == Self::spec_min_supported_version(),
    ;
}

/// Header operations for file formats.
pub trait FileHeader: FileFormat {
    /// Size of the encoded header, in bytes.
    spec fn spec_header_size() -> int;

    /// The exact bytes this header encodes to.
    spec fn spec_encoding(&self) -> Seq<u8>;

    /// Whether this header passes validation.
    spec fn spec_valid(&self) -> bool;

    /// Whether the leading header bytes of `data` would validate.
    spec fn spec_bytes_valid(data: Seq<u8>) -> bool;

    /// Whether this header holds exactly the fields read from the
    /// leading header bytes of `data`.
    spec fn spec_parsed_from(&self, data: Seq<u8>) -> bool;

    /// The version field of this header.
    spec fn spec_version(&self) -> u16;

    /// The magic field of this header.
    spec fn spec_magic_value(&self) -> Seq<u8>;

    /// Size of the header in bytes.
    fn header_size() -> (r: usize)
        ensures
            r as int == Self::spec_header_size(),
    ;

    /// Encodes the header to its exact on-disk bytes.
    fn encode(&self) -> (r: Vec<u8>)
        ensures
            r@ == self.spec_encoding(),
            r@.len() == Self::spec_header_size(),
    ;

    /// Decodes a header from the leading bytes of `data` and
    /// validates it. Succeeds exactly when enough bytes are present
    /// and they hold a valid header.
    fn decode(data: &[u8]) -> (r: Result<Self, Error>)
        ensures
            r is Ok <==> data@.len() >= Self::spec_header_size() && Self::spec_bytes_valid(data@),
            r matches Ok(h) ==> h.spec_parsed_from(data@) && h.spec_valid(),
            r matches Err(e) ==> e matches Error::Corruption(_),
    ;

    /// Validates this header's integrity and version. Succeeds
    /// exactly when the header is valid.
    fn validate(&self) -> (r: Result<(), Error>)
        ensures
            r is Ok <==> self.spec_valid(),
            r matches Err(e) ==> e matches Error::Corruption(_),
    ;

    /// The magic bytes of this header.
    fn magic(&self) -> (r: &[u8; 8])
        ensures
            r@ == self.spec_magic_value(),
    ;

    /// The version number of this header.
    fn version(&self) -> (r: u16)
        ensures
            r == self.spec_version(),
    ;

    /// Whether this header's version is readable here: its major part
    /// lies between the minimum supported and the current major.
    fn is_version_supported(&self) -> (r: bool)
        ensures
            r == (Self::spec_min_supported_version() >> 8 <= self.spec_version() >> 8
                && self.spec_version() >> 8 <= Self::spec_current_version() >> 8),
    {
        let major = self.version() >> 8;
        let min_major = Self::min_supported_version() >> 8;
        let current_major = Self::current_version() >> 8;
        major >= min_major && major <= current_major
    }
}

/// Headers protected by a checksum over all fields but the checksum
/// itself.
pub trait ChecksummedHeader: FileHeader {
    /// The bytes the header checksum is computed over.
    spec fn spec_checksum_input(&self) -> Seq<u8>;

    /// The checksum stored in this header.
    spec fn spec_stored_checksum(&self) -> u32;

    /// Calculates the checksum of the header, excluding the checksum
    /// field itself.
    fn calculate_checksum(&self) -> (r: u32)
        ensures
            r == crc32_of(self.spec_checksum_input()),
    ;

    /// The stored checksum field.
    fn stored_checksum(&self) -> (r: u32)
        ensures
            r == self.spec_stored_checksum(),
    ;

    /// Verifies that the stored checksum matches the calculated one.
    fn verify_checksum(&self) -> (r: Result<(), Error>)
        ensures
            r is Ok <==> self.spec_stored_checksum() == crc32_of(self.spec_checksum_input()),
            r matches Err(e) ==> e matches Error::Corruption(_),
    {
        let calculated = self.calculate_checksum();
        let stored = self.stored_checksum();
        if calculated != stored {
            let mut msg: String = Self::format_name().to_owned();
            msg.append(
                msg_two_hex(
                    " header checksum mismatch: expected ",
                    stored as u64,
                    ", got ",
                    calculated as u64,
                ).as_str(),
            );
            Err(Error::Corruption(msg))
        } else {
            Ok(())
        }
    }
}

/// Creation metadata carried by a file's header.
pub trait FileMetadata {
    /// Creation time, in microseconds since the Unix epoch.
    spec fn spec_created_at(&self) -> u64;

    /// The file's unique identifier.
    spec fn spec_file_id(&self) -> u64;

    /// When the file was created (microseconds since the Unix epoch).
    fn created_at(&self) -> (r: u64)
        ensures
            r == self.spec_created_at(),
    ;

    /// Unique identifier for this file.
    fn file_id(&self) -> (r: u64)
        ensures
            r == self.spec_file_id(),
    ;

    /// The creation time rendered as `seconds.micros6Z`.
    fn created_at_string(&self) -> (r: String)
        ensures
            r@ == spec_decimal_chars((self.spec_created_at() as int) / 1000000) + seq!['.']
                + spec_padded6_chars((self.spec_created_at() as int) % 1000000) + seq!['Z'],
    {
        proof {
            reveal_strlit(".");
            reveal_strlit("Z");
        }
        let micros_total = self.created_at();
        let secs = micros_total / 1000000;
        let micros = micros_total % 1000000;
        let mut s = decimal_string(secs);
        s.append(".");
        s.append(padded6_string(micros).as_str());
        s.append("Z");
        assert(s@ =~= spec_decimal_chars((self.spec_created_at() as int) / 1000000) + seq!['.']
            + spec_padded6_chars((self.spec_created_at() as int) % 1000000) + seq!['Z']);
        s
    }
}

/// Files that can be compacted or merged.
pub trait Compactable: FileFormat {
    /// Whether the file should be compacted.
    fn needs_compaction(&self) -> bool;

    /// The size threshold that triggers compaction.
    fn compaction_threshold() -> u64;
}

/// Files made of a sequence of entries.
pub trait EntryBasedFile: FileFormat {
    /// The entry type the file stores.
    type Entry;

    /// The number of entries in the file.
    fn entry_count(&self) -> u64;

    /// An estimate of the average entry size, if one is known.
    fn avg_entry_size(&self) -> Option<u64>;
}

/// Files that cover a known key range.
pub trait KeyRangeFile: FileFormat {
    /// The smallest key in the file, if known.
    fn min_key(&self) -> Option<&[u8]>;

    /// The largest key in the file, if known.
    fn max_key(&self) -> Option<&[u8]>;

    /// Whether the file might contain the key; conservative when the
    /// range is unknown.
    fn might_contain_key(&self, key: &[u8]) -> bool {
        match (self.min_key(), self.max_key()) {
            (Some(min), Some(max)) => {
                let above = match crate::util::bytes_cmp(key, min) {
                    core::cmp::Ordering::Less => false,
                    _ => true,
                };
                let below = match crate::util::bytes_cmp(key, max) {
                    core::cmp::Ordering::Greater => false,
                    _ => true,
                };
                above && below
            },
            _ => true,
        }
    }
}

} // verus!
