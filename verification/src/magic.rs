//! Magic numbers and file signatures.
//!
//! Every on-disk format of the engine opens with an 8-byte magic
//! number so files can be identified reliably. The constants spell a
//! component name in ASCII and are stored little-endian, like every
//! other multi-byte integer in the engine's formats.

use vstd::prelude::*;

use crate::error::Error;
use crate::util::{decimal_string, lossy_string, utf8_lossy_of};

verus! {

use vstd::bytes::{spec_u64_from_le_bytes, u64_from_le_bytes};
use vstd::string::StringExecFns;

/// Sorted-table file magic: "FDBSST__".
pub const SSTABLE_MAGIC: u64 = 0x4644425353545F5F;

/// Write-ahead log segment magic: "FDBWAL__".
pub const WAL_MAGIC: u64 = 0x46444257414C5F5F;

/// Manifest file magic: "FDBMANIF".
pub const MANIFEST_MAGIC: u64 = 0x4644424D414E4946;

/// Checkpoint file magic: "FDBCKPT_".
pub const CHECKPOINT_MAGIC: u64 = 0x464442434B50545F;

/// Binary configuration file magic: "FDBCONF_".
pub const CONFIG_MAGIC: u64 = 0x464442434F4E465F;

/// Backup file magic: "FDBBKUP_".
pub const BACKUP_MAGIC: u64 = 0x464442424B55505F;

/// Journal file magic: "FDBJRNL_".
pub const JOURNAL_MAGIC: u64 = 0x4644424A524E4C5F;

/// The bytes of a magic number, most significant first — the order
/// in which the constants spell their names.
pub open spec fn spec_magic_name_bytes(magic: u64) -> Seq<u8> {
    seq![
        (magic >> 56) as u8,
        (magic >> 48) as u8,
        (magic >> 40) as u8,
        (magic >> 32) as u8,
        (magic >> 24) as u8,
        (magic >> 16) as u8,
        (magic >> 8) as u8,
        magic as u8,
    ]
}

/// Renders a magic number as text for diagnostics, most significant
/// byte first, so each constant shows the name it spells.
pub fn magic_to_ascii(magic: u64) -> (r: String)
    ensures
        r@ == utf8_lossy_of(spec_magic_name_bytes(magic)),
{
    let bytes: [u8; 8] = [
        (magic >> 56) as u8,
        (magic >> 48) as u8,
        (magic >> 40) as u8,
        (magic >> 32) as u8,
        (magic >> 24) as u8,
        (magic >> 16) as u8,
        (magic >> 8) as u8,
        magic as u8,
    ];
    proof {
        assert(bytes@ =~= spec_magic_name_bytes(magic));
    }
    lossy_string(bytes.as_slice())
}

/// Checks that a file's first eight bytes hold the expected magic
/// number, read little-endian.
pub fn validate_magic(data: &[u8], expected: u64) -> (r: Result<(), Error>)
    ensures
        r is Ok <==> data@.len() >= 8 && spec_u64_from_le_bytes(data@.subrange(0, 8)) == expected,
        r is Err ==> r matches Err(Error::InvalidFormat(_)),
{
    if data.len() < 8 {
        return Err(Error::InvalidFormat("File too small to contain magic number".to_owned()));
    }

    let magic = u64_from_le_bytes(&data[0..8]);
    if magic != expected {
        let mut msg: String = "Invalid magic number: expected ".to_owned();
        msg.append(decimal_string(expected).as_str());
        msg.append(" (");
        msg.append(magic_to_ascii(expected).as_str());
        msg.append("), got ");
        msg.append(decimal_string(magic).as_str());
        msg.append(" (");
        msg.append(magic_to_ascii(magic).as_str());
        msg.append(")");
        return Err(Error::InvalidFormat(msg));
    }

    Ok(())
}

} // verus!
