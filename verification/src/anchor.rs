//! The SMBIOS entry point record and its two fixed-offset binary layouts.

use vstd::prelude::*;

use crate::memory::{bytes_at, range_readable, read_failure, PhysicalMemory, ReadError};

verus! {

/// Byte length of the entry point region read for a 2.x anchor.
pub const ANCHOR_REV_2_LENGTH: usize = 32;

/// Byte length of the entry point region read for a 3.x anchor.
pub const ANCHOR_REV_3_LENGTH: usize = 24;

/// Which of the two entry point layouts a region uses.
#[derive(Clone, Copy, Debug, PartialEq, Eq, Structural)]
pub enum AnchorVer {
    Rev2,
    Rev3,
}

/// The normalized SMBIOS entry point record: the version, checksum metadata,
/// and the location and size of the structure table that follows it.
#[derive(Clone, Copy, Debug, PartialEq, Eq, Structural)]
pub struct Anchor {
    /// Declared checksum of the entry point region; not verified here.
    pub checksum: u8,
    /// Declared length in bytes of the entry point structure.
    pub entry_point_length: u8,
    pub major_version: u8,
    pub minor_version: u8,
    /// Document revision; the 2.x layout has no such field, so it is 0 there.
    pub doc_rev: u8,
    /// Which entry point structure variant is in use.
    pub entry_point_revision: u8,
    /// 2.x: a 16-bit declared table size widened to 32 bits; 3.x: native 32-bit.
    pub structure_table_max_size: u32,
    /// 2.x: a 32-bit physical address widened to 64 bits; 3.x: native 64-bit.
    pub structure_table_address: u64,
}

/// The little-endian 16-bit integer held at `b[i]` and `b[i + 1]`.
pub open spec fn le16(b: Seq<u8>, i: int) -> int {
    b[i] + 0x100 * b[i + 1]
}

/// The little-endian 32-bit integer held at `b[i] .. b[i + 4]`.
pub open spec fn le32(b: Seq<u8>, i: int) -> int {
    le16(b, i) + 0x1_0000 * le16(b, i + 2)
}

/// The little-endian 64-bit integer held at `b[i] .. b[i + 8]`.
pub open spec fn le64(b: Seq<u8>, i: int) -> int {
    le32(b, i) + 0x1_0000_0000 * le32(b, i + 4)
}

/// The record the 2.x layout of an entry point region `b` denotes.
pub open spec fn decode_rev_2(b: Seq<u8>) -> Anchor {
    Anchor {
        checksum: b[4],
        entry_point_length: b[5],
        major_version: b[6],
        minor_version: b[7],
        doc_rev: 0,
        entry_point_revision: b[10],
        structure_table_max_size: le16(b, 22) as u32,
        structure_table_address: le32(b, 24) as u64,
    }
}

/// The record the 3.x layout of an entry point region `b` denotes.
pub open spec fn decode_rev_3(b: Seq<u8>) -> Anchor {
    Anchor {
        checksum: b[5],
        entry_point_length: b[6],
        major_version: b[7],
        minor_version: b[8],
        doc_rev: b[9],
        entry_point_revision: b[10],
        structure_table_max_size: le32(b, 12) as u32,
        structure_table_address: le64(b, 16) as u64,
    }
}

/// The fixed byte length of the entry point region for layout `rev`.
pub open spec fn rev_length(rev: AnchorVer) -> int {
    match rev {
        AnchorVer::Rev2 => ANCHOR_REV_2_LENGTH as int,
        AnchorVer::Rev3 => ANCHOR_REV_3_LENGTH as int,
    }
}

/// The record an entry point region `b` of layout `rev` denotes.
pub open spec fn decode_anchor(rev: AnchorVer, b: Seq<u8>) -> Anchor {
    match rev {
        AnchorVer::Rev2 => decode_rev_2(b),
        AnchorVer::Rev3 => decode_rev_3(b),
    }
}

impl Anchor {
    /// Decodes a 2.x entry point region: pure byte slicing and little-endian
    /// integer assembly at the 2.x fixed offsets.
    pub fn create_anchor_rev_2(anchor_raw_data: Vec<u8>) -> (a: Anchor)
        requires
            anchor_raw_data@.len() == ANCHOR_REV_2_LENGTH,
        ensures
            a == decode_rev_2(anchor_raw_data@),
    {
        let max_size: u32 = (anchor_raw_data[22] as u32) + 0x100 * (anchor_raw_data[23] as u32);
        let address: u64 = (anchor_raw_data[24] as u64) + 0x100 * (anchor_raw_data[25] as u64)
            + 0x1_0000 * (anchor_raw_data[26] as u64) + 0x100_0000 * (anchor_raw_data[27] as u64);
        Anchor {
            checksum: anchor_raw_data[4],
            entry_point_length: anchor_raw_data[5],
            major_version: anchor_raw_data[6],
            minor_version: anchor_raw_data[7],
            doc_rev: 0,
            entry_point_revision: anchor_raw_data[10],
            structure_table_max_size: max_size,
            structure_table_address: address,
        }
    }

    /// Decodes a 3.x entry point region: pure byte slicing and little-endian
    /// integer assembly at the 3.x fixed offsets.
    pub fn create_anchor_rev_3(anchor_raw_data: Vec<u8>) -> (a: Anchor)
        requires
            anchor_raw_data@.len() == ANCHOR_REV_3_LENGTH,
        ensures
            a == decode_rev_3(anchor_raw_data@),
    {
        let max_size: u32 = (anchor_raw_data[12] as u32) + 0x100 * (anchor_raw_data[13] as u32)
            + 0x1_0000 * (anchor_raw_data[14] as u32) + 0x100_0000 * (anchor_raw_data[15] as u32);
        let address: u64 = (anchor_raw_data[16] as u64) + 0x100 * (anchor_raw_data[17] as u64)
            + 0x1_0000 * (anchor_raw_data[18] as u64) + 0x100_0000 * (anchor_raw_data[19] as u64)
            + 0x1_0000_0000 * (anchor_raw_data[20] as u64)
            + 0x100_0000_0000 * (anchor_raw_data[21] as u64)
            + 0x1_0000_0000_0000 * (anchor_raw_data[22] as u64)
            + 0x100_0000_0000_0000 * (anchor_raw_data[23] as u64);
        Anchor {
            checksum: anchor_raw_data[5],
            entry_point_length: anchor_raw_data[6],
            major_version: anchor_raw_data[7],
            minor_version: anchor_raw_data[8],
            doc_rev: anchor_raw_data[9],
            entry_point_revision: anchor_raw_data[10],
            structure_table_max_size: max_size,
            structure_table_address: address,
        }
    }

    /// Reads the fixed-length entry point region of layout `rev` at absolute
    /// address `address` and decodes it.  Succeeds exactly when the whole
    /// region lies inside the window; a failed read is reported, never a
    /// partially decoded record.
    pub fn new(mem: &PhysicalMemory, address: u64, rev: AnchorVer) -> (r: Result<
        Anchor,
        ReadError,
    >)
        ensures
            r is Ok <==> range_readable(mem.base_spec(), mem@, address as int, rev_length(rev)),
            r matches Ok(a) ==> a == decode_anchor(
                rev,
                bytes_at(mem.base_spec(), mem@, address as int, rev_length(rev)),
            ),
            r matches Err(e) ==> e == read_failure(mem.base_spec(), mem@, address as int),
    {
        match rev {
            AnchorVer::Rev2 => match mem.read_physical(address, ANCHOR_REV_2_LENGTH) {
                Ok(raw) => Ok(Anchor::create_anchor_rev_2(raw)),
                Err(e) => Err(e),
            },
            AnchorVer::Rev3 => match mem.read_physical(address, ANCHOR_REV_3_LENGTH) {
                Ok(raw) => Ok(Anchor::create_anchor_rev_3(raw)),
                Err(e) => Err(e),
            },
        }
    }
}

} // verus!
