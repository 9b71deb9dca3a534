//! The partition table in the first sector of a card.

use crate::bytes::{le16, le32, read_le16, read_le32};
use crate::error::Error;
use crate::sector::Sector;
use crate::volume::BOOT_SIGNATURE;
use vstd::prelude::*;

verus! {

/// The byte at which the first entry of the table starts.
pub const TABLE_OFFSET: usize = 446;

/// Bytes in an entry of the table.
pub const SLOT_SIZE: usize = 16;

/// A partition as the table describes it.
#[derive(Clone, Copy, Debug, PartialEq, Eq, Structural)]
pub struct Partition {
    /// The type that the table gives the partition.
    pub kind: u8,
    /// The address of the first sector of the partition.
    pub start_lba: u32,
    /// The number of sectors in the partition.
    pub sectors: u32,
}

/// Whether a partition of the type `kind` holds a FAT volume: FAT12, FAT16
/// in its three forms, or FAT32 in its two.
pub open spec fn spec_is_fat_kind(kind: u8) -> bool {
    kind == 0x01 || kind == 0x04 || kind == 0x06 || kind == 0x0E || kind == 0x0B || kind == 0x0C
}

#[verifier::when_used_as_spec(spec_is_fat_kind)]
pub fn is_fat_kind(kind: u8) -> (b: bool)
    ensures
        b == spec_is_fat_kind(kind),
{
    kind == 0x01 || kind == 0x04 || kind == 0x06 || kind == 0x0E || kind == 0x0B || kind == 0x0C
}

/// The entry with the number `slot` in the table of the sector `s`.
pub open spec fn slot_partition(s: Seq<u8>, slot: int) -> Partition {
    let base = 446 + 16 * slot;
    Partition {
        kind: s[base + 4],
        start_lba: le32(s, base + 8) as u32,
        sectors: le32(s, base + 12) as u32,
    }
}

/// Whether the entry with the number `slot` describes a FAT partition: its
/// status byte is that of a bootable or of an ordinary partition, and its
/// type is one of FAT.
pub open spec fn slot_usable(s: Seq<u8>, slot: int) -> bool {
    let status = s[446 + 16 * slot];
    (status == 0x00 || status == 0x80) && spec_is_fat_kind(slot_partition(s, slot).kind)
}

/// The first usable entry among those from `from` on.
pub open spec fn first_usable(s: Seq<u8>, from: int) -> Option<int>
    decreases 4 - from,
{
    if from >= 4 {
        None
    } else if slot_usable(s, from) {
        Some(from)
    } else {
        first_usable(s, from + 1)
    }
}

/// What `first_fat_partition` returns for the sector `s`.
pub open spec fn first_fat_partition_spec(s: Seq<u8>) -> Result<Partition, Error> {
    if le16(s, 510) != BOOT_SIGNATURE {
        Err(Error::InvalidBootSector)
    } else {
        match first_usable(s, 0) {
            Some(slot) => Ok(slot_partition(s, slot)),
            None => Err(Error::UnsupportedVolume),
        }
    }
}

/// Finds the first FAT partition in the partition table of the first sector
/// of a card. A sector without the boot signature gives `InvalidBootSector`;
/// a table without a FAT partition gives `UnsupportedVolume`.
pub fn first_fat_partition(mbr: &Sector) -> (r: Result<Partition, Error>)
    ensures
        r == first_fat_partition_spec(mbr.data@),
{
    if read_le16(&mbr.data, 510) != BOOT_SIGNATURE {
        return Err(Error::InvalidBootSector);
    }
    let mut slot: usize = 0;
    while slot < 4
        invariant
            slot <= 4,
            le16(mbr.data@, 510) == BOOT_SIGNATURE,
            first_usable(mbr.data@, 0) == first_usable(mbr.data@, slot as int),
        decreases 4 - slot,
    {
        let base = TABLE_OFFSET + SLOT_SIZE * slot;
        let status = mbr.data[base];
        let kind = mbr.data[base + 4];
        if (status == 0x00 || status == 0x80) && is_fat_kind(kind) {
            return Ok(
                Partition {
                    kind,
                    start_lba: read_le32(&mbr.data, base + 8),
                    sectors: read_le32(&mbr.data, base + 12),
                },
            );
        }
        slot += 1;
    }
    Err(Error::UnsupportedVolume)
}

} // verus!
