//! The boot sector of a FAT volume: its fields, their validation, and the
//! geometry that follows from them.

use crate::bytes::{le16, le32, read_le16, read_le32};
use crate::error::Error;
use crate::sector::Sector;
use vstd::prelude::*;

verus! {

/// The width of the entries of the file allocation table.
#[derive(Clone, Copy, Debug, PartialEq, Eq, Structural)]
pub enum FatVariant {
    Fat12,
    Fat16,
    Fat32,
}

/// A volume with fewer clusters than this is FAT12.
pub const FAT12_CLUSTER_LIMIT: u32 = 4085;

/// A volume with fewer clusters than this, and not FAT12, is FAT16.
pub const FAT16_CLUSTER_LIMIT: u32 = 65525;

/// The value of the two bytes that end a boot sector, read little-endian.
pub const BOOT_SIGNATURE: u16 = 0xAA55;

/// The variant of a volume with `cluster_count` data clusters. Nothing else
/// decides the variant.
pub open spec fn spec_classify(cluster_count: u32) -> FatVariant {
    if cluster_count < FAT12_CLUSTER_LIMIT {
        FatVariant::Fat12
    } else if cluster_count < FAT16_CLUSTER_LIMIT {
        FatVariant::Fat16
    } else {
        FatVariant::Fat32
    }
}

#[verifier::when_used_as_spec(spec_classify)]
pub fn classify(cluster_count: u32) -> (v: FatVariant)
    ensures
        v == spec_classify(cluster_count),
{
    if cluster_count < FAT12_CLUSTER_LIMIT {
        FatVariant::Fat12
    } else if cluster_count < FAT16_CLUSTER_LIMIT {
        FatVariant::Fat16
    } else {
        FatVariant::Fat32
    }
}

/// Where a directory lies. Sector numbers count from the start of the volume.
#[derive(Clone, Copy, Debug, PartialEq, Eq, Structural)]
pub enum DirectoryStart {
    /// A fixed run of sectors: the root directory of FAT12 and FAT16.
    Region { first_sector: u32, sectors: u32 },
    /// A chain of clusters, followed through the file allocation table.
    Chain { first_cluster: u32 },
}

pub open spec fn spec_power_of_two(n: u8) -> bool {
    n == 1 || n == 2 || n == 4 || n == 8 || n == 16 || n == 32 || n == 64 || n == 128
}

#[verifier::when_used_as_spec(spec_power_of_two)]
pub fn power_of_two(n: u8) -> (b: bool)
    ensures
        b == spec_power_of_two(n),
{
    n == 1 || n == 2 || n == 4 || n == 8 || n == 16 || n == 32 || n == 64 || n == 128
}

/// The name that an exFAT boot sector carries where FAT has its OEM name.
pub open spec fn exfat_name() -> Seq<u8> {
    seq![0x45u8, 0x58u8, 0x46u8, 0x41u8, 0x54u8, 0x20u8, 0x20u8, 0x20u8]
}

/// The fields of a boot sector that this crate reads, as they stand on disk.
#[derive(Clone, Copy, Debug, PartialEq, Eq, Structural)]
pub struct Bpb {
    /// Bytes 510 and 511, little-endian.
    pub signature: u16,
    /// Whether bytes 3 to 10 spell the exFAT name.
    pub exfat: bool,
    pub bytes_per_sector: u16,
    pub sectors_per_cluster: u8,
    pub reserved_sectors: u16,
    pub fat_count: u8,
    pub root_entry_count: u16,
    /// The 16-bit count, or the 32-bit one where the 16-bit one is zero.
    pub total_sectors: u32,
    /// The 16-bit size, or the 32-bit one where the 16-bit one is zero.
    pub sectors_per_fat: u32,
    /// The first cluster of the root directory; meaningful on FAT32 only.
    pub root_cluster: u32,
}

/// A mounted FAT volume. Sector numbers count from the start of the volume;
/// `start_lba` is the address of its boot sector on the card.
#[derive(Clone, Copy, Debug, PartialEq, Eq, Structural)]
pub struct Volume {
    pub variant: FatVariant,
    pub start_lba: u32,
    pub bytes_per_sector: u16,
    pub sectors_per_cluster: u8,
    pub reserved_sectors: u16,
    pub fat_count: u8,
    pub sectors_per_fat: u32,
    pub total_sectors: u32,
    /// The first sector of the first file allocation table.
    pub fat_start: u32,
    /// The first sector of cluster 2.
    pub data_start: u32,
    /// The number of data clusters; the clusters are 2 to `cluster_count + 1`.
    pub cluster_count: u32,
    pub root: DirectoryStart,
}

/// The fields of the boot sector held in the 512 bytes `s`.
pub open spec fn bpb_of(s: Seq<u8>) -> Bpb {
    Bpb {
        signature: le16(s, 510) as u16,
        exfat: s.subrange(3, 11) == exfat_name(),
        bytes_per_sector: le16(s, 11) as u16,
        sectors_per_cluster: s[13],
        reserved_sectors: le16(s, 14) as u16,
        fat_count: s[16],
        root_entry_count: le16(s, 17) as u16,
        total_sectors: if le16(s, 19) != 0 {
            le16(s, 19) as u32
        } else {
            le32(s, 32) as u32
        },
        sectors_per_fat: if le16(s, 22) != 0 {
            le16(s, 22) as u32
        } else {
            le32(s, 36) as u32
        },
        root_cluster: le32(s, 44) as u32,
    }
}

impl Bpb {
    /// Sectors of the fixed root directory: its entries, 32 bytes each,
    /// rounded up to whole sectors.
    pub open spec fn root_sectors(self) -> int {
        (self.root_entry_count * 32 + 511) / 512
    }

    /// The sector after the last file allocation table.
    pub open spec fn first_root_sector(self) -> int {
        self.reserved_sectors + self.fat_count * self.sectors_per_fat
    }

    /// The first sector of the data area.
    pub open spec fn first_data_sector(self) -> int {
        self.first_root_sector() + self.root_sectors()
    }

    /// The number of whole clusters in the data area.
    pub open spec fn cluster_count(self) -> int {
        (self.total_sectors - self.first_data_sector()) / (self.sectors_per_cluster as int)
    }

    /// What a boot sector must satisfy beyond its signature and sector size.
    pub open spec fn fields_valid(self) -> bool {
        &&& spec_power_of_two(self.sectors_per_cluster)
        &&& self.reserved_sectors >= 1
        &&& self.fat_count >= 1
        &&& self.sectors_per_fat >= 1
        &&& self.first_data_sector() <= self.total_sectors
    }

    /// The volume that these fields describe when the boot sector lies at
    /// `lba`, or the reason why there is none.
    pub open spec fn volume(self, lba: u32) -> Result<Volume, Error> {
        if self.signature != BOOT_SIGNATURE {
            Err(Error::InvalidBootSector)
        } else if self.exfat || self.bytes_per_sector != 512 {
            Err(Error::UnsupportedVolume)
        } else if !self.fields_valid() || lba + self.total_sectors > 0x1_0000_0000 {
            Err(Error::InvalidBootSector)
        } else {
            let count = self.cluster_count() as u32;
            let variant = spec_classify(count);
            if variant == FatVariant::Fat32 && !(2 <= self.root_cluster < count + 2) {
                Err(Error::InvalidBootSector)
            } else {
                Ok(
                    Volume {
                        variant,
                        start_lba: lba,
                        bytes_per_sector: self.bytes_per_sector,
                        sectors_per_cluster: self.sectors_per_cluster,
                        reserved_sectors: self.reserved_sectors,
                        fat_count: self.fat_count,
                        sectors_per_fat: self.sectors_per_fat,
                        total_sectors: self.total_sectors,
                        fat_start: self.reserved_sectors as u32,
                        data_start: self.first_data_sector() as u32,
                        cluster_count: count,
                        root: if variant == FatVariant::Fat32 {
                            DirectoryStart::Chain { first_cluster: self.root_cluster }
                        } else {
                            DirectoryStart::Region {
                                first_sector: self.first_root_sector() as u32,
                                sectors: self.root_sectors() as u32,
                            }
                        },
                    },
                )
            }
        }
    }

    /// Reads the fields out of a boot sector. Nothing is validated here.
    pub fn read(data: &[u8; 512]) -> (b: Bpb)
        ensures
            b == bpb_of(data@),
    {
        let total16 = read_le16(data, 19);
        let fat16 = read_le16(data, 22);
        let exfat = data[3] == 0x45 && data[4] == 0x58 && data[5] == 0x46 && data[6] == 0x41
            && data[7] == 0x54 && data[8] == 0x20 && data[9] == 0x20 && data[10] == 0x20;
        proof {
            let name = data@.subrange(3, 11);
            if exfat {
                assert(name =~= exfat_name());
            } else {
                assert(name[0] == data@[3] && name[1] == data@[4] && name[2] == data@[5]
                    && name[3] == data@[6] && name[4] == data@[7] && name[5] == data@[8]
                    && name[6] == data@[9] && name[7] == data@[10]);
            }
        }
        Bpb {
            signature: read_le16(data, 510),
            exfat,
            bytes_per_sector: read_le16(data, 11),
            sectors_per_cluster: data[13],
            reserved_sectors: read_le16(data, 14),
            fat_count: data[16],
            root_entry_count: read_le16(data, 17),
            total_sectors: if total16 != 0 {
                total16 as u32
            } else {
                read_le32(data, 32)
            },
            sectors_per_fat: if fat16 != 0 {
                fat16 as u32
            } else {
                read_le32(data, 36)
            },
            root_cluster: read_le32(data, 44),
        }
    }

    /// Validates the fields and computes the geometry of the volume whose
    /// boot sector lies at `lba`.
    pub fn to_volume(&self, lba: u32) -> (r: Result<Volume, Error>)
        ensures
            r == self.volume(lba),
            r matches Ok(v) ==> v.wf(),
    {
        if self.signature != BOOT_SIGNATURE {
            return Err(Error::InvalidBootSector);
        }
        if self.exfat || self.bytes_per_sector != 512 {
            return Err(Error::UnsupportedVolume);
        }
        if !power_of_two(self.sectors_per_cluster) || self.reserved_sectors < 1 || self.fat_count
            < 1 || self.sectors_per_fat < 1 {
            return Err(Error::InvalidBootSector);
        }
        assert(self.fat_count * self.sectors_per_fat <= 255 * 0xFFFF_FFFF) by (nonlinear_arith)
            requires
                self.fat_count <= 255,
                self.sectors_per_fat <= 0xFFFF_FFFF,
        ;
        let root_sectors: u64 = (self.root_entry_count as u64 * 32 + 511) / 512;
        let first_root: u64 = self.reserved_sectors as u64 + self.fat_count as u64
            * self.sectors_per_fat as u64;
        let first_data: u64 = first_root + root_sectors;
        let total: u64 = self.total_sectors as u64;
        if first_data > total || lba as u64 + total > 0x1_0000_0000 {
            return Err(Error::InvalidBootSector);
        }
        let count: u32 = ((total - first_data) / (self.sectors_per_cluster as u64)) as u32;
        let variant = classify(count);
        let root = match variant {
            FatVariant::Fat32 => {
                if self.root_cluster < 2 || self.root_cluster as u64 >= count as u64 + 2 {
                    return Err(Error::InvalidBootSector);
                }
                DirectoryStart::Chain { first_cluster: self.root_cluster }
            },
            _ => DirectoryStart::Region {
                first_sector: first_root as u32,
                sectors: root_sectors as u32,
            },
        };
        Ok(
            Volume {
                variant,
                start_lba: lba,
                bytes_per_sector: self.bytes_per_sector,
                sectors_per_cluster: self.sectors_per_cluster,
                reserved_sectors: self.reserved_sectors,
                fat_count: self.fat_count,
                sectors_per_fat: self.sectors_per_fat,
                total_sectors: self.total_sectors,
                fat_start: self.reserved_sectors as u32,
                data_start: first_data as u32,
                cluster_count: count,
                root,
            },
        )
    }
}

impl Volume {
    /// The sector after the last file allocation table.
    pub open spec fn fat_end(self) -> int {
        self.fat_start + self.fat_count * self.sectors_per_fat
    }

    /// What holds of every volume that `parse` returns.
    pub open spec fn wf(self) -> bool {
        &&& self.bytes_per_sector == 512
        &&& spec_power_of_two(self.sectors_per_cluster)
        &&& self.fat_count >= 1
        &&& self.sectors_per_fat >= 1
        &&& 1 <= self.fat_start == self.reserved_sectors
        &&& self.fat_end() <= self.data_start <= self.total_sectors
        &&& self.cluster_count == (self.total_sectors - self.data_start) / (
        self.sectors_per_cluster as int)
        &&& self.variant == spec_classify(self.cluster_count)
        &&& self.start_lba + self.total_sectors <= 0x1_0000_0000
        &&& match self.root {
            DirectoryStart::Region { first_sector, sectors } => {
                &&& self.variant != FatVariant::Fat32
                &&& first_sector == self.fat_end()
                &&& first_sector + sectors == self.data_start
            },
            DirectoryStart::Chain { first_cluster } => {
                &&& self.variant == FatVariant::Fat32
                &&& 2 <= first_cluster < self.cluster_count + 2
            },
        }
    }

    /// Tests what `wf` states, for a volume that did not come from `parse`.
    pub fn is_well_formed(&self) -> (b: bool)
        ensures
            b == self.wf(),
    {
        if self.bytes_per_sector != 512 || !power_of_two(self.sectors_per_cluster) || self.fat_count
            < 1 || self.sectors_per_fat < 1 || self.fat_start < 1 || self.fat_start
            != self.reserved_sectors as u32 {
            return false;
        }
        assert(self.fat_count * self.sectors_per_fat <= 255 * 0xFFFF_FFFF) by (nonlinear_arith)
            requires
                self.fat_count <= 255,
                self.sectors_per_fat <= 0xFFFF_FFFF,
        ;
        let fat_end: u64 = self.fat_start as u64 + self.fat_count as u64
            * self.sectors_per_fat as u64;
        if fat_end > self.data_start as u64 || self.data_start > self.total_sectors {
            return false;
        }
        let count = (self.total_sectors - self.data_start) / (self.sectors_per_cluster as u32);
        if self.cluster_count != count || self.start_lba as u64 + self.total_sectors as u64
            > 0x1_0000_0000 {
            return false;
        }
        match self.root {
            DirectoryStart::Region { first_sector, sectors } => {
                match self.variant {
                    FatVariant::Fat12 => self.cluster_count < FAT12_CLUSTER_LIMIT
                        && first_sector as u64 == fat_end && first_sector as u64 + sectors as u64
                        == self.data_start as u64,
                    FatVariant::Fat16 => FAT12_CLUSTER_LIMIT <= self.cluster_count
                        && self.cluster_count < FAT16_CLUSTER_LIMIT && first_sector as u64
                        == fat_end && first_sector as u64 + sectors as u64
                        == self.data_start as u64,
                    FatVariant::Fat32 => false,
                }
            },
            DirectoryStart::Chain { first_cluster } => {
                match self.variant {
                    FatVariant::Fat32 => FAT16_CLUSTER_LIMIT <= self.cluster_count && 2
                        <= first_cluster && first_cluster as u64 <= self.cluster_count as u64 + 1,
                    _ => false,
                }
            },
        }
    }

    /// The address on the card of the sector `sector` of the volume.
    pub open spec fn sector_lba(self, sector: int) -> int {
        self.start_lba + sector
    }

    /// The first sector, within the volume, of the data cluster `cluster`.
    pub open spec fn cluster_sector(self, cluster: u32) -> int {
        self.data_start + (cluster - 2) * self.sectors_per_cluster
    }

    /// A sector of a data cluster lies within the volume, and so has an
    /// address on the card.
    pub proof fn lemma_cluster_within_volume(self, cluster: u32, sector: int)
        requires
            self.wf(),
            2 <= cluster < self.cluster_count + 2,
            0 <= sector < self.sectors_per_cluster,
        ensures
            self.data_start <= self.cluster_sector(cluster) + sector < self.total_sectors,
            0 <= (cluster - 2) * self.sectors_per_cluster < 0x1_0000_0000,
    {
        let spc = self.sectors_per_cluster as int;
        let room = self.total_sectors - self.data_start;
        let count = self.cluster_count as int;
        let c = cluster - 2;
        assert(count * spc <= room) by (nonlinear_arith)
            requires
                count == room / spc,
                spc > 0,
                room >= 0,
        ;
        assert(c * spc + spc <= count * spc && 0 <= c * spc) by (nonlinear_arith)
            requires
                0 <= c < count,
                spc > 0,
        ;
    }

    /// Every sector of the first file allocation table lies within the
    /// volume, before the data area.
    pub proof fn lemma_table_within_volume(self)
        requires
            self.wf(),
        ensures
            self.fat_start + self.sectors_per_fat <= self.data_start,
    {
        assert(self.sectors_per_fat <= self.fat_count * self.sectors_per_fat) by (nonlinear_arith)
            requires
                self.fat_count >= 1,
                self.sectors_per_fat >= 0,
        ;
    }
}

/// What `parse` returns for the boot sector bytes `s` read from address `lba`.
pub open spec fn parse_spec(s: Seq<u8>, lba: u32) -> Result<Volume, Error> {
    bpb_of(s).volume(lba)
}

/// Reads a volume out of its boot sector.
///
/// The sector must end in the boot signature, or `InvalidBootSector` is
/// returned. An exFAT sector, or one whose sector size is not 512, gives
/// `UnsupportedVolume`. Fields that describe no volume (a cluster size that
/// is not a power of two, no reserved sector, no table, tables and root
/// directory larger than the volume, a volume that ends beyond the last
/// block address, a FAT32 root cluster outside the volume) give
/// `InvalidBootSector`. The variant follows from the number of clusters
/// alone.
pub fn parse(sector0: &Sector) -> (r: Result<Volume, Error>)
    ensures
        r == parse_spec(sector0.data@, sector0.lba),
        r matches Ok(v) ==> v.wf() && v.variant == spec_classify(v.cluster_count) && v.start_lba
            == sector0.lba,
{
    let bpb = Bpb::read(&sector0.data);
    bpb.to_volume(sector0.lba)
}

/// Two boot sectors that both describe a volume, with the same number of
/// clusters, describe volumes of the same variant, whatever else they hold.
pub proof fn lemma_variant_follows_cluster_count(s1: Seq<u8>, lba1: u32, s2: Seq<u8>, lba2: u32)
    requires
        parse_spec(s1, lba1) is Ok,
        parse_spec(s2, lba2) is Ok,
        bpb_of(s1).cluster_count() == bpb_of(s2).cluster_count(),
    ensures
        parse_spec(s1, lba1)->Ok_0.variant == parse_spec(s2, lba2)->Ok_0.variant,
{
}

/// The file system type that a boot sector names for itself, in bytes 54 to
/// 61 or, on FAT32, 82 to 89, is never read: two sectors that differ only
/// there parse alike.
pub proof fn lemma_type_label_is_ignored(s1: Seq<u8>, s2: Seq<u8>, lba: u32)
    requires
        s1.len() == 512,
        s2.len() == 512,
        forall|i: int| 0 <= i < 512 && !(54 <= i < 62) && !(82 <= i < 90) ==> s1[i] == s2[i],
    ensures
        parse_spec(s1, lba) == parse_spec(s2, lba),
{
    assert(s1.subrange(3, 11) =~= s2.subrange(3, 11));
}

} // verus!
