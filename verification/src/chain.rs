//! Following a chain of clusters through the file allocation table.

use crate::bytes::{le16, le32, read_le16, read_le32};
use crate::error::Error;
use crate::volume::{FatVariant, Volume};
use vstd::prelude::*;

verus! {

/// What the table says comes after a cluster.
#[derive(Clone, Copy, Debug, PartialEq, Eq, Structural)]
pub enum Link {
    /// The chain goes on with this cluster.
    Cluster(u32),
    /// The cluster was the last of its chain.
    EndOfChain,
}

/// The byte at which the entry of cluster `n` starts, counted from the start
/// of the table. FAT12 packs two entries into three bytes.
pub open spec fn spec_entry_offset(variant: FatVariant, n: u32) -> int {
    match variant {
        FatVariant::Fat12 => n + n / 2,
        FatVariant::Fat16 => 2 * n,
        FatVariant::Fat32 => 4 * n,
    }
}

pub fn entry_offset(variant: FatVariant, n: u32) -> (off: u64)
    ensures
        off == spec_entry_offset(variant, n),
{
    match variant {
        FatVariant::Fat12 => n as u64 + (n / 2) as u64,
        FatVariant::Fat16 => 2 * (n as u64),
        FatVariant::Fat32 => 4 * (n as u64),
    }
}

/// The number of bytes that an entry touches.
pub open spec fn spec_entry_width(variant: FatVariant) -> int {
    match variant {
        FatVariant::Fat12 => 2,
        FatVariant::Fat16 => 2,
        FatVariant::Fat32 => 4,
    }
}

pub fn entry_width(variant: FatVariant) -> (w: u64)
    ensures
        w == spec_entry_width(variant),
{
    match variant {
        FatVariant::Fat12 => 2,
        FatVariant::Fat16 => 2,
        FatVariant::Fat32 => 4,
    }
}

/// The 12-bit entry held in the two bytes `lo` and `hi`. An entry with an
/// even index has its low eight bits in `lo` and its high four in the low
/// half of `hi`; one with an odd index has its low four bits in the high half
/// of `lo` and its high eight in `hi`.
pub open spec fn spec_fat12_entry(lo: u8, hi: u8, odd: bool) -> int {
    if odd {
        lo / 16 + hi * 16
    } else {
        lo + (hi % 16) * 256
    }
}

pub fn fat12_entry(lo: u8, hi: u8, odd: bool) -> (v: u32)
    ensures
        v == spec_fat12_entry(lo, hi, odd),
        v < 4096,
{
    if odd {
        (lo / 16) as u32 + (hi as u32) * 16
    } else {
        lo as u32 + ((hi % 16) as u32) * 256
    }
}

/// The three bytes that hold the entry `even` followed by the entry `odd`.
pub open spec fn fat12_pack(even: int, odd: int) -> (u8, u8, u8) {
    ((even % 256) as u8, (even / 256 + (odd % 16) * 16) as u8, (odd / 16) as u8)
}

/// The value of the entry of cluster `n` in the table `fat`. The top four
/// bits of a FAT32 entry are reserved and dropped.
pub open spec fn entry_value(variant: FatVariant, fat: Seq<u8>, n: u32) -> int {
    let off = spec_entry_offset(variant, n);
    match variant {
        FatVariant::Fat12 => spec_fat12_entry(fat[off], fat[off + 1], n % 2 == 1),
        FatVariant::Fat16 => le16(fat, off),
        FatVariant::Fat32 => le32(fat, off) % 0x1000_0000,
    }
}

/// Entries from this value on mark the end of a chain.
pub open spec fn spec_end_threshold(variant: FatVariant) -> u32 {
    match variant {
        FatVariant::Fat12 => 0xFF8,
        FatVariant::Fat16 => 0xFFF8,
        FatVariant::Fat32 => 0x0FFF_FFF8,
    }
}

#[verifier::when_used_as_spec(spec_end_threshold)]
pub fn end_threshold(variant: FatVariant) -> (t: u32)
    ensures
        t == spec_end_threshold(variant),
{
    match variant {
        FatVariant::Fat12 => 0xFF8,
        FatVariant::Fat16 => 0xFFF8,
        FatVariant::Fat32 => 0x0FFF_FFF8,
    }
}

impl Volume {
    /// Whether `n` is the number of a data cluster of this volume.
    pub open spec fn spec_holds_cluster(&self, n: u32) -> bool {
        2 <= n < self.cluster_count + 2
    }

    #[verifier::when_used_as_spec(spec_holds_cluster)]
    pub fn holds_cluster(&self, n: u32) -> (b: bool)
        ensures
            b == self.spec_holds_cluster(n),
    {
        n >= 2 && (n - 2) < self.cluster_count
    }

    /// What an entry of value `value` means: the end of the chain from the
    /// end threshold on, else the next cluster if the volume has it, else a
    /// broken chain (a free or reserved value, a bad cluster, or a number
    /// beyond the volume).
    pub open spec fn spec_interpret(&self, value: u32) -> Result<Link, Error> {
        if value >= spec_end_threshold(self.variant) {
            Ok(Link::EndOfChain)
        } else if self.spec_holds_cluster(value) {
            Ok(Link::Cluster(value))
        } else {
            Err(Error::BrokenChain)
        }
    }

    #[verifier::when_used_as_spec(spec_interpret)]
    pub fn interpret(&self, value: u32) -> (r: Result<Link, Error>)
        ensures
            r == self.spec_interpret(value),
    {
        if value >= end_threshold(self.variant) {
            Ok(Link::EndOfChain)
        } else if self.holds_cluster(value) {
            Ok(Link::Cluster(value))
        } else {
            Err(Error::BrokenChain)
        }
    }
}

/// What `next_cluster` returns: `BrokenChain` where `current` is no cluster
/// of the volume or its entry lies outside `fat`, else the meaning of the
/// entry.
pub open spec fn next_cluster_spec(volume: Volume, fat: Seq<u8>, current: u32) -> Result<
    Link,
    Error,
> {
    if !volume.spec_holds_cluster(current) {
        Err(Error::BrokenChain)
    } else if spec_entry_offset(volume.variant, current) + spec_entry_width(volume.variant)
        > fat.len() {
        Err(Error::BrokenChain)
    } else {
        volume.spec_interpret(entry_value(volume.variant, fat, current) as u32)
    }
}

/// Looks up which cluster follows `current`. `fat_sectors` holds the file
/// allocation table from its first byte on.
pub fn next_cluster(volume: &Volume, fat_sectors: &[u8], current: u32) -> (r: Result<Link, Error>)
    ensures
        r == next_cluster_spec(*volume, fat_sectors@, current),
{
    if !volume.holds_cluster(current) {
        return Err(Error::BrokenChain);
    }
    let off = entry_offset(volume.variant, current);
    if off + entry_width(volume.variant) > fat_sectors.len() as u64 {
        return Err(Error::BrokenChain);
    }
    let at: usize = off as usize;
    let value: u32 = match volume.variant {
        FatVariant::Fat12 => fat12_entry(fat_sectors[at], fat_sectors[at + 1], current % 2 == 1),
        FatVariant::Fat16 => read_le16(fat_sectors, at) as u32,
        FatVariant::Fat32 => read_le32(fat_sectors, at) % 0x1000_0000,
    };
    volume.interpret(value)
}

/// The clusters of a chain in their order, and the failure that cut the
/// chain short, if one did.
pub struct ChainModel {
    pub clusters: Seq<u32>,
    pub error: Option<Error>,
}

/// The chain that starts with the cluster `current`, followed for at most
/// `hops` clusters. A number that is no cluster of the volume fails the
/// chain before it is listed; so does a chain that has not ended after
/// `hops` clusters.
pub open spec fn chain_from(volume: Volume, fat: Seq<u8>, current: u32, hops: nat) -> ChainModel
    decreases hops,
{
    if !volume.spec_holds_cluster(current) || hops == 0 {
        ChainModel { clusters: Seq::empty(), error: Some(Error::BrokenChain) }
    } else {
        match next_cluster_spec(volume, fat, current) {
            Ok(Link::Cluster(next)) => {
                let rest = chain_from(volume, fat, next, (hops - 1) as nat);
                ChainModel { clusters: seq![current] + rest.clusters, error: rest.error }
            },
            Ok(Link::EndOfChain) => ChainModel { clusters: seq![current], error: None },
            Err(e) => ChainModel { clusters: seq![current], error: Some(e) },
        }
    }
}

/// The chain of `volume` that starts with the cluster `first`. A chain with
/// more clusters than the volume has runs in a circle, and is broken.
pub open spec fn chain_spec(volume: Volume, fat: Seq<u8>, first: u32) -> ChainModel {
    chain_from(volume, fat, first, volume.cluster_count as nat)
}

/// A chain of clusters, with the failure that cut it short, if one did.
#[derive(Debug, PartialEq, Eq)]
pub struct Chain {
    pub clusters: Vec<u32>,
    pub error: Option<Error>,
}

impl View for Chain {
    type V = ChainModel;

    open spec fn view(&self) -> ChainModel {
        ChainModel { clusters: self.clusters@, error: self.error }
    }
}

/// Walks the chain that starts with the cluster `first` to its end.
/// `fat_sectors` holds the file allocation table from its first byte on.
pub fn walk_chain(volume: &Volume, fat_sectors: &[u8], first: u32) -> (chain: Chain)
    ensures
        chain@ == chain_spec(*volume, fat_sectors@, first),
{
    let mut clusters: Vec<u32> = Vec::new();
    let mut current = first;
    let mut hops = volume.cluster_count;
    let ghost whole = chain_spec(*volume, fat_sectors@, first);
    assert(clusters@ + whole.clusters =~= whole.clusters);
    loop
        invariant
            whole.clusters == clusters@ + chain_from(
                *volume,
                fat_sectors@,
                current,
                hops as nat,
            ).clusters,
            whole.error == chain_from(*volume, fat_sectors@, current, hops as nat).error,
            whole == chain_spec(*volume, fat_sectors@, first),
        decreases hops,
    {
        let ghost rest = chain_from(*volume, fat_sectors@, current, hops as nat);
        let ghost before = clusters@;
        if !volume.holds_cluster(current) || hops == 0 {
            assert(before + rest.clusters =~= before);
            return Chain { clusters, error: Some(Error::BrokenChain) };
        }
        clusters.push(current);
        match next_cluster(volume, fat_sectors, current) {
            Ok(Link::Cluster(next)) => {
                let ghost tail = chain_from(*volume, fat_sectors@, next, (hops - 1) as nat);
                assert(before + (seq![current] + tail.clusters) =~= before.push(current)
                    + tail.clusters);
                current = next;
                hops -= 1;
            },
            Ok(Link::EndOfChain) => {
                assert(before + seq![current] =~= before.push(current));
                return Chain { clusters, error: None };
            },
            Err(e) => {
                assert(before + seq![current] =~= before.push(current));
                return Chain { clusters, error: Some(e) };
            },
        }
    }
}

/// Two 12-bit entries, packed into three bytes, are read back unchanged: the
/// first through an even index, the second through the odd index after it.
pub proof fn lemma_fat12_pack_then_read(even: int, odd: int)
    requires
        0 <= even < 4096,
        0 <= odd < 4096,
    ensures
        ({
            let (b0, b1, b2) = fat12_pack(even, odd);
            spec_fat12_entry(b0, b1, false) == even && spec_fat12_entry(b1, b2, true) == odd
        }),
{
}

/// Any three bytes are the packing of the two entries read from them.
pub proof fn lemma_fat12_read_then_pack(b0: u8, b1: u8, b2: u8)
    ensures
        fat12_pack(spec_fat12_entry(b0, b1, false), spec_fat12_entry(b1, b2, true)) == (b0, b1, b2),
{
}

/// In a FAT12 table, the entries of the clusters `2k` and `2k + 1` share the
/// three bytes from `3k` on, and each is read from its own two of them.
pub proof fn lemma_fat12_pair_shares_three_bytes(fat: Seq<u8>, k: u32)
    requires
        2 * k + 1 <= u32::MAX,
        3 * k + 3 <= fat.len(),
    ensures
        entry_value(FatVariant::Fat12, fat, (2 * k) as u32) == spec_fat12_entry(
            fat[3 * k],
            fat[3 * k + 1],
            false,
        ),
        entry_value(FatVariant::Fat12, fat, (2 * k + 1) as u32) == spec_fat12_entry(
            fat[3 * k + 1],
            fat[3 * k + 2],
            true,
        ),
{
}

} // verus!
