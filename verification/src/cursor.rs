//! Walking a directory one record at a time.
//!
//! A cursor never reads the card. It says which sector it needs, takes that
//! sector from the host, and moves by one record or one table lookup. The
//! host keeps a single sector buffer.

use crate::bytes::{le16, le32, read_le16, read_le32};
use crate::chain::{
    entry_offset,
    fat12_entry,
    next_cluster_spec,
    spec_entry_offset,
    spec_fat12_entry,
    Link,
};
use crate::entry::{
    decode_record,
    kind_of_record,
    read_record,
    record_at,
    record_kind,
    DirectoryEntry,
    EntryModel,
    RecordKind,
};
use crate::error::Error;
use crate::sector::Sector;
use crate::volume::{DirectoryStart, FatVariant, Volume};
use vstd::prelude::*;

verus! {

/// Where a cursor stands.
#[derive(Clone, Copy, Debug, PartialEq, Eq, Structural)]
pub enum CursorState {
    /// At the record `record` of the sector `sector` of the volume, in a
    /// fixed region of which `left` sectors remain, this one included.
    Region { sector: u32, left: u32, record: u8 },
    /// At the record `record` of the sector `within` of the cluster
    /// `cluster`, counted from the first sector of the cluster.
    Cluster { cluster: u32, within: u8, record: u8 },
    /// Past the last record of `cluster`, about to read its table entry.
    Lookup { cluster: u32 },
    /// FAT12 only: the entry of `cluster` starts with the last byte of a
    /// table sector, which was `low`, and ends in the next sector.
    LookupTail { cluster: u32, low: u8 },
    /// The directory has ended.
    Ended,
    /// The walk has failed.
    Failed(Error),
}

/// A cursor as plain values.
pub struct CursorModel {
    pub volume: Volume,
    pub state: CursorState,
    /// How many more links of a chain may be followed. A chain with more
    /// links than the volume has clusters runs in a circle.
    pub hops_left: u32,
}

impl CursorModel {
    /// The sector of the table, counted from its first, that holds the first
    /// byte of the entry of `cluster`.
    pub open spec fn table_sector(self, cluster: u32) -> int {
        spec_entry_offset(self.volume.variant, cluster) / 512
    }

    /// The byte of that sector at which the entry starts.
    pub open spec fn table_byte(self, cluster: u32) -> int {
        spec_entry_offset(self.volume.variant, cluster) % 512
    }

    /// What holds of every cursor: it stands within its volume.
    pub open spec fn wf(self) -> bool {
        match self.state {
            CursorState::Region { sector, left, record } => {
                &&& self.volume.wf()
                &&& left >= 1
                &&& sector + left <= self.volume.total_sectors
                &&& record < 16
            },
            CursorState::Cluster { cluster, within, record } => {
                &&& self.volume.wf()
                &&& self.volume.spec_holds_cluster(cluster)
                &&& within < self.volume.sectors_per_cluster
                &&& record < 16
            },
            CursorState::Lookup { cluster } => {
                &&& self.volume.wf()
                &&& self.volume.spec_holds_cluster(cluster)
                &&& self.hops_left >= 1
                &&& self.table_sector(cluster) < self.volume.sectors_per_fat
            },
            CursorState::LookupTail { cluster, low } => {
                &&& self.volume.wf()
                &&& self.volume.spec_holds_cluster(cluster)
                &&& self.hops_left >= 1
                &&& self.volume.variant == FatVariant::Fat12
                &&& self.table_byte(cluster) == 511
                &&& self.table_sector(cluster) + 1 < self.volume.sectors_per_fat
            },
            CursorState::Ended => true,
            CursorState::Failed(_) => true,
        }
    }

    /// The same cursor in another state.
    pub open spec fn at(self, state: CursorState) -> CursorModel {
        CursorModel { volume: self.volume, state, hops_left: self.hops_left }
    }

    /// The address of the sector that the cursor must be given next; `None`
    /// once the walk is over.
    pub open spec fn need(self) -> Option<u32> {
        match self.state {
            CursorState::Region { sector, left, record } => Some(
                self.volume.sector_lba(sector as int) as u32,
            ),
            CursorState::Cluster { cluster, within, record } => Some(
                self.volume.sector_lba(self.volume.cluster_sector(cluster) + within) as u32,
            ),
            CursorState::Lookup { cluster } => Some(
                self.volume.sector_lba(self.volume.fat_start + self.table_sector(cluster)) as u32,
            ),
            CursorState::LookupTail { cluster, low } => Some(
                self.volume.sector_lba(self.volume.fat_start + self.table_sector(cluster) + 1) as u32,
            ),
            CursorState::Ended => None,
            CursorState::Failed(_) => None,
        }
    }

    /// The state in which the table entry of `cluster` is read: a failure
    /// where no link may be followed any more, or where the entry lies
    /// beyond the table.
    pub open spec fn begin_lookup(self, cluster: u32) -> CursorState {
        if self.hops_left == 0 || self.table_sector(cluster) >= self.volume.sectors_per_fat {
            CursorState::Failed(Error::BrokenChain)
        } else {
            CursorState::Lookup { cluster }
        }
    }

    /// The state after the record at which the cursor stands: the next
    /// record of the sector, else the first of the next sector, else the end
    /// of a region or the table lookup after a cluster.
    pub open spec fn after_record(self) -> CursorState {
        match self.state {
            CursorState::Region { sector, left, record } => {
                if record < 15 {
                    CursorState::Region { sector, left, record: (record + 1) as u8 }
                } else if left > 1 {
                    CursorState::Region {
                        sector: (sector + 1) as u32,
                        left: (left - 1) as u32,
                        record: 0,
                    }
                } else {
                    CursorState::Ended
                }
            },
            CursorState::Cluster { cluster, within, record } => {
                if record < 15 {
                    CursorState::Cluster { cluster, within, record: (record + 1) as u8 }
                } else if within + 1 < self.volume.sectors_per_cluster {
                    CursorState::Cluster { cluster, within: (within + 1) as u8, record: 0 }
                } else {
                    self.begin_lookup(cluster)
                }
            },
            _ => self.state,
        }
    }

    /// The cursor after a table entry of value `value` was read.
    pub open spec fn follow(self, value: u32) -> CursorModel {
        self.arrive(self.volume.spec_interpret(value))
    }

    /// The cursor after it was given the sector `data`, read from `lba`, and
    /// the entry that it yields. A sector from another address than the one
    /// needed fails the walk. A record that ends the directory ends the
    /// walk; a deleted record or a piece of a long name is passed over; any
    /// other record is yielded.
    #[verifier::opaque]
    pub open spec fn step(self, lba: u32, data: Seq<u8>) -> (CursorModel, Option<EntryModel>) {
        if self.need() is None {
            (self, None)
        } else if self.need() != Some(lba) {
            (self.at(CursorState::Failed(Error::Transport)), None)
        } else {
            match self.state {
                CursorState::Region { sector, left, record } => self.step_record(
                    record_at(data, record as int),
                ),
                CursorState::Cluster { cluster, within, record } => self.step_record(
                    record_at(data, record as int),
                ),
                CursorState::Lookup { cluster } => {
                    let at = self.table_byte(cluster);
                    match self.volume.variant {
                        FatVariant::Fat12 => {
                            if at < 511 {
                                (
                                    self.follow(
                                        spec_fat12_entry(data[at], data[at + 1], cluster % 2 == 1) as u32,
                                    ),
                                    None,
                                )
                            } else if self.table_sector(cluster) + 1
                                < self.volume.sectors_per_fat {
                                (
                                    self.at(CursorState::LookupTail { cluster, low: data[511] }),
                                    None,
                                )
                            } else {
                                (self.at(CursorState::Failed(Error::BrokenChain)), None)
                            }
                        },
                        FatVariant::Fat16 => (self.follow(le16(data, at) as u32), None),
                        FatVariant::Fat32 => (
                            self.follow((le32(data, at) % 0x1000_0000) as u32),
                            None,
                        ),
                    }
                },
                CursorState::LookupTail { cluster, low } => (
                    self.follow(spec_fat12_entry(low, data[0], cluster % 2 == 1) as u32),
                    None,
                ),
                _ => (self, None),
            }
        }
    }

    /// The step over the record `rec` at which the cursor stands.
    pub open spec fn step_record(self, rec: Seq<u8>) -> (CursorModel, Option<EntryModel>) {
        match record_kind(rec) {
            RecordKind::End => (self.at(CursorState::Ended), None),
            RecordKind::Skipped => (self.at(self.after_record()), None),
            RecordKind::Listed => (
                self.at(self.after_record()),
                Some(decode_record(self.volume.variant, rec)),
            ),
        }
    }

    /// The cursor after the host could not read the sector it needed.
    pub open spec fn fail(self, error: Error) -> CursorModel {
        if self.need() is None {
            self
        } else {
            self.at(CursorState::Failed(error))
        }
    }

    /// The cursor at the start of a directory of `volume`. A volume that is
    /// not well formed, or a start that lies outside it, gives a cursor that
    /// has failed already.
    pub open spec fn open(volume: Volume, start: DirectoryStart) -> CursorModel {
        let state = if !volume.wf() {
            CursorState::Failed(Error::InvalidBootSector)
        } else {
            match start {
                DirectoryStart::Region { first_sector, sectors } => {
                    if first_sector + sectors > volume.total_sectors {
                        CursorState::Failed(Error::BrokenChain)
                    } else if sectors == 0 {
                        CursorState::Ended
                    } else {
                        CursorState::Region { sector: first_sector, left: sectors, record: 0 }
                    }
                },
                DirectoryStart::Chain { first_cluster } => {
                    if volume.spec_holds_cluster(first_cluster) {
                        CursorState::Cluster { cluster: first_cluster, within: 0, record: 0 }
                    } else {
                        CursorState::Failed(Error::BrokenChain)
                    }
                },
            }
        };
        CursorModel { volume, state, hops_left: volume.cluster_count }
    }

    /// A bound on the number of steps that the walk can still take.
    pub open spec fn measure(self) -> int {
        let per_cluster = self.volume.sectors_per_cluster * 16 + 2;
        match self.state {
            CursorState::Region { sector, left, record } => left * 16 - record,
            CursorState::Cluster { cluster, within, record } => self.hops_left * per_cluster + (
            self.volume.sectors_per_cluster - within) * 16 - record + 2,
            CursorState::Lookup { cluster } => self.hops_left * per_cluster + 2,
            CursorState::LookupTail { cluster, low } => self.hops_left * per_cluster + 1,
            CursorState::Ended => 0,
            CursorState::Failed(_) => 0,
        }
    }

    /// The cursor after the table lookup came to `link`: at the first
    /// record of the next cluster, with one link less to follow, at the end,
    /// or failed.
    pub open spec fn arrive(self, link: Result<Link, Error>) -> CursorModel {
        match link {
            Ok(Link::Cluster(next)) => CursorModel {
                volume: self.volume,
                state: CursorState::Cluster { cluster: next, within: 0, record: 0 },
                hops_left: (self.hops_left - 1) as u32,
            },
            Ok(Link::EndOfChain) => self.at(CursorState::Ended),
            Err(e) => self.at(CursorState::Failed(e)),
        }
    }

    /// A lookup that finds its entry within one sector of the table goes
    /// where `next_cluster` says: the cursor follows the chain as the chain
    /// walker does. `table` is the table from its first byte on, `data` the
    /// sector of it that holds the entry.
    pub proof fn lemma_lookup_agrees_with_table(self, cluster: u32, table: Seq<u8>, data: Seq<u8>)
        requires
            self.wf(),
            self.state == (CursorState::Lookup { cluster }),
            !(self.volume.variant == FatVariant::Fat12 && self.table_byte(cluster) == 511),
            table.len() >= 512 * (self.table_sector(cluster) + 1),
            data == table.subrange(
                512 * self.table_sector(cluster),
                512 * self.table_sector(cluster) + 512,
            ),
        ensures
            self.step(self.need()->Some_0, data).0 == self.arrive(
                next_cluster_spec(self.volume, table, cluster),
            ),
    {
        reveal(CursorModel::step);
        let offset = spec_entry_offset(self.volume.variant, cluster);
        let at = self.table_byte(cluster);
        assert(offset == 512 * self.table_sector(cluster) + at);
        assert(data[at] == table[offset]);
        match self.volume.variant {
            FatVariant::Fat12 => {
                assert(data[at + 1] == table[offset + 1]);
            },
            FatVariant::Fat16 => {
                assert(at <= 510);
                assert(data[at + 1] == table[offset + 1]);
            },
            FatVariant::Fat32 => {
                assert(at <= 508);
                assert(data[at + 1] == table[offset + 1]);
                assert(data[at + 2] == table[offset + 2]);
                assert(data[at + 3] == table[offset + 3]);
            },
        }
    }

    /// A lookup on FAT12 whose entry starts with the last byte of a sector
    /// of the table takes two steps, one for each sector, and then goes
    /// where `next_cluster` says.
    pub proof fn lemma_split_lookup_agrees_with_table(
        self,
        cluster: u32,
        table: Seq<u8>,
        first: Seq<u8>,
        second: Seq<u8>,
    )
        requires
            self.wf(),
            self.state == (CursorState::Lookup { cluster }),
            self.volume.variant == FatVariant::Fat12,
            self.table_byte(cluster) == 511,
            self.table_sector(cluster) + 1 < self.volume.sectors_per_fat,
            table.len() >= 512 * (self.table_sector(cluster) + 2),
            first == table.subrange(
                512 * self.table_sector(cluster),
                512 * self.table_sector(cluster) + 512,
            ),
            second == table.subrange(
                512 * self.table_sector(cluster) + 512,
                512 * self.table_sector(cluster) + 1024,
            ),
        ensures
            ({
                let tail = self.step(self.need()->Some_0, first).0;
                &&& tail.state == (CursorState::LookupTail { cluster, low: first[511] })
                &&& tail.need() == Some((self.need()->Some_0 + 1) as u32)
                &&& tail.step(tail.need()->Some_0, second).0 == self.arrive(
                    next_cluster_spec(self.volume, table, cluster),
                )
            }),
    {
        reveal(CursorModel::step);
        self.volume.lemma_table_within_volume();
        let offset = spec_entry_offset(self.volume.variant, cluster);
        assert(offset == 512 * self.table_sector(cluster) + 511);
        assert(first[511] == table[offset]);
        assert(second[0] == table[offset + 1]);
    }

    /// A walk that is told of a failure is over, and was not before.
    pub proof fn lemma_fail_progress(self, error: Error)
        requires
            self.wf(),
            self.need() is Some,
        ensures
            self.fail(error).wf(),
            self.fail(error).need() is None,
            0 == self.fail(error).measure() < self.measure(),
    {
        reveal(CursorModel::step);
        self.lemma_step_progress(0, Seq::empty());
    }

    /// A step over a record keeps the cursor well formed.
    pub proof fn lemma_record_step_well_formed(self, rec: Seq<u8>)
        requires
            self.wf(),
            self.state is Region || self.state is Cluster,
        ensures
            self.step_record(rec).0.wf(),
            self.at(self.after_record()).wf(),
    {
    }

    /// A step keeps the cursor well formed and brings the end of the walk
    /// nearer: every walk ends.
    pub proof fn lemma_step_progress(self, lba: u32, data: Seq<u8>)
        requires
            self.wf(),
            self.need() is Some,
        ensures
            self.step(lba, data).0.wf(),
            0 <= self.step(lba, data).0.measure() < self.measure(),
            self.step(lba, data).0.volume == self.volume,
    {
        reveal(CursorModel::step);
        let per_cluster = self.volume.sectors_per_cluster * 16 + 2;
        let h = self.hops_left as int;
        assert(0 <= h * per_cluster) by (nonlinear_arith)
            requires
                0 <= h,
                0 <= per_cluster,
        ;
        if h >= 1 {
            assert((h - 1) * per_cluster == h * per_cluster - per_cluster && 0 <= (h - 1)
                * per_cluster) by (nonlinear_arith)
                requires
                    1 <= h,
                    0 <= per_cluster,
            ;
        }
    }
}

/// A position in a directory of a volume.
#[derive(Clone, Copy, Debug)]
pub struct DirCursor {
    volume: Volume,
    state: CursorState,
    hops_left: u32,
}

impl View for DirCursor {
    type V = CursorModel;

    closed spec fn view(&self) -> CursorModel {
        CursorModel { volume: self.volume, state: self.state, hops_left: self.hops_left }
    }
}

impl DirCursor {
    #[verifier::type_invariant]
    spec fn well_formed(self) -> bool {
        self@.wf()
    }

    /// A cursor at the first record of the directory that starts at `start`.
    /// Opening the same directory again starts the same walk again.
    pub fn open(volume: &Volume, start: DirectoryStart) -> (c: DirCursor)
        ensures
            c@ == CursorModel::open(*volume, start),
            c@.wf(),
    {
        let state = if !volume.is_well_formed() {
            CursorState::Failed(Error::InvalidBootSector)
        } else {
            match start {
                DirectoryStart::Region { first_sector, sectors } => {
                    if first_sector as u64 + sectors as u64 > volume.total_sectors as u64 {
                        CursorState::Failed(Error::BrokenChain)
                    } else if sectors == 0 {
                        CursorState::Ended
                    } else {
                        CursorState::Region { sector: first_sector, left: sectors, record: 0 }
                    }
                },
                DirectoryStart::Chain { first_cluster } => {
                    if volume.holds_cluster(first_cluster) {
                        CursorState::Cluster { cluster: first_cluster, within: 0, record: 0 }
                    } else {
                        CursorState::Failed(Error::BrokenChain)
                    }
                },
            }
        };
        DirCursor { volume: *volume, state, hops_left: volume.cluster_count }
    }

    /// The address of the sector that `step` must be given next, or `None`
    /// once the walk is over: after the end of the directory no sector is
    /// asked for any more.
    pub fn need(&self) -> (lba: Option<u32>)
        ensures
            lba == self@.need(),
    {
        proof {
            use_type_invariant(self);
        }
        match self.state {
            CursorState::Region { sector, left, record } => Some(self.volume.start_lba + sector),
            CursorState::Cluster { cluster, within, record } => {
                proof {
                    self.volume.lemma_cluster_within_volume(cluster, within as int);
                }
                let sector: u64 = self.volume.data_start as u64 + (cluster - 2) as u64
                    * self.volume.sectors_per_cluster as u64 + within as u64;
                Some((self.volume.start_lba as u64 + sector) as u32)
            },
            CursorState::Lookup { cluster } => {
                proof {
                    self.volume.lemma_table_within_volume();
                }
                let (table_sector, _) = self.table_position(cluster);
                Some(self.volume.start_lba + self.volume.fat_start + table_sector)
            },
            CursorState::LookupTail { cluster, low } => {
                proof {
                    self.volume.lemma_table_within_volume();
                }
                let (table_sector, _) = self.table_position(cluster);
                Some(self.volume.start_lba + self.volume.fat_start + table_sector + 1)
            },
            CursorState::Ended => None,
            CursorState::Failed(_) => None,
        }
    }

    /// Whether the walk is over, by the end of the directory or by a
    /// failure.
    pub fn finished(&self) -> (b: bool)
        ensures
            b == (self@.need() is None),
    {
        match self.state {
            CursorState::Ended => true,
            CursorState::Failed(_) => true,
            _ => false,
        }
    }

    /// The failure that ended the walk, if one did.
    pub fn error(&self) -> (e: Option<Error>)
        ensures
            e == (match self@.state {
                CursorState::Failed(err) => Some(err),
                _ => None,
            }),
    {
        match self.state {
            CursorState::Failed(err) => Some(err),
            _ => None,
        }
    }

    /// Tells the cursor that the sector it needs could not be read. The walk
    /// ends with `error`; a walk that is over stays as it is.
    pub fn fail(&mut self, error: Error)
        ensures
            final(self)@ == old(self)@.fail(error),
    {
        match self.state {
            CursorState::Ended => {},
            CursorState::Failed(_) => {},
            _ => {
                self.state = CursorState::Failed(error);
            },
        }
    }

    /// Moves by one record or one table lookup, given the sector that `need`
    /// asked for, and hands out the entry at which the cursor stood if it is
    /// one to list.
    pub fn step(&mut self, sector: &Sector) -> (out: Option<DirectoryEntry>)
        ensures
            final(self)@ == old(self)@.step(sector.lba, sector.data@).0,
            match out {
                Some(e) => old(self)@.step(sector.lba, sector.data@).1 == Some(e@),
                None => old(self)@.step(sector.lba, sector.data@).1 is None,
            },
    {
        proof {
            use_type_invariant(&*self);
            reveal(CursorModel::step);
        }
        let want = match self.need() {
            None => {
                return None;
            },
            Some(lba) => lba,
        };
        if sector.lba != want {
            self.state = CursorState::Failed(Error::Transport);
            return None;
        }
        match self.state {
            CursorState::Region { sector: _, left: _, record } => self.step_record(
                sector,
                record as usize,
            ),
            CursorState::Cluster { cluster: _, within: _, record } => self.step_record(
                sector,
                record as usize,
            ),
            CursorState::Lookup { cluster } => {
                self.step_lookup(sector, cluster);
                None
            },
            CursorState::LookupTail { cluster, low } => {
                let value = fat12_entry(low, sector.data[0], cluster % 2 == 1);
                self.follow(value);
                None
            },
            CursorState::Ended => None,
            CursorState::Failed(_) => None,
        }
    }

    /// The step that reads the table entry of `cluster` from its sector.
    fn step_lookup(&mut self, sector: &Sector, cluster: u32)
        requires
            old(self)@.wf(),
            old(self)@.state == (CursorState::Lookup { cluster }),
            old(self)@.need() == Some(sector.lba),
        ensures
            final(self)@ == old(self)@.step(sector.lba, sector.data@).0,
            old(self)@.step(sector.lba, sector.data@).1 is None,
    {
        proof {
            reveal(CursorModel::step);
        }
        let (table_sector, at) = self.table_position(cluster);
        match self.volume.variant {
            FatVariant::Fat12 => {
                if at < 511 {
                    let value = fat12_entry(sector.data[at], sector.data[at + 1], cluster % 2 == 1);
                    self.follow(value);
                } else if table_sector + 1 < self.volume.sectors_per_fat {
                    self.state = CursorState::LookupTail { cluster, low: sector.data[511] };
                } else {
                    self.state = CursorState::Failed(Error::BrokenChain);
                }
            },
            FatVariant::Fat16 => {
                let value = read_le16(&sector.data, at) as u32;
                self.follow(value);
            },
            FatVariant::Fat32 => {
                let value = read_le32(&sector.data, at) % 0x1000_0000;
                self.follow(value);
            },
        }
    }

    /// Where the table entry of `cluster` starts: the sector of the table,
    /// and the byte in it.
    fn table_position(&self, cluster: u32) -> (p: (u32, usize))
        ensures
            p.0 == self@.table_sector(cluster),
            p.1 == self@.table_byte(cluster),
            p.1 < 512,
            self.volume.variant == FatVariant::Fat16 ==> p.1 <= 510,
            self.volume.variant == FatVariant::Fat32 ==> p.1 <= 508,
    {
        let offset = entry_offset(self.volume.variant, cluster);
        ((offset / 512) as u32, (offset % 512) as usize)
    }

    fn begin_lookup(&self, cluster: u32) -> (s: CursorState)
        ensures
            s == self@.begin_lookup(cluster),
    {
        let (table_sector, _) = self.table_position(cluster);
        if self.hops_left == 0 || table_sector >= self.volume.sectors_per_fat {
            CursorState::Failed(Error::BrokenChain)
        } else {
            CursorState::Lookup { cluster }
        }
    }

    fn after_record(&self) -> (s: CursorState)
        requires
            self@.wf(),
        ensures
            s == self@.after_record(),
    {
        match self.state {
            CursorState::Region { sector, left, record } => {
                if record < 15 {
                    CursorState::Region { sector, left, record: record + 1 }
                } else if left > 1 {
                    CursorState::Region { sector: sector + 1, left: left - 1, record: 0 }
                } else {
                    CursorState::Ended
                }
            },
            CursorState::Cluster { cluster, within, record } => {
                if record < 15 {
                    CursorState::Cluster { cluster, within, record: record + 1 }
                } else if within + 1 < self.volume.sectors_per_cluster {
                    CursorState::Cluster { cluster, within: within + 1, record: 0 }
                } else {
                    self.begin_lookup(cluster)
                }
            },
            other => other,
        }
    }

    fn step_record(&mut self, sector: &Sector, record: usize) -> (out: Option<DirectoryEntry>)
        requires
            record < 16,
            old(self)@.wf(),
            old(self)@.state is Region || old(self)@.state is Cluster,
        ensures
            final(self)@ == old(self)@.step_record(record_at(sector.data@, record as int)).0,
            match out {
                Some(e) => old(self)@.step_record(record_at(sector.data@, record as int)).1
                    == Some(e@),
                None => old(self)@.step_record(record_at(sector.data@, record as int)).1 is None,
            },
    {
        proof {
            self@.lemma_record_step_well_formed(record_at(sector.data@, record as int));
        }
        match kind_of_record(&sector.data, record) {
            RecordKind::End => {
                self.state = CursorState::Ended;
                None
            },
            RecordKind::Skipped => {
                self.state = self.after_record();
                None
            },
            RecordKind::Listed => {
                let entry = read_record(self.volume.variant, &sector.data, record);
                self.state = self.after_record();
                Some(entry)
            },
        }
    }

    fn follow(&mut self, value: u32)
        requires
            old(self)@.wf(),
            old(self)@.state is Lookup || old(self)@.state is LookupTail,
        ensures
            final(self)@ == old(self)@.follow(value),
    {
        match self.volume.interpret(value) {
            Ok(Link::Cluster(next)) => {
                self.state = CursorState::Cluster { cluster: next, within: 0, record: 0 };
                self.hops_left = self.hops_left - 1;
            },
            Ok(Link::EndOfChain) => {
                self.state = CursorState::Ended;
            },
            Err(e) => {
                self.state = CursorState::Failed(e);
            },
        }
    }
}

} // verus!
