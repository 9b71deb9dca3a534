//! What a directory lists, and the walk that lists it.

use crate::cursor::{CursorModel, CursorState, DirCursor};
use crate::entry::{decode_record, record_at, record_kind, DirectoryEntry, EntryModel, RecordKind};
use crate::error::Error;
use crate::sector::{image_sector, in_image, Sector};
use crate::volume::{DirectoryStart, FatVariant, Volume};
use vstd::prelude::*;

verus! {

/// A run of whole sectors of a card, from the address `first_lba` on.
pub struct Image {
    pub first_lba: u32,
    pub bytes: Seq<u8>,
}

impl Image {
    /// The sector at `lba`, if the image holds it.
    pub open spec fn sector(self, lba: u32) -> Option<Seq<u8>> {
        if in_image(self.bytes.len(), self.first_lba, lba) {
            Some(image_sector(self.bytes, self.first_lba, lba))
        } else {
            None
        }
    }
}

/// The entries of a directory in their order on disk, and the failure that
/// cut the list short, if one did.
pub struct Listing {
    pub entries: Seq<EntryModel>,
    pub error: Option<Error>,
}

/// Whether a record that ends the directory stands among the records of the
/// sector `data` from the record `from` on.
pub open spec fn ends_from(data: Seq<u8>, from: int) -> bool
    decreases 16 - from,
{
    if from >= 16 {
        false
    } else {
        record_kind(record_at(data, from)) == RecordKind::End || ends_from(data, from + 1)
    }
}

/// The entries that the records of the sector `data` list from the record
/// `from` on: those of the records to be listed, in order, up to the first
/// record that ends the directory.
pub open spec fn listed_from(variant: FatVariant, data: Seq<u8>, from: int) -> Seq<EntryModel>
    decreases 16 - from,
{
    if from >= 16 {
        Seq::empty()
    } else {
        match record_kind(record_at(data, from)) {
            RecordKind::End => Seq::empty(),
            RecordKind::Skipped => listed_from(variant, data, from + 1),
            RecordKind::Listed => seq![decode_record(variant, record_at(data, from))]
                + listed_from(variant, data, from + 1),
        }
    }
}

/// Whether none of the records `from` to `to`, the last included, ends the
/// directory.
pub open spec fn no_end_through(data: Seq<u8>, from: int, to: int) -> bool {
    forall|k: int| from <= k <= to ==> record_kind(#[trigger] record_at(data, k)) != RecordKind::End
}

impl CursorModel {
    /// The state at the first record after the sector in which the cursor
    /// stands.
    pub open spec fn after_sector(self) -> CursorState {
        match self.state {
            CursorState::Region { sector, left, record } => self.at(
                CursorState::Region { sector, left, record: 15 },
            ).after_record(),
            CursorState::Cluster { cluster, within, record } => self.at(
                CursorState::Cluster { cluster, within, record: 15 },
            ).after_record(),
            _ => self.state,
        }
    }

    /// The record at which the cursor stands, if it stands at one.
    pub open spec fn record(self) -> Option<int> {
        match self.state {
            CursorState::Region { sector, left, record } => Some(record as int),
            CursorState::Cluster { cluster, within, record } => Some(record as int),
            _ => None,
        }
    }

    /// What a walk from this cursor lists when its sectors come from
    /// `image`.
    ///
    /// At a record, the entries of the rest of the sector are listed; if a
    /// record that ends the directory is among them, the list ends there and
    /// nothing further is read, else it goes on after the sector. At a table
    /// lookup the list is that of the cursor after the lookup. A sector that
    /// the image does not hold ends the list with `Transport`.
    #[verifier::opaque]
    pub open spec fn listing(self, image: Image) -> Listing
        decreases self.measure(),
    {
        if !self.wf() || self.need() is None {
            Listing {
                entries: Seq::empty(),
                error: match self.state {
                    CursorState::Failed(e) => Some(e),
                    _ => None,
                },
            }
        } else {
            match image.sector(self.need()->Some_0) {
                None => Listing { entries: Seq::empty(), error: Some(Error::Transport) },
                Some(data) => match self.record() {
                    Some(record) => {
                        let here = listed_from(self.volume.variant, data, record);
                        if ends_from(data, record) {
                            Listing { entries: here, error: None }
                        } else {
                            proof {
                                self.lemma_sector_progress();
                            }
                            let rest = self.at(self.after_sector()).listing(image);
                            Listing { entries: here + rest.entries, error: rest.error }
                        }
                    },
                    None => {
                        proof {
                            self.lemma_step_progress(self.need()->Some_0, data);
                        }
                        self.step(self.need()->Some_0, data).0.listing(image)
                    },
                },
            }
        }
    }

    /// A walk that is over lists nothing more, and reports the failure that
    /// ended it, if one did.
    pub proof fn lemma_listing_when_over(self, image: Image)
        requires
            self.need() is None,
        ensures
            self.listing(image).entries == Seq::<EntryModel>::empty(),
            self.listing(image).error == (match self.state {
                CursorState::Failed(e) => Some(e),
                _ => None,
            }),
    {
        reveal(CursorModel::listing);
    }

    /// A record that ends the directory ends the list: where one stands in
    /// the sector of the cursor, at its record or after it, the list is that
    /// of the records before it, without failure, whatever else the card
    /// holds.
    pub proof fn lemma_listing_stops_at_end_record(self, image: Image, data: Seq<u8>)
        requires
            self.wf(),
            self.record() is Some,
            image.sector(self.need()->Some_0) == Some(data),
            ends_from(data, self.record()->Some_0),
        ensures
            self.listing(image) == (Listing {
                entries: listed_from(self.volume.variant, data, self.record()->Some_0),
                error: None,
            }),
    {
        reveal(CursorModel::listing);
    }

    /// Leaving the sector keeps the cursor well formed and brings the end of
    /// the walk nearer.
    pub proof fn lemma_sector_progress(self)
        requires
            self.wf(),
            self.record() is Some,
        ensures
            self.at(self.after_sector()).wf(),
            0 <= self.at(self.after_sector()).measure() < self.measure(),
    {
        let per_cluster = self.volume.sectors_per_cluster * 16 + 2;
        let h = self.hops_left as int;
        assert(0 <= h * per_cluster) by (nonlinear_arith)
            requires
                0 <= h,
                0 <= per_cluster,
        ;
    }

    /// The list of a walk is the entry that its first step yields, if it
    /// yields one, followed by the list of the walk after that step; and a
    /// walk whose sector cannot be read lists what a failed walk lists.
    pub proof fn lemma_listing_unfolds(self, image: Image)
        requires
            self.wf(),
            self.need() is Some,
        ensures
            match image.sector(self.need()->Some_0) {
                None => self.listing(image) == self.fail(Error::Transport).listing(image),
                Some(data) => {
                    let next = self.step(self.need()->Some_0, data);
                    self.listing(image) == Listing {
                        entries: option_seq(next.1) + next.0.listing(image).entries,
                        error: next.0.listing(image).error,
                    }
                },
            },
    {
        reveal(CursorModel::listing);
        reveal(CursorModel::step);
        let lba = self.need()->Some_0;
        match image.sector(lba) {
            None => {},
            Some(data) => {
                let next = self.step(lba, data);
                self.lemma_step_progress(lba, data);
                match self.record() {
                    None => {
                        assert(option_seq(next.1) + next.0.listing(image).entries
                            =~= next.0.listing(image).entries);
                    },
                    Some(record) => {
                        let variant = self.volume.variant;
                        let kind = record_kind(record_at(data, record));
                        let here = listed_from(variant, data, record);
                        if kind == RecordKind::End {
                            assert(option_seq(next.1) + next.0.listing(image).entries =~= here);
                        } else {
                            self.lemma_sector_progress();
                            let rest = self.at(self.after_sector()).listing(image);
                            if record < 15 {
                                assert(next.0.need() == self.need());
                                assert(next.0.record() == Some(record + 1));
                                assert(next.0.at(next.0.after_sector()) == self.at(
                                    self.after_sector(),
                                ));
                                if ends_from(data, record) {
                                    assert(option_seq(next.1) + next.0.listing(image).entries
                                        =~= here);
                                } else {
                                    assert(option_seq(next.1) + (listed_from(
                                        variant,
                                        data,
                                        record + 1,
                                    ) + rest.entries) =~= here + rest.entries);
                                }
                            } else {
                                assert(listed_from(variant, data, 16) =~= Seq::empty());
                                assert(!ends_from(data, 16));
                                assert(next.0 == self.at(self.after_sector()));
                                assert(option_seq(next.1) + rest.entries =~= here + rest.entries);
                            }
                        }
                    },
                }
            },
        }
    }
}

/// The sequence of the one value that `o` holds, or of none.
pub open spec fn option_seq(o: Option<EntryModel>) -> Seq<EntryModel> {
    match o {
        Some(e) => seq![e],
        None => Seq::empty(),
    }
}

/// What the directory of `volume` that starts at `start` lists when the
/// sectors of the card are those of `image`.
pub open spec fn listing(volume: Volume, start: DirectoryStart, image: Image) -> Listing {
    CursorModel::open(volume, start).listing(image)
}

/// Every entry that the records of a sector list is the decoding of one of
/// those records: one that is neither deleted nor a piece of a long name,
/// and with no record that ends the directory at or before it. So the list
/// stops at the first such record and never holds it.
pub proof fn lemma_listed_records(variant: FatVariant, data: Seq<u8>, from: int, i: int)
    requires
        0 <= from <= 16,
        0 <= i < listed_from(variant, data, from).len(),
    ensures
        exists|r: int|
            from <= r < 16 && record_kind(#[trigger] record_at(data, r)) == RecordKind::Listed
                && no_end_through(data, from, r) && listed_from(variant, data, from)[i]
                == decode_record(variant, record_at(data, r)),
    decreases 16 - from,
{
    if from < 16 {
        match record_kind(record_at(data, from)) {
            RecordKind::End => {},
            RecordKind::Skipped => {
                lemma_listed_records(variant, data, from + 1, i);
                let r = choose|r: int|
                    from + 1 <= r < 16 && record_kind(#[trigger] record_at(data, r))
                        == RecordKind::Listed && no_end_through(data, from + 1, r) && listed_from(
                        variant,
                        data,
                        from + 1,
                    )[i] == decode_record(variant, record_at(data, r));
                assert(no_end_through(data, from, r));
            },
            RecordKind::Listed => {
                if i == 0 {
                    assert(no_end_through(data, from, from));
                } else {
                    lemma_listed_records(variant, data, from + 1, i - 1);
                    let r = choose|r: int|
                        from + 1 <= r < 16 && record_kind(#[trigger] record_at(data, r))
                            == RecordKind::Listed && no_end_through(data, from + 1, r)
                            && listed_from(variant, data, from + 1)[i - 1] == decode_record(
                            variant,
                            record_at(data, r),
                        );
                    assert(no_end_through(data, from, r));
                }
            },
        }
    }
}

/// The entries of `entries`, each as plain values.
pub open spec fn models(entries: Seq<DirectoryEntry>) -> Seq<EntryModel> {
    entries.map_values(|e: DirectoryEntry| e@)
}

/// A list of entries with the failure that cut it short, if one did.
#[derive(Debug, PartialEq, Eq)]
pub struct DirectoryListing {
    pub entries: Vec<DirectoryEntry>,
    pub error: Option<Error>,
}

impl View for DirectoryListing {
    type V = Listing;

    open spec fn view(&self) -> Listing {
        Listing {
            entries: models(self.entries@),
            error: self.error,
        }
    }
}

/// Lists the directory of `volume` that starts at `start`, taking the
/// sectors of the card from `image`, which holds whole sectors from the
/// address `image_lba` on.
///
/// The entries come in their order on disk, up to the first record that ends
/// the directory. A chain that breaks, or a sector that `image` does not
/// hold, ends the list early, and the failure is handed back with the
/// entries read so far.
pub fn iterate(volume: &Volume, start: DirectoryStart, image: &[u8], image_lba: u32) -> (r:
    DirectoryListing)
    ensures
        r@ == listing(*volume, start, Image { first_lba: image_lba, bytes: image@ }),
{
    let ghost img = Image { first_lba: image_lba, bytes: image@ };
    let mut cursor = DirCursor::open(volume, start);
    let mut entries: Vec<DirectoryEntry> = Vec::new();
    let ghost whole = cursor@.listing(img);
    assert(models(entries@) + whole.entries =~= whole.entries);
    let mut want = cursor.need();
    while want.is_some()
        invariant
            cursor@.wf(),
            want == cursor@.need(),
            img == (Image { first_lba: image_lba, bytes: image@ }),
            whole.entries == models(entries@) + cursor@.listing(img).entries,
            whole.error == cursor@.listing(img).error,
        decreases cursor@.measure(),
    {
        let lba = want.unwrap();
        let ghost before = cursor@;
        let ghost listed = models(entries@);
        proof {
            before.lemma_listing_unfolds(img);
        }
        match Sector::from_image(image, image_lba, lba) {
            None => {
                proof {
                    before.lemma_fail_progress(Error::Transport);
                }
                cursor.fail(Error::Transport);
            },
            Some(sector) => {
                proof {
                    before.lemma_step_progress(lba, sector.data@);
                }
                let out = cursor.step(&sector);
                let ghost rest = cursor@.listing(img).entries;
                match out {
                    Some(entry) => {
                        entries.push(entry);
                        assert(models(entries@) =~= listed + seq![entry@]);
                        assert((listed + seq![entry@]) + rest =~= listed + (seq![entry@] + rest));
                    },
                    None => {
                        assert(listed + (Seq::<EntryModel>::empty() + rest) =~= listed + rest);
                    },
                }
            },
        }
        want = cursor.need();
    }
    proof {
        cursor@.lemma_listing_when_over(img);
        assert(models(entries@) + Seq::<EntryModel>::empty() =~= models(entries@));
    }
    DirectoryListing { entries, error: cursor.error() }
}

impl CursorModel {
    /// The list depends on the card only through its sectors: two images
    /// that hold the same sectors give the same list.
    pub proof fn lemma_listing_depends_on_sectors(self, first: Image, second: Image)
        requires
            forall|lba: u32| #[trigger] first.sector(lba) == second.sector(lba),
        ensures
            self.listing(first) == self.listing(second),
        decreases self.measure(),
    {
        reveal(CursorModel::listing);
        if self.wf() && self.need() is Some {
            let lba = self.need()->Some_0;
            assert(first.sector(lba) == second.sector(lba));
            match first.sector(lba) {
                None => {},
                Some(data) => match self.record() {
                    Some(record) => {
                        if !ends_from(data, record) {
                            self.lemma_sector_progress();
                            self.at(self.after_sector()).lemma_listing_depends_on_sectors(
                                first,
                                second,
                            );
                        }
                    },
                    None => {
                        self.lemma_step_progress(lba, data);
                        self.step(lba, data).0.lemma_listing_depends_on_sectors(first, second);
                    },
                },
            }
        }
    }
}

/// Listing a directory twice, from the same start and with no sector of the
/// card changed in between, gives the same entries in the same order, and
/// the same failure if any.
pub proof fn lemma_listing_repeats(
    volume: Volume,
    start: DirectoryStart,
    first: Image,
    second: Image,
)
    requires
        forall|lba: u32| #[trigger] first.sector(lba) == second.sector(lba),
    ensures
        listing(volume, start, first) == listing(volume, start, second),
{
    CursorModel::open(volume, start).lemma_listing_depends_on_sectors(first, second);
}

} // verus!
