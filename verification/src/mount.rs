//! Finding the volume on a card: the partition table first, then the boot
//! sector of the first FAT partition.

use crate::error::Error;
use crate::partition::{first_fat_partition, first_fat_partition_spec};
use crate::sector::Sector;
use crate::volume::{parse, parse_spec, Volume};
use vstd::prelude::*;

verus! {

/// How far the search for the volume has come.
#[derive(Clone, Copy, Debug, PartialEq, Eq, Structural)]
pub enum MountStage {
    /// The first sector of the card, with the partition table, is needed.
    Table,
    /// The boot sector of the partition, at `lba`, is needed.
    Boot { lba: u32 },
    /// The volume has been found.
    Mounted(Volume),
    /// There is no volume to be had.
    Failed(Error),
}

impl MountStage {
    /// The address of the sector that is needed next; `None` once the
    /// search is over.
    pub open spec fn spec_need(&self) -> Option<u32> {
        match self {
            MountStage::Table => Some(0u32),
            MountStage::Boot { lba } => Some(*lba),
            _ => None,
        }
    }

    /// The stage after the sector `data`, read from `lba`, was supplied. A
    /// sector from another address than the one needed fails the search
    /// with `Transport`. The table leads to the boot sector of its first
    /// FAT partition, the boot sector to the volume; what either of them
    /// lacks fails the search.
    pub open spec fn spec_supply(&self, lba: u32, data: Seq<u8>) -> MountStage {
        if self.spec_need() is None {
            *self
        } else if self.spec_need() != Some(lba) {
            MountStage::Failed(Error::Transport)
        } else {
            match self {
                MountStage::Table => match first_fat_partition_spec(data) {
                    Ok(partition) => MountStage::Boot { lba: partition.start_lba },
                    Err(e) => MountStage::Failed(e),
                },
                _ => match parse_spec(data, lba) {
                    Ok(volume) => MountStage::Mounted(volume),
                    Err(e) => MountStage::Failed(e),
                },
            }
        }
    }

    /// The stage after the sector that was needed could not be read.
    pub open spec fn spec_fail(&self, error: Error) -> MountStage {
        if self.spec_need() is None {
            *self
        } else {
            MountStage::Failed(error)
        }
    }
}

/// The search for the volume of a card.
#[derive(Clone, Copy, Debug)]
pub struct Mount {
    stage: MountStage,
}

impl View for Mount {
    type V = MountStage;

    closed spec fn view(&self) -> MountStage {
        self.stage
    }
}

impl Mount {
    #[verifier::type_invariant]
    spec fn well_formed(self) -> bool {
        self.stage matches MountStage::Mounted(volume) ==> volume.wf()
    }

    /// A search that has not begun.
    pub fn start() -> (m: Mount)
        ensures
            m@ == MountStage::Table,
    {
        Mount { stage: MountStage::Table }
    }

    /// The address of the sector that `supply` must be given next, or
    /// `None` once the search is over.
    pub fn need(&self) -> (lba: Option<u32>)
        ensures
            lba == self@.spec_need(),
    {
        match self.stage {
            MountStage::Table => Some(0),
            MountStage::Boot { lba } => Some(lba),
            _ => None,
        }
    }

    /// Takes the sector that `need` asked for.
    pub fn supply(&mut self, sector: &Sector)
        ensures
            final(self)@ == old(self)@.spec_supply(sector.lba, sector.data@),
            final(self)@ matches MountStage::Mounted(volume) ==> volume.wf(),
    {
        proof {
            use_type_invariant(&*self);
        }
        let want = match self.need() {
            None => {
                return ;
            },
            Some(lba) => lba,
        };
        if sector.lba != want {
            self.stage = MountStage::Failed(Error::Transport);
            return ;
        }
        self.stage = match self.stage {
            MountStage::Table => match first_fat_partition(sector) {
                Ok(partition) => MountStage::Boot { lba: partition.start_lba },
                Err(e) => MountStage::Failed(e),
            },
            _ => match parse(sector) {
                Ok(volume) => MountStage::Mounted(volume),
                Err(e) => MountStage::Failed(e),
            },
        };
    }

    /// Tells the search that the sector it needs could not be read.
    pub fn fail(&mut self, error: Error)
        ensures
            final(self)@ == old(self)@.spec_fail(error),
    {
        match self.stage {
            MountStage::Table => {
                self.stage = MountStage::Failed(error);
            },
            MountStage::Boot { lba: _ } => {
                self.stage = MountStage::Failed(error);
            },
            _ => {},
        }
    }

    /// What came of the search: `None` while it runs, then the volume or
    /// the failure.
    pub fn result(&self) -> (r: Option<Result<Volume, Error>>)
        ensures
            r == (match self@ {
                MountStage::Mounted(volume) => Some(Ok::<Volume, Error>(volume)),
                MountStage::Failed(e) => Some(Err::<Volume, Error>(e)),
                _ => None,
            }),
            r matches Some(Ok(volume)) ==> volume.wf(),
    {
        proof {
            use_type_invariant(self);
        }
        match self.stage {
            MountStage::Mounted(volume) => Some(Ok(volume)),
            MountStage::Failed(e) => Some(Err(e)),
            _ => None,
        }
    }
}

} // verus!
