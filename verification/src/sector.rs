//! The unit of transfer between the card and the filesystem.

use vstd::prelude::*;

verus! {

/// One sector of the card: 512 bytes, the only size in which cards are
/// read, tagged with the logical block address they were read from.
#[derive(Clone, Copy, Debug, PartialEq, Eq)]
pub struct Sector {
    pub lba: u32,
    pub data: [u8; 512],
}

impl Sector {
    pub fn new(lba: u32, data: [u8; 512]) -> (s: Sector)
        ensures
            s.lba == lba,
            s.data == data,
    {
        Sector { lba, data }
    }

    /// A sector of zero bytes, to be filled by a read.
    pub fn zeroed(lba: u32) -> (s: Sector)
        ensures
            s.lba == lba,
            forall|i: int| 0 <= i < 512 ==> s.data@[i] == 0u8,
    {
        Sector { lba, data: [0u8;512] }
    }

    /// Copies a sector out of `bytes`, which holds whole sectors from the
    /// address `first_lba` on. `None` when `bytes` does not reach that far.
    pub fn from_image(bytes: &[u8], first_lba: u32, lba: u32) -> (r: Option<Sector>)
        ensures
            r is Some <==> in_image(bytes@.len(), first_lba, lba),
            r matches Some(s) ==> s.lba == lba && s.data@ == image_sector(bytes@, first_lba, lba),
    {
        if lba < first_lba {
            return None;
        }
        let index: u64 = (lba - first_lba) as u64;
        let len: u64 = bytes.len() as u64;
        if (index + 1) * 512 > len {
            return None;
        }
        let base: usize = (index * 512) as usize;
        let mut data: [u8; 512] = [0u8;512];
        let mut i: usize = 0;
        while i < 512
            invariant
                i <= 512,
                base + 512 <= bytes.len(),
                forall|k: int| 0 <= k < i ==> data@[k] == bytes@[base + k],
            decreases 512 - i,
        {
            data[i] = bytes[base + i];
            i += 1;
        }
        assert(data@ =~= image_sector(bytes@, first_lba, lba));
        Some(Sector { lba, data })
    }
}

/// Whether an image of `len` bytes that starts at `first_lba` holds the whole
/// sector `lba`.
pub open spec fn in_image(len: nat, first_lba: u32, lba: u32) -> bool {
    first_lba <= lba && (lba - first_lba + 1) * 512 <= len
}

/// The 512 bytes of sector `lba` in an image that starts at `first_lba`.
pub open spec fn image_sector(bytes: Seq<u8>, first_lba: u32, lba: u32) -> Seq<u8> {
    bytes.subrange((lba - first_lba) * 512, (lba - first_lba) * 512 + 512)
}

} // verus!
