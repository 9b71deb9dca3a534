//! The 32-byte records of a directory and the entries read from them.

use crate::bytes::{le16, le32, read_le16, read_le32};
use crate::time::{fat_timestamp, Timestamp};
use crate::volume::FatVariant;
use vstd::prelude::*;

verus! {

/// A record whose first byte is this ends the directory.
pub const END_MARK: u8 = 0x00;

/// A record whose first byte is this was deleted.
pub const DELETED_MARK: u8 = 0xE5;

pub const ATTR_READ_ONLY: u8 = 0x01;

pub const ATTR_HIDDEN: u8 = 0x02;

pub const ATTR_SYSTEM: u8 = 0x04;

pub const ATTR_VOLUME_LABEL: u8 = 0x08;

pub const ATTR_DIRECTORY: u8 = 0x10;

pub const ATTR_ARCHIVE: u8 = 0x20;

/// The attribute byte of a record that holds a piece of a long name.
pub const ATTR_LONG_NAME: u8 = 0x0F;

/// The attribute byte of an entry.
#[derive(Clone, Copy, Debug, PartialEq, Eq, Structural)]
pub struct Attributes {
    pub bits: u8,
}

impl Attributes {
    pub open spec fn spec_has(&self, flag: u8) -> bool {
        self.bits & flag != 0
    }

    /// Whether any bit of `flag` is set.
    #[verifier::when_used_as_spec(spec_has)]
    pub fn has(&self, flag: u8) -> (b: bool)
        ensures
            b == self.spec_has(flag),
    {
        self.bits & flag != 0
    }

    pub fn is_read_only(&self) -> (b: bool)
        ensures
            b == self.has(ATTR_READ_ONLY),
    {
        self.has(ATTR_READ_ONLY)
    }

    pub fn is_hidden(&self) -> (b: bool)
        ensures
            b == self.has(ATTR_HIDDEN),
    {
        self.has(ATTR_HIDDEN)
    }

    pub fn is_system(&self) -> (b: bool)
        ensures
            b == self.has(ATTR_SYSTEM),
    {
        self.has(ATTR_SYSTEM)
    }

    pub fn is_volume_label(&self) -> (b: bool)
        ensures
            b == self.has(ATTR_VOLUME_LABEL),
    {
        self.has(ATTR_VOLUME_LABEL)
    }

    pub fn is_directory(&self) -> (b: bool)
        ensures
            b == self.has(ATTR_DIRECTORY),
    {
        self.has(ATTR_DIRECTORY)
    }

    pub fn is_archive(&self) -> (b: bool)
        ensures
            b == self.has(ATTR_ARCHIVE),
    {
        self.has(ATTR_ARCHIVE)
    }
}

/// The length of `s` without the spaces at its end.
pub open spec fn trimmed_len(s: Seq<u8>) -> nat
    decreases s.len(),
{
    if s.len() == 0 || s.last() != 0x20u8 {
        s.len()
    } else {
        trimmed_len(s.drop_last())
    }
}

/// `s` without the spaces at its end.
pub open spec fn trim(s: Seq<u8>) -> Seq<u8> {
    s.take(trimmed_len(s) as int)
}

/// The name that the eleven bytes `raw` stand for: the base of eight bytes
/// and the extension of three, each without the spaces that pad it, with a
/// full stop between them where there is an extension.
pub open spec fn display_name(raw: Seq<u8>) -> Seq<u8> {
    let base = trim(raw.subrange(0, 8));
    let ext = trim(raw.subrange(8, 11));
    if ext.len() == 0 {
        base
    } else {
        base + seq![0x2Eu8] + ext
    }
}

/// A name of at most twelve bytes, held in place.
#[derive(Clone, Copy, Debug, PartialEq, Eq)]
pub struct ShortName {
    bytes: [u8; 12],
    len: u8,
}

impl View for ShortName {
    type V = Seq<u8>;

    closed spec fn view(&self) -> Seq<u8> {
        self.bytes@.take(self.len as int)
    }
}

impl ShortName {
    #[verifier::type_invariant]
    spec fn well_formed(self) -> bool {
        self.len <= 12
    }

    /// The name that the eleven bytes from `at` on stand for.
    pub fn from_raw(data: &[u8], at: usize) -> (name: ShortName)
        requires
            at + 11 <= data.len(),
        ensures
            name@ == display_name(data@.subrange(at as int, at + 11)),
    {
        let ghost raw = data@.subrange(at as int, at + 11);
        let base_len = trimmed_length(data, at, 8);
        let ext_len = trimmed_length(data, at + 8, 3);
        assert(raw.subrange(0, 8) =~= data@.subrange(at as int, at + 8));
        assert(raw.subrange(8, 11) =~= data@.subrange(at + 8, at + 11));
        let mut bytes: [u8; 12] = [0u8;12];
        let mut i: usize = 0;
        while i < base_len
            invariant
                i <= base_len <= 8,
                at + 11 <= data.len(),
                forall|k: int| 0 <= k < i ==> bytes@[k] == data@[at + k],
            decreases base_len - i,
        {
            bytes[i] = data[at + i];
            i += 1;
        }
        let mut len: usize = base_len;
        if ext_len > 0 {
            bytes[base_len] = 0x2E;
            let mut j: usize = 0;
            while j < ext_len
                invariant
                    j <= ext_len <= 3,
                    base_len <= 8,
                    at + 11 <= data.len(),
                    forall|k: int| 0 <= k < base_len ==> bytes@[k] == data@[at + k],
                    bytes@[base_len as int] == 0x2Eu8,
                    forall|k: int|
                        base_len < k <= base_len + j ==> #[trigger] bytes@[k] == data@[at + 7 + k
                            - base_len],
                decreases ext_len - j,
            {
                bytes[base_len + 1 + j] = data[at + 8 + j];
                j += 1;
            }
            len = base_len + 1 + ext_len;
        }
        let name = ShortName { bytes, len: len as u8 };
        assert(name@ =~= display_name(raw));
        name
    }

    pub fn len(&self) -> (n: usize)
        ensures
            n == self@.len(),
            n <= 12,
    {
        proof {
            use_type_invariant(self);
        }
        self.len as usize
    }

    pub fn byte(&self, i: usize) -> (b: u8)
        requires
            i < self@.len(),
        ensures
            b == self@[i as int],
    {
        proof {
            use_type_invariant(self);
        }
        self.bytes[i]
    }

    /// The bytes of the name.
    pub fn to_vec(&self) -> (v: Vec<u8>)
        ensures
            v@ == self@,
    {
        proof {
            use_type_invariant(self);
        }
        let mut v: Vec<u8> = Vec::new();
        let mut i: usize = 0;
        while i < self.len as usize
            invariant
                i <= self.len <= 12,
                v@ == self.bytes@.take(i as int),
            decreases self.len - i,
        {
            v.push(self.bytes[i]);
            assert(self.bytes@.take(i + 1) =~= self.bytes@.take(i as int).push(self.bytes@[i as int]));
            i += 1;
        }
        v
    }
}

/// The length of the `width` bytes from `from` on without the spaces at their
/// end.
fn trimmed_length(data: &[u8], from: usize, width: usize) -> (n: usize)
    requires
        from + width <= data.len(),
    ensures
        n == trimmed_len(data@.subrange(from as int, from + width)),
        n <= width,
{
    let mut n: usize = width;
    while n > 0 && data[from + n - 1] == 0x20
        invariant
            n <= width,
            from + width <= data.len(),
            trimmed_len(data@.subrange(from as int, from + width)) == trimmed_len(
                data@.subrange(from as int, from + n),
            ),
        decreases n,
    {
        assert(data@.subrange(from as int, from + n).drop_last() =~= data@.subrange(
            from as int,
            from + n - 1,
        ));
        n -= 1;
    }
    n
}

/// An entry of a directory.
#[derive(Clone, Copy, Debug, PartialEq, Eq)]
pub struct DirectoryEntry {
    pub name: ShortName,
    pub attributes: Attributes,
    /// The first cluster of the contents.
    pub first_cluster: u32,
    /// The size of the contents in bytes.
    pub size: u32,
    pub created: Timestamp,
    pub modified: Timestamp,
}

/// What an entry holds, with its name as a sequence of bytes.
pub struct EntryModel {
    pub name: Seq<u8>,
    pub attributes: Attributes,
    pub first_cluster: u32,
    pub size: u32,
    pub created: Timestamp,
    pub modified: Timestamp,
}

impl View for DirectoryEntry {
    type V = EntryModel;

    open spec fn view(&self) -> EntryModel {
        EntryModel {
            name: self.name@,
            attributes: self.attributes,
            first_cluster: self.first_cluster,
            size: self.size,
            created: self.created,
            modified: self.modified,
        }
    }
}

/// What a record is to a reader of short names.
#[derive(Clone, Copy, Debug, PartialEq, Eq, Structural)]
pub enum RecordKind {
    /// The directory ends here: this record and all after it are unused.
    End,
    /// A deleted entry or a piece of a long name: passed over.
    Skipped,
    /// An entry to be listed.
    Listed,
}

/// The kind of the 32-byte record `rec`: its first byte decides whether the
/// directory ends or the entry was deleted, its attribute byte whether it
/// holds a piece of a long name.
pub open spec fn record_kind(rec: Seq<u8>) -> RecordKind {
    if rec[0] == END_MARK {
        RecordKind::End
    } else if rec[0] == DELETED_MARK || rec[11] == ATTR_LONG_NAME {
        RecordKind::Skipped
    } else {
        RecordKind::Listed
    }
}

/// The first cluster that the record `rec` names. FAT32 keeps the high half
/// of the number in a field of its own, which the other variants leave
/// unused.
pub open spec fn record_cluster(variant: FatVariant, rec: Seq<u8>) -> int {
    if variant == FatVariant::Fat32 {
        le16(rec, 26) + 65536 * le16(rec, 20)
    } else {
        le16(rec, 26)
    }
}

/// The entry that the 32-byte record `rec` holds.
pub open spec fn decode_record(variant: FatVariant, rec: Seq<u8>) -> EntryModel {
    EntryModel {
        name: display_name(rec.subrange(0, 11)),
        attributes: Attributes { bits: rec[11] },
        first_cluster: record_cluster(variant, rec) as u32,
        size: le32(rec, 28) as u32,
        created: fat_timestamp(le16(rec, 16) as u16, le16(rec, 14) as u16),
        modified: fat_timestamp(le16(rec, 24) as u16, le16(rec, 22) as u16),
    }
}

/// The record with the number `index` in the sector `data`.
pub open spec fn record_at(data: Seq<u8>, index: int) -> Seq<u8> {
    data.subrange(32 * index, 32 * index + 32)
}

/// Reads the kind of the record with the number `index`.
pub fn kind_of_record(data: &[u8; 512], index: usize) -> (k: RecordKind)
    requires
        index < 16,
    ensures
        k == record_kind(record_at(data@, index as int)),
{
    let base = index * 32;
    if data[base] == END_MARK {
        RecordKind::End
    } else if data[base] == DELETED_MARK || data[base + 11] == ATTR_LONG_NAME {
        RecordKind::Skipped
    } else {
        RecordKind::Listed
    }
}

/// Decodes the record with the number `index`, whatever its kind.
pub fn read_record(variant: FatVariant, data: &[u8; 512], index: usize) -> (e: DirectoryEntry)
    requires
        index < 16,
    ensures
        e@ == decode_record(variant, record_at(data@, index as int)),
{
    let base = index * 32;
    let ghost rec = record_at(data@, index as int);
    assert(rec.subrange(0, 11) =~= data@.subrange(base as int, base + 11));
    let low = read_le16(data, base + 26) as u32;
    let high = read_le16(data, base + 20) as u32;
    let first_cluster = match variant {
        FatVariant::Fat32 => low + 65536 * high,
        _ => low,
    };
    DirectoryEntry {
        name: ShortName::from_raw(data, base),
        attributes: Attributes { bits: data[base + 11] },
        first_cluster,
        size: read_le32(data, base + 28),
        created: Timestamp::from_fat(read_le16(data, base + 16), read_le16(data, base + 14)),
        modified: Timestamp::from_fat(read_le16(data, base + 24), read_le16(data, base + 22)),
    }
}

} // verus!
