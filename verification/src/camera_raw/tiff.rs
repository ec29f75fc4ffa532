//! TIFF image file directories: a bounded walk over the directory graph and the
//! values that directory entries hold.

use std::collections::{HashMap, HashSet};
use vstd::prelude::*;
use vstd::slice::slice_subrange;

verus! {

broadcast use vstd::std_specs::hash::group_hash_axioms;

/// Largest number of directories that one source may reach.
pub const MAX_IFDS: usize = 32;

/// Largest number of entries in one directory.
pub const MAX_IFD_ENTRIES: usize = 4_096;

/// Largest number of values in one entry.
pub const MAX_TIFF_VALUE_COUNT: u32 = 4_096;

/// Entry that lists the offsets of nested directories.
pub const TAG_SUB_IFDS: u16 = 330;

/// Entry with the image width in pixels.
pub const TAG_IMAGE_WIDTH: u16 = 256;

/// Entry with the image height in pixels.
pub const TAG_IMAGE_HEIGHT: u16 = 257;

/// Byte order of a TIFF source.
#[derive(Debug, Clone, Copy, PartialEq, Eq, Structural)]
pub enum Endian {
    /// Least significant byte first.
    Little,
    /// Most significant byte first.
    Big,
}

/// Value of two bytes in the given order.
pub open spec fn u16_of(endian: Endian, b: Seq<u8>) -> int {
    match endian {
        Endian::Little => b[0] + 256 * b[1],
        Endian::Big => b[1] + 256 * b[0],
    }
}

/// Value of four bytes in the given order.
pub open spec fn u32_of(endian: Endian, b: Seq<u8>) -> int {
    match endian {
        Endian::Little => b[0] + 256 * b[1] + 65_536 * b[2] + 16_777_216 * b[3],
        Endian::Big => b[3] + 256 * b[2] + 65_536 * b[1] + 16_777_216 * b[0],
    }
}

/// Two's complement value of four bytes in the given order.
pub open spec fn i32_of(endian: Endian, b: Seq<u8>) -> int {
    let v = u32_of(endian, b);
    if v < 0x8000_0000 {
        v
    } else {
        v - 0x1_0000_0000
    }
}

impl Endian {
    /// Reads two bytes as an unsigned integer.
    pub fn u16(self, bytes: [u8; 2]) -> (r: u16)
        ensures
            r == u16_of(self, bytes@),
    {
        match self {
            Endian::Little => bytes[0] as u16 + 256 * (bytes[1] as u16),
            Endian::Big => bytes[1] as u16 + 256 * (bytes[0] as u16),
        }
    }

    /// Reads four bytes as an unsigned integer.
    pub fn u32(self, bytes: [u8; 4]) -> (r: u32)
        ensures
            r == u32_of(self, bytes@),
    {
        match self {
            Endian::Little => bytes[0] as u32 + 256 * (bytes[1] as u32) + 65_536 * (
            bytes[2] as u32) + 16_777_216 * (bytes[3] as u32),
            Endian::Big => bytes[3] as u32 + 256 * (bytes[2] as u32) + 65_536 * (
            bytes[1] as u32) + 16_777_216 * (bytes[0] as u32),
        }
    }

    /// Reads four bytes as a two's complement integer.
    pub fn i32(self, bytes: [u8; 4]) -> (r: i32)
        ensures
            r == i32_of(self, bytes@),
    {
        let value: u32 = self.u32(bytes);
        if value < 0x8000_0000 {
            value as i32
        } else {
            (value as i64 - 0x1_0000_0000i64) as i32
        }
    }
}

/// One entry of a directory. The four value bytes hold the data itself when it
/// fits and its file offset otherwise.
#[derive(Debug, Clone, Copy)]
pub struct TiffEntry {
    pub field_type: u16,
    pub count: u32,
    pub value: [u8; 4],
}

/// One image file directory: its entries by tag. Of entries with the same tag
/// the last one stands.
pub struct TiffIfd {
    pub entries: HashMap<u16, TiffEntry>,
}

impl View for TiffIfd {
    type V = Map<u16, TiffEntry>;

    open spec fn view(&self) -> Map<u16, TiffEntry> {
        self.entries@
    }
}

/// Why a TIFF source was refused.
#[derive(Debug, Clone, Copy, PartialEq, Eq, Structural)]
pub enum TiffError {
    /// An entry declares more values than are accepted.
    TooManyValues { count: u32 },
    /// An entry has a field type without a known width.
    UnsupportedFieldType { field_type: u16 },
    /// The data of an entry is not inside the file.
    EntryOutsideFile,
    /// An entry whose values are no unsigned integers.
    NotUnsigned { field_type: u16 },
    /// An entry whose values are no rationals.
    NotRational { field_type: u16 },
    /// A rational with denominator zero.
    ZeroDenominator,
    /// The entry count of a directory is not inside the file.
    CountOutsideFile,
    /// A directory declares more entries than are accepted.
    TooManyEntries { declared: u16 },
    /// The entries of a directory are not inside the file.
    EntriesOutsideFile,
    /// The link to the next directory is not inside the file.
    NextOutsideFile,
    /// More directories are reachable than are accepted.
    TooManyDirectories,
}

/// Width in bytes of one value of a field type.
pub open spec fn field_width(field_type: u16) -> Option<nat> {
    if field_type == 1 || field_type == 2 || field_type == 6 || field_type == 7 {
        Some(1)
    } else if field_type == 3 || field_type == 8 {
        Some(2)
    } else if field_type == 4 || field_type == 9 || field_type == 11 {
        Some(4)
    } else if field_type == 5 || field_type == 10 || field_type == 12 {
        Some(8)
    } else {
        None
    }
}

/// The data bytes of an entry: inline up to four bytes, else at the offset that
/// the value bytes give.
pub open spec fn entry_data(bytes: Seq<u8>, endian: Endian, entry: TiffEntry) -> Result<
    Seq<u8>,
    TiffError,
> {
    if entry.count > MAX_TIFF_VALUE_COUNT {
        Err(TiffError::TooManyValues { count: entry.count })
    } else {
        match field_width(entry.field_type) {
            None => Err(TiffError::UnsupportedFieldType { field_type: entry.field_type }),
            Some(width) => {
                let size = width * entry.count;
                let offset = u32_of(endian, entry.value@);
                if size <= 4 {
                    Ok(entry.value@.take(size))
                } else if offset + size <= bytes.len() {
                    Ok(bytes.subrange(offset, offset + size))
                } else {
                    Err(TiffError::EntryOutsideFile)
                }
            },
        }
    }
}

/// The values of an entry as unsigned integers: bytes, shorts or longs.
pub open spec fn entry_unsigned(bytes: Seq<u8>, endian: Endian, entry: TiffEntry) -> Result<
    Seq<u32>,
    TiffError,
> {
    match entry_data(bytes, endian, entry) {
        Err(error) => Err(error),
        Ok(data) => if entry.field_type == 1 || entry.field_type == 7 {
            Ok(Seq::new(data.len(), |i: int| data[i] as u32))
        } else if entry.field_type == 3 {
            Ok(
                Seq::new(
                    data.len() / 2,
                    |i: int| u16_of(endian, data.subrange(2 * i, 2 * i + 2)) as u32,
                ),
            )
        } else if entry.field_type == 4 {
            Ok(
                Seq::new(
                    data.len() / 4,
                    |i: int| u32_of(endian, data.subrange(4 * i, 4 * i + 4)) as u32,
                ),
            )
        } else {
            Err(TiffError::NotUnsigned { field_type: entry.field_type })
        },
    }
}

/// The data bytes of an entry.
pub fn entry_bytes<'a>(bytes: &'a [u8], endian: Endian, entry: &'a TiffEntry) -> (r: Result<
    &'a [u8],
    TiffError,
>)
    ensures
        match (r, entry_data(bytes@, endian, *entry)) {
            (Ok(data), Ok(expected)) => data@ == expected,
            (Err(error), Err(expected)) => error == expected,
            _ => false,
        },
{
    if entry.count > MAX_TIFF_VALUE_COUNT {
        return Err(TiffError::TooManyValues { count: entry.count });
    }
    let field_type: u16 = entry.field_type;
    let width: usize = if field_type == 1 || field_type == 2 || field_type == 6 || field_type == 7 {
        1
    } else if field_type == 3 || field_type == 8 {
        2
    } else if field_type == 4 || field_type == 9 || field_type == 11 {
        4
    } else if field_type == 5 || field_type == 10 || field_type == 12 {
        8
    } else {
        return Err(TiffError::UnsupportedFieldType { field_type });
    };
    assert(width * entry.count <= 8 * 4096) by (nonlinear_arith)
        requires
            width <= 8,
            entry.count <= 4096,
    ;
    let size: usize = width * (entry.count as usize);
    if size <= 4 {
        let inline = slice_subrange(vstd::array::array_as_slice(&entry.value), 0, size);
        assert(inline@ =~= entry.value@.take(size as int));
        return Ok(inline);
    }
    let offset: usize = endian.u32(entry.value) as usize;
    if bytes.len() < size || bytes.len() - size < offset {
        return Err(TiffError::EntryOutsideFile);
    }
    Ok(slice_subrange(bytes, offset, offset + size))
}

/// The values of an entry as unsigned integers.
pub fn unsigned_values(bytes: &[u8], endian: Endian, entry: &TiffEntry) -> (r: Result<
    Vec<u32>,
    TiffError,
>)
    ensures
        match (r, entry_unsigned(bytes@, endian, *entry)) {
            (Ok(values), Ok(expected)) => values@ == expected,
            (Err(error), Err(expected)) => error == expected,
            _ => false,
        },
{
    let data = match entry_bytes(bytes, endian, entry) {
        Ok(data) => data,
        Err(error) => return Err(error),
    };
    let mut values: Vec<u32> = Vec::new();
    let field_type: u16 = entry.field_type;
    if field_type == 1 || field_type == 7 {
        let mut i: usize = 0;
        while i < data.len()
            invariant
                i <= data.len(),
                values@ == Seq::new(i as nat, |j: int| data@[j] as u32),
            decreases data.len() - i,
        {
            values.push(data[i] as u32);
            i = i + 1;
        }
        Ok(values)
    } else if field_type == 3 {
        let count: usize = data.len() / 2;
        let mut i: usize = 0;
        while i < count
            invariant
                i <= count,
                count == data.len() / 2,
                values@ == Seq::new(
                    i as nat,
                    |j: int| u16_of(endian, data@.subrange(2 * j, 2 * j + 2)) as u32,
                ),
            decreases count - i,
        {
            let pair = [data[2 * i], data[2 * i + 1]];
            assert(pair@ =~= data@.subrange(2 * i, 2 * i + 2));
            values.push(endian.u16(pair) as u32);
            i = i + 1;
        }
        Ok(values)
    } else if field_type == 4 {
        let count: usize = data.len() / 4;
        let mut i: usize = 0;
        while i < count
            invariant
                i <= count,
                count == data.len() / 4,
                values@ == Seq::new(
                    i as nat,
                    |j: int| u32_of(endian, data@.subrange(4 * j, 4 * j + 4)) as u32,
                ),
            decreases count - i,
        {
            let quad = [data[4 * i], data[4 * i + 1], data[4 * i + 2], data[4 * i + 3]];
            assert(quad@ =~= data@.subrange(4 * i, 4 * i + 4));
            values.push(endian.u32(quad));
            i = i + 1;
        }
        Ok(values)
    } else {
        Err(TiffError::NotUnsigned { field_type })
    }
}

/// The directory entry in the twelve bytes from `at` on.
pub open spec fn entry_at(bytes: Seq<u8>, endian: Endian, at: int) -> TiffEntry {
    TiffEntry {
        field_type: u16_of(endian, bytes.subrange(at + 2, at + 4)) as u16,
        count: u32_of(endian, bytes.subrange(at + 4, at + 8)) as u32,
        value: [bytes[at + 8], bytes[at + 9], bytes[at + 10], bytes[at + 11]],
    }
}

/// The first `count` entries from `start` on, by tag.
pub open spec fn entries_from(bytes: Seq<u8>, endian: Endian, start: int, count: nat) -> Map<
    u16,
    TiffEntry,
>
    decreases count,
{
    if count == 0 {
        Map::empty()
    } else {
        let at = start + 12 * (count - 1);
        entries_from(bytes, endian, start, (count - 1) as nat).insert(
            u16_of(endian, bytes.subrange(at, at + 2)) as u16,
            entry_at(bytes, endian, at),
        )
    }
}

/// The directory at `offset` and the offset of the one that follows it.
pub open spec fn directory_at(bytes: Seq<u8>, endian: Endian, offset: int) -> Result<
    (Map<u16, TiffEntry>, u32),
    TiffError,
> {
    if offset + 2 > bytes.len() {
        Err(TiffError::CountOutsideFile)
    } else {
        let count = u16_of(endian, bytes.subrange(offset, offset + 2));
        let end = offset + 2 + 12 * count;
        if count > MAX_IFD_ENTRIES {
            Err(TiffError::TooManyEntries { declared: count as u16 })
        } else if end > bytes.len() {
            Err(TiffError::EntriesOutsideFile)
        } else if end + 4 > bytes.len() {
            Err(TiffError::NextOutsideFile)
        } else {
            Ok(
                (
                    entries_from(bytes, endian, offset + 2, count as nat),
                    u32_of(endian, bytes.subrange(end, end + 4)) as u32,
                ),
            )
        }
    }
}

/// Reads the directory at `offset` and the offset of the one that follows it.
pub fn parse_ifd(bytes: &[u8], endian: Endian, offset: u32) -> (r: Result<
    (TiffIfd, u32),
    TiffError,
>)
    ensures
        match (r, directory_at(bytes@, endian, offset as int)) {
            (Ok((ifd, next)), Ok((entries, expected))) => ifd@ == entries && next == expected,
            (Err(error), Err(expected)) => error == expected,
            _ => false,
        },
{
    let offset: usize = offset as usize;
    if bytes.len() < 2 || bytes.len() - 2 < offset {
        return Err(TiffError::CountOutsideFile);
    }
    let head = [bytes[offset], bytes[offset + 1]];
    assert(head@ =~= bytes@.subrange(offset as int, offset + 2));
    let declared: u16 = endian.u16(head);
    let count: usize = declared as usize;
    if count > MAX_IFD_ENTRIES {
        return Err(TiffError::TooManyEntries { declared });
    }
    let start: usize = offset + 2;
    let room: usize = bytes.len() - start;
    if room < 12 * count {
        return Err(TiffError::EntriesOutsideFile);
    }
    let end: usize = start + 12 * count;
    let mut entries: HashMap<u16, TiffEntry> = HashMap::new();
    let mut i: usize = 0;
    while i < count
        invariant
            i <= count <= MAX_IFD_ENTRIES,
            end == start + 12 * count,
            end <= bytes.len(),
            entries@ == entries_from(bytes@, endian, start as int, i as nat),
        decreases count - i,
    {
        let at: usize = start + 12 * i;
        let tag_bytes = [bytes[at], bytes[at + 1]];
        let type_bytes = [bytes[at + 2], bytes[at + 3]];
        let count_bytes = [bytes[at + 4], bytes[at + 5], bytes[at + 6], bytes[at + 7]];
        let value = [bytes[at + 8], bytes[at + 9], bytes[at + 10], bytes[at + 11]];
        assert(tag_bytes@ =~= bytes@.subrange(at as int, at + 2));
        assert(type_bytes@ =~= bytes@.subrange(at + 2, at + 4));
        assert(count_bytes@ =~= bytes@.subrange(at + 4, at + 8));
        let tag: u16 = endian.u16(tag_bytes);
        let entry = TiffEntry {
            field_type: endian.u16(type_bytes),
            count: endian.u32(count_bytes),
            value,
        };
        entries.insert(tag, entry);
        i = i + 1;
    }
    if bytes.len() - end < 4 {
        return Err(TiffError::NextOutsideFile);
    }
    let link = [bytes[end], bytes[end + 1], bytes[end + 2], bytes[end + 3]];
    assert(link@ =~= bytes@.subrange(end as int, end + 4));
    Ok((TiffIfd { entries }, endian.u32(link)))
}

/// Directories reachable from the offsets in `pending`, whose last one is taken
/// first. A directory puts the offsets of its nested directories and then that
/// of its successor on top. Offset zero and offsets already seen are passed over.
pub open spec fn reachable(
    bytes: Seq<u8>,
    endian: Endian,
    pending: Seq<u32>,
    visited: Set<u32>,
    found: Seq<Map<u16, TiffEntry>>,
) -> Result<Seq<Map<u16, TiffEntry>>, TiffError>
    decreases MAX_IFDS - found.len(), pending.len(),
{
    if pending.len() == 0 {
        Ok(found)
    } else {
        let offset = pending.last();
        let rest = pending.drop_last();
        if offset == 0 || visited.contains(offset) {
            reachable(bytes, endian, rest, visited, found)
        } else if found.len() >= MAX_IFDS {
            Err(TiffError::TooManyDirectories)
        } else {
            match directory_at(bytes, endian, offset as int) {
                Err(error) => Err(error),
                Ok((entries, next)) => {
                    let seen = visited.insert(offset);
                    if entries.contains_key(TAG_SUB_IFDS) {
                        match entry_unsigned(bytes, endian, entries[TAG_SUB_IFDS]) {
                            Err(error) => Err(error),
                            Ok(nested) => reachable(
                                bytes,
                                endian,
                                (rest + nested).push(next),
                                seen,
                                found.push(entries),
                            ),
                        }
                    } else {
                        reachable(bytes, endian, rest.push(next), seen, found.push(entries))
                    }
                },
            }
        }
    }
}

/// The directories of a TIFF source, in the order in which they are met.
pub open spec fn directories(bytes: Seq<u8>, endian: Endian, first: u32) -> Result<
    Seq<Map<u16, TiffEntry>>,
    TiffError,
> {
    reachable(bytes, endian, seq![first], Set::empty(), seq![])
}

/// The entry maps of a list of directories.
pub open spec fn entry_maps(ifds: Seq<TiffIfd>) -> Seq<Map<u16, TiffEntry>> {
    Seq::new(ifds.len(), |i: int| ifds[i]@)
}

/// Walks the directory graph from `first_offset` on.
pub fn parse_ifd_graph(bytes: &[u8], endian: Endian, first_offset: u32) -> (r: Result<
    Vec<TiffIfd>,
    TiffError,
>)
    ensures
        match (r, directories(bytes@, endian, first_offset)) {
            (Ok(ifds), Ok(expected)) => entry_maps(ifds@) == expected,
            (Err(error), Err(expected)) => error == expected,
            _ => false,
        },
{
    let mut pending: Vec<u32> = Vec::new();
    pending.push(first_offset);
    let mut visited: HashSet<u32> = HashSet::new();
    let mut ifds: Vec<TiffIfd> = Vec::new();
    assert(pending@ =~= seq![first_offset]);
    assert(entry_maps(ifds@) =~= seq![]);
    while pending.len() > 0
        invariant
            ifds.len() <= MAX_IFDS,
            reachable(bytes@, endian, pending@, visited@, entry_maps(ifds@)) == directories(
                bytes@,
                endian,
                first_offset,
            ),
        decreases MAX_IFDS - ifds.len(), pending.len(),
    {
        let ghost before = pending@;
        let ghost seen = visited@;
        let ghost found = entry_maps(ifds@);
        let offset: u32 = match pending.pop() {
            Some(offset) => offset,
            None => return Ok(ifds),
        };
        assert(pending@ =~= before.drop_last());
        if offset == 0 || !visited.insert(offset) {
            assert(visited@ =~= seen);
            continue ;
        }
        if ifds.len() >= MAX_IFDS {
            return Err(TiffError::TooManyDirectories);
        }
        let (ifd, next) = match parse_ifd(bytes, endian, offset) {
            Ok(parsed) => parsed,
            Err(error) => return Err(error),
        };
        match ifd.entries.get(&TAG_SUB_IFDS) {
            Some(entry) => {
                let mut nested = match unsigned_values(bytes, endian, entry) {
                    Ok(nested) => nested,
                    Err(error) => return Err(error),
                };
                pending.append(&mut nested);
            },
            None => {},
        }
        pending.push(next);
        let ghost entries = ifd@;
        ifds.push(ifd);
        assert(entry_maps(ifds@) =~= found.push(entries));
    }
    Ok(ifds)
}

/// The first value of an entry that holds unsigned integers.
pub open spec fn first_value(
    bytes: Seq<u8>,
    endian: Endian,
    entries: Map<u16, TiffEntry>,
    tag: u16,
) -> Option<u32> {
    if entries.contains_key(tag) {
        match entry_unsigned(bytes, endian, entries[tag]) {
            Ok(values) => if values.len() > 0 {
                Some(values[0])
            } else {
                None
            },
            Err(_) => None,
        }
    } else {
        None
    }
}

/// Pixel count that a directory declares; a missing extent counts as zero.
pub open spec fn area(bytes: Seq<u8>, endian: Endian, entries: Map<u16, TiffEntry>) -> nat {
    let width = first_value(bytes, endian, entries, TAG_IMAGE_WIDTH).unwrap_or(0u32);
    let height = first_value(bytes, endian, entries, TAG_IMAGE_HEIGHT).unwrap_or(0u32);
    (width * height) as nat
}

fn first_of(bytes: &[u8], endian: Endian, ifd: &TiffIfd, tag: u16) -> (r: Option<u32>)
    ensures
        r == first_value(bytes@, endian, ifd@, tag),
{
    match ifd.entries.get(&tag) {
        None => None,
        Some(entry) => match unsigned_values(bytes, endian, entry) {
            Err(_) => None,
            Ok(values) => if values.len() > 0 {
                Some(values[0])
            } else {
                None
            },
        },
    }
}

/// Pixel count that a directory declares.
pub fn ifd_area(bytes: &[u8], endian: Endian, ifd: &TiffIfd) -> (r: u64)
    ensures
        r == area(bytes@, endian, ifd@),
{
    let width: u32 = match first_of(bytes, endian, ifd, TAG_IMAGE_WIDTH) {
        Some(width) => width,
        None => 0,
    };
    let height: u32 = match first_of(bytes, endian, ifd, TAG_IMAGE_HEIGHT) {
        Some(height) => height,
        None => 0,
    };
    assert(width * height <= 0xffff_ffff * 0xffff_ffff) by (nonlinear_arith)
        requires
            width <= 0xffff_ffff,
            height <= 0xffff_ffff,
    ;
    (width as u64) * (height as u64)
}

/// However the directories of a source point at each other, cycles included, the
/// walk ends with at most `MAX_IFDS` directories.
pub proof fn directory_walk_is_bounded(bytes: Seq<u8>, endian: Endian, first: u32)
    ensures
        directories(bytes, endian, first) matches Ok(found) ==> found.len() <= MAX_IFDS,
        directories(bytes, endian, first) matches Ok(found) ==> found.len() <= 32,
{
    lemma_reachable_bounded(bytes, endian, seq![first], Set::empty(), seq![]);
}

proof fn lemma_reachable_bounded(
    bytes: Seq<u8>,
    endian: Endian,
    pending: Seq<u32>,
    visited: Set<u32>,
    found: Seq<Map<u16, TiffEntry>>,
)
    requires
        found.len() <= MAX_IFDS,
    ensures
        reachable(bytes, endian, pending, visited, found) matches Ok(all) ==> all.len() <= MAX_IFDS,
    decreases MAX_IFDS - found.len(), pending.len(),
{
    if pending.len() > 0 {
        let offset = pending.last();
        let rest = pending.drop_last();
        if offset == 0 || visited.contains(offset) {
            lemma_reachable_bounded(bytes, endian, rest, visited, found);
        } else if found.len() < MAX_IFDS {
            match directory_at(bytes, endian, offset as int) {
                Err(_) => {},
                Ok((entries, next)) => {
                    let seen = visited.insert(offset);
                    if entries.contains_key(TAG_SUB_IFDS) {
                        match entry_unsigned(bytes, endian, entries[TAG_SUB_IFDS]) {
                            Err(_) => {},
                            Ok(nested) => {
                                lemma_reachable_bounded(
                                    bytes,
                                    endian,
                                    (rest + nested).push(next),
                                    seen,
                                    found.push(entries),
                                );
                            },
                        }
                    } else {
                        lemma_reachable_bounded(
                            bytes,
                            endian,
                            rest.push(next),
                            seen,
                            found.push(entries),
                        );
                    }
                },
            }
        }
    }
}

/// The order of bytes is what its name says: little ends begin with the byte that counts
/// least, and big ends are the same bytes the other way round. Signed numbers are the
/// unsigned ones, less two to the thirty-second where the highest bit is set.
pub proof fn bytes_count_by_their_places(endian: Endian, b: Seq<u8>)
    requires
        b.len() == 4,
    ensures
        u32_of(Endian::Little, b) == b[0] + 0x100 * (b[1] + 0x100 * (b[2] + 0x100 * b[3])),
        u32_of(Endian::Big, b) == u32_of(Endian::Little, b.reverse()),
        u16_of(Endian::Big, b.take(2)) == u16_of(Endian::Little, b.take(2).reverse()),
        u32_of(Endian::Little, b) == u16_of(Endian::Little, b.take(2)) + 0x10000 * u16_of(
            Endian::Little,
            b.skip(2),
        ),
        0 <= u32_of(endian, b) < 0x1_0000_0000,
        -0x8000_0000 <= i32_of(endian, b) < 0x8000_0000,
        i32_of(endian, b) == u32_of(endian, b) || i32_of(endian, b) == u32_of(endian, b)
            - 0x1_0000_0000,
{
    let r = b.reverse();
    assert(r[0] == b[3] && r[1] == b[2] && r[2] == b[1] && r[3] == b[0]);
    let t = b.take(2);
    assert(t.reverse()[0] == t[1] && t.reverse()[1] == t[0]);
}

pub(crate) proof fn lemma_data_len(bytes: Seq<u8>, endian: Endian, entry: TiffEntry)
    requires
        entry_data(bytes, endian, entry) is Ok,
    ensures
        field_width(entry.field_type) == Some(1nat) ==> entry_data(bytes, endian, entry)->Ok_0.len()
            == entry.count,
        field_width(entry.field_type) == Some(2nat) ==> entry_data(bytes, endian, entry)->Ok_0.len()
            == 2 * entry.count,
        field_width(entry.field_type) == Some(4nat) ==> entry_data(bytes, endian, entry)->Ok_0.len()
            == 4 * entry.count,
        field_width(entry.field_type) == Some(8nat) ==> entry_data(bytes, endian, entry)->Ok_0.len()
            == 8 * entry.count,
{
    let width = field_width(entry.field_type).unwrap();
    let count = entry.count;
    assert(width == 1 ==> width * count == count) by (nonlinear_arith);
    assert(width == 2 ==> width * count == 2 * count) by (nonlinear_arith);
    assert(width == 4 ==> width * count == 4 * count) by (nonlinear_arith);
    assert(width == 8 ==> width * count == 8 * count) by (nonlinear_arith);
}

/// An entry holds as many values as it says, each as wide as its field type: one byte for
/// bytes, text and what is undefined, two for shorts, four for longs and floats, eight for
/// rationals and doubles. Data of four bytes or fewer stands in the entry itself, in its
/// first bytes; longer data stands in the file, from the offset that the entry gives.
pub proof fn entries_hold_what_they_declare(bytes: Seq<u8>, endian: Endian, entry: TiffEntry, i: int)
    requires
        entry_data(bytes, endian, entry) is Ok,
        0 <= i < entry_data(bytes, endian, entry)->Ok_0.len(),
    ensures
        ({
            let data = entry_data(bytes, endian, entry)->Ok_0;
            let kind = entry.field_type;
            &&& kind == 1 || kind == 2 || kind == 6 || kind == 7 ==> data.len() == entry.count
            &&& kind == 3 || kind == 8 ==> data.len() == 2 * entry.count
            &&& kind == 4 || kind == 9 || kind == 11 ==> data.len() == 4 * entry.count
            &&& kind == 5 || kind == 10 || kind == 12 ==> data.len() == 8 * entry.count
            &&& 1 <= kind <= 12
            &&& entry.count <= 4096
            &&& data.len() <= 4 ==> data[i] == entry.value@[i]
            &&& data.len() > 4 ==> {
                &&& u32_of(endian, entry.value@) + i < bytes.len()
                &&& data[i] == bytes[u32_of(endian, entry.value@) + i]
            }
        }),
{
    lemma_data_len(bytes, endian, entry);
}

/// Unsigned values are as many as the entry counts, and each is read from its own place:
/// bytes one by one, shorts from two bytes and longs from four, in the order of the file.
/// Nothing but bytes, undefined bytes, shorts and longs is unsigned.
pub proof fn unsigned_values_are_read_in_place(
    bytes: Seq<u8>,
    endian: Endian,
    entry: TiffEntry,
    i: int,
)
    requires
        entry_unsigned(bytes, endian, entry) is Ok,
        0 <= i < entry.count,
    ensures
        ({
            let values = entry_unsigned(bytes, endian, entry)->Ok_0;
            let data = entry_data(bytes, endian, entry)->Ok_0;
            &&& values.len() == entry.count
            &&& entry.field_type == 1 || entry.field_type == 7 ==> values[i] == data[i]
            &&& entry.field_type == 3 ==> values[i] == u16_of(
                endian,
                seq![data[2 * i], data[2 * i + 1]],
            )
            &&& entry.field_type == 4 ==> values[i] == u32_of(
                endian,
                seq![data[4 * i], data[4 * i + 1], data[4 * i + 2], data[4 * i + 3]],
            )
            &&& entry.field_type == 1 || entry.field_type == 3 || entry.field_type == 4
                || entry.field_type == 7
        }),
{
    let data = entry_data(bytes, endian, entry)->Ok_0;
    lemma_data_len(bytes, endian, entry);
    if entry.field_type == 3 {
        assert(data.subrange(2 * i, 2 * i + 2) =~= seq![data[2 * i], data[2 * i + 1]]);
    }
    if entry.field_type == 4 {
        assert(data.subrange(4 * i, 4 * i + 4) =~= seq![
            data[4 * i],
            data[4 * i + 1],
            data[4 * i + 2],
            data[4 * i + 3],
        ]);
    }
}

/// A directory has an entry under a tag exactly where one of its records has that tag, and
/// it is the last such record.
pub proof fn the_last_record_of_a_tag_counts(
    bytes: Seq<u8>,
    endian: Endian,
    start: int,
    count: nat,
    k: int,
)
    requires
        0 <= k < count,
        forall|j: int|
            k < j < count ==> u16_of(
                endian,
                #[trigger] bytes.subrange(start + 12 * j, start + 12 * j + 2),
            ) != u16_of(endian, bytes.subrange(start + 12 * k, start + 12 * k + 2)),
        0 <= start,
        start + 12 * count <= bytes.len(),
    ensures
        ({
            let tag = u16_of(endian, bytes.subrange(start + 12 * k, start + 12 * k + 2)) as u16;
            let found = entries_from(bytes, endian, start, count);
            &&& found.contains_key(tag)
            &&& found[tag].field_type == u16_of(
                endian,
                bytes.subrange(start + 12 * k + 2, start + 12 * k + 4),
            )
            &&& found[tag].count == u32_of(
                endian,
                bytes.subrange(start + 12 * k + 4, start + 12 * k + 8),
            )
            &&& found[tag].value@ == bytes.subrange(start + 12 * k + 8, start + 12 * k + 12)
        }),
    decreases count,
{
    let last = (count - 1) as nat;
    let at = start + 12 * k;
    let tag = u16_of(endian, bytes.subrange(at, at + 2)) as u16;
    if k < last {
        the_last_record_of_a_tag_counts(bytes, endian, start, last, k);
        assert(u16_of(endian, bytes.subrange(start + 12 * last, start + 12 * last + 2)) != u16_of(
            endian,
            bytes.subrange(at, at + 2),
        ));
    } else {
        let e = entry_at(bytes, endian, at);
        assert(e.value@ =~= bytes.subrange(at + 8, at + 12));
    }
}

/// A directory lies as its own count says: a count of two bytes, that many records of twelve
/// bytes, and then the offset of the directory that follows, all of it inside the file.
pub proof fn directories_lie_as_they_count(bytes: Seq<u8>, endian: Endian, offset: int)
    requires
        0 <= offset,
        directory_at(bytes, endian, offset) is Ok,
    ensures
        ({
            let count = u16_of(endian, bytes.subrange(offset, offset + 2));
            let (entries, next) = directory_at(bytes, endian, offset)->Ok_0;
            &&& offset + 6 + 12 * count <= bytes.len()
            &&& count <= 4096
            &&& entries == entries_from(bytes, endian, offset + 2, count as nat)
            &&& next == u32_of(
                endian,
                bytes.subrange(offset + 2 + 12 * count, offset + 6 + 12 * count),
            )
        }),
{
}

proof fn lemma_found_kept(
    bytes: Seq<u8>,
    endian: Endian,
    pending: Seq<u32>,
    visited: Set<u32>,
    found: Seq<Map<u16, TiffEntry>>,
)
    requires
        found.len() <= MAX_IFDS,
    ensures
        reachable(bytes, endian, pending, visited, found) matches Ok(all) ==> {
            &&& found.len() <= all.len()
            &&& all.take(found.len() as int) == found
        },
    decreases MAX_IFDS - found.len(), pending.len(),
{
    if pending.len() == 0 {
        assert(found.take(found.len() as int) =~= found);
    } else {
        let offset = pending.last();
        let rest = pending.drop_last();
        if offset == 0 || visited.contains(offset) {
            lemma_found_kept(bytes, endian, rest, visited, found);
        } else if found.len() < MAX_IFDS {
            match directory_at(bytes, endian, offset as int) {
                Err(_) => {},
                Ok((entries, next)) => {
                    let seen = visited.insert(offset);
                    let more = found.push(entries);
                    let nested = if entries.contains_key(TAG_SUB_IFDS) {
                        match entry_unsigned(bytes, endian, entries[TAG_SUB_IFDS]) {
                            Ok(nested) => Some((rest + nested).push(next)),
                            Err(_) => None,
                        }
                    } else {
                        Some(rest.push(next))
                    };
                    if nested is Some {
                        lemma_found_kept(bytes, endian, nested.unwrap(), seen, more);
                        match reachable(bytes, endian, nested.unwrap(), seen, more) {
                            Ok(all) => {
                                assert(all.take(found.len() as int) =~= all.take(
                                    more.len() as int,
                                ).take(found.len() as int));
                                assert(more.take(found.len() as int) =~= found);
                            },
                            Err(_) => {},
                        }
                    }
                },
            }
        }
    }
}

/// A source begins with the directory that its header points at; a header that points
/// nowhere has no directories.
pub proof fn sources_begin_where_they_point(bytes: Seq<u8>, endian: Endian, first: u32)
    ensures
        first == 0 ==> directories(bytes, endian, first) == Ok::<
            Seq<Map<u16, TiffEntry>>,
            TiffError,
        >(seq![]),
        first != 0 && directories(bytes, endian, first) is Ok ==> {
            &&& directory_at(bytes, endian, first as int) is Ok
            &&& directories(bytes, endian, first)->Ok_0.len() > 0
            &&& directories(bytes, endian, first)->Ok_0[0] == directory_at(
                bytes,
                endian,
                first as int,
            )->Ok_0.0
        },
{
    let pending = seq![first];
    assert(pending.last() == first);
    assert(pending.drop_last() =~= seq![]);
    let rest = pending.drop_last();
    if first == 0 {
        assert(reachable(bytes, endian, rest, Set::empty(), seq![]) == Ok::<
            Seq<Map<u16, TiffEntry>>,
            TiffError,
        >(seq![]));
    } else if directories(bytes, endian, first) is Ok {
        let (entries, next) = directory_at(bytes, endian, first as int)->Ok_0;
        let seen = Set::<u32>::empty().insert(first);
        let found = Seq::<Map<u16, TiffEntry>>::empty().push(entries);
        let onward = if entries.contains_key(TAG_SUB_IFDS) {
            (rest + entry_unsigned(bytes, endian, entries[TAG_SUB_IFDS])->Ok_0).push(next)
        } else {
            rest.push(next)
        };
        lemma_found_kept(bytes, endian, onward, seen, found);
        let all = directories(bytes, endian, first)->Ok_0;
        assert(all.take(1)[0] == all[0]);
    }
}

/// The pixels of a directory are its width, under tag 256, times its height, under tag 257.
pub proof fn areas_are_width_by_height(bytes: Seq<u8>, endian: Endian, entries: Map<u16, TiffEntry>)
    ensures
        match (first_value(bytes, endian, entries, 256), first_value(bytes, endian, entries, 257)) {
            (Some(width), Some(height)) => area(bytes, endian, entries) == width * height,
            _ => area(bytes, endian, entries) == 0,
        },
{
}

/// The walk goes on behind the first directory: to the one that follows it, and where none
/// follows to the last one that it nests under tag 330.
pub proof fn walks_follow_and_nest(bytes: Seq<u8>, endian: Endian, first: u32)
    requires
        first != 0,
        directories(bytes, endian, first) is Ok,
        directory_at(bytes, endian, first as int) is Ok,
    ensures
        ({
            let all = directories(bytes, endian, first)->Ok_0;
            let (entries, next) = directory_at(bytes, endian, first as int)->Ok_0;
            &&& next != 0 && next != first ==> {
                &&& directory_at(bytes, endian, next as int) is Ok
                &&& all.len() >= 2
                &&& all[1] == directory_at(bytes, endian, next as int)->Ok_0.0
            }
            &&& next == 0 && entries.contains_key(330) ==> {
                let nested = entry_unsigned(bytes, endian, entries[330])->Ok_0;
                &&& entry_unsigned(bytes, endian, entries[330]) is Ok
                &&& nested.len() > 0 && nested.last() != 0 && nested.last() != first ==> {
                    &&& directory_at(bytes, endian, nested.last() as int) is Ok
                    &&& all.len() >= 2
                    &&& all[1] == directory_at(bytes, endian, nested.last() as int)->Ok_0.0
                }
            }
        }),
{
    let all = directories(bytes, endian, first)->Ok_0;
    let (entries, next) = directory_at(bytes, endian, first as int)->Ok_0;
    let seen = Set::<u32>::empty().insert(first);
    let found = Seq::<Map<u16, TiffEntry>>::empty().push(entries);
    let none = Seq::<u32>::empty();
    let start = seq![first];
    assert(start.last() == first && start.drop_last() =~= none);
    let before = if entries.contains_key(TAG_SUB_IFDS) {
        none + entry_unsigned(bytes, endian, entries[TAG_SUB_IFDS])->Ok_0
    } else {
        none
    };
    let onward = before.push(next);
    assert(onward.last() == next && onward.drop_last() =~= before);
    assert(reachable(bytes, endian, onward, seen, found) == directories(bytes, endian, first));
    if next != 0 && next != first {
        lemma_second_found(bytes, endian, onward, seen, found, next);
    }
    if next == 0 {
        assert(reachable(bytes, endian, before, seen, found) == directories(bytes, endian, first));
        if before.len() > 0 {
            let last = before.last();
            if last != 0 && last != first {
                lemma_second_found(bytes, endian, before, seen, found, last);
            }
            if entries.contains_key(TAG_SUB_IFDS) {
                assert(before =~= entry_unsigned(bytes, endian, entries[TAG_SUB_IFDS])->Ok_0);
            }
        } else if entries.contains_key(TAG_SUB_IFDS) {
            assert(before =~= entry_unsigned(bytes, endian, entries[TAG_SUB_IFDS])->Ok_0);
        }
    }
}

proof fn lemma_second_found(
    bytes: Seq<u8>,
    endian: Endian,
    pending: Seq<u32>,
    visited: Set<u32>,
    found: Seq<Map<u16, TiffEntry>>,
    offset: u32,
)
    requires
        pending.len() > 0,
        pending.last() == offset,
        offset != 0,
        !visited.contains(offset),
        found.len() == 1,
        reachable(bytes, endian, pending, visited, found) is Ok,
    ensures
        directory_at(bytes, endian, offset as int) is Ok,
        reachable(bytes, endian, pending, visited, found)->Ok_0.len() >= 2,
        reachable(bytes, endian, pending, visited, found)->Ok_0[1] == directory_at(
            bytes,
            endian,
            offset as int,
        )->Ok_0.0,
{
    let all = reachable(bytes, endian, pending, visited, found)->Ok_0;
    let (entries, next) = directory_at(bytes, endian, offset as int)->Ok_0;
    let rest = pending.drop_last();
    let more = found.push(entries);
    let seen = visited.insert(offset);
    let onward = if entries.contains_key(TAG_SUB_IFDS) {
        (rest + entry_unsigned(bytes, endian, entries[TAG_SUB_IFDS])->Ok_0).push(next)
    } else {
        rest.push(next)
    };
    lemma_found_kept(bytes, endian, onward, seen, more);
    assert(all.take(2)[1] == all[1]);
}

/// Bytes, texts and undefined bytes are one byte wide, shorts two, longs and floats four, and
/// rationals and doubles eight, whatever their sign. No other type has a width.
pub proof fn field_types_have_their_width(field_type: u16)
    ensures
        field_type == 1 || field_type == 2 || field_type == 6 || field_type == 7 ==> field_width(
            field_type,
        ) == Some(1nat),
        field_type == 3 || field_type == 8 ==> field_width(field_type) == Some(2nat),
        field_type == 4 || field_type == 9 || field_type == 11 ==> field_width(field_type) == Some(
            4nat,
        ),
        field_type == 5 || field_type == 10 || field_type == 12 ==> field_width(field_type) == Some(
            8nat,
        ),
        field_type < 1 || field_type > 12 ==> field_width(field_type) is None,
{
}

} // verus!
