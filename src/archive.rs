//! The archive directory: a little-endian header, a table of fixed-size
//! entries, and the path strings and payloads those entries point at.
use crate::dcx::{decode_container, decompress};
use crate::endian::{field_u32, get_u32, Endian};
use crate::error::FormatError;
use vstd::prelude::*;

verus! {

/// Length of the archive header: magic `BND4`, flags, entry count.
pub const ARCHIVE_HEADER_SIZE: usize = 12;

/// Length of one entry of the table that follows the header: flags,
/// compressed size, uncompressed size, data offset, path offset, path length.
pub const ARCHIVE_ENTRY_SIZE: usize = 24;

/// Entry flag: the entry's bytes are a container of their own.
pub const ENTRY_COMPRESSED: u32 = 1;

pub open spec fn archive_header_ok(b: Seq<u8>) -> bool {
    &&& b.len() >= ARCHIVE_HEADER_SIZE
    &&& b[0] == 0x42u8
    &&& b[1] == 0x4Eu8
    &&& b[2] == 0x44u8
    &&& b[3] == 0x34u8
}

pub open spec fn archive_flags(b: Seq<u8>) -> int {
    field_u32(b, 4, Endian::Little)
}

pub open spec fn archive_entry_count(b: Seq<u8>) -> int {
    field_u32(b, 8, Endian::Little)
}

/// The table of `archive_entry_count(b)` entries ends within the buffer.
pub open spec fn archive_table_fits(b: Seq<u8>) -> bool {
    ARCHIVE_HEADER_SIZE + ARCHIVE_ENTRY_SIZE * archive_entry_count(b) <= b.len()
}

/// The 32-bit field at `k` within entry `i` of the table.
pub open spec fn entry_field(b: Seq<u8>, i: int, k: int) -> int {
    field_u32(b, ARCHIVE_HEADER_SIZE + ARCHIVE_ENTRY_SIZE * i + k, Endian::Little)
}

/// Entry `i`'s data range and path range lie within the buffer.
pub open spec fn entry_in_bounds(b: Seq<u8>, i: int) -> bool {
    &&& entry_field(b, i, 12) + entry_field(b, i, 4) <= b.len()
    &&& entry_field(b, i, 16) + entry_field(b, i, 20) <= b.len()
}

/// The verdict on the structure of an archive buffer, stage by stage.
pub open spec fn archive_check(b: Seq<u8>) -> Result<(), FormatError> {
    if !archive_header_ok(b) {
        Err(FormatError::MalformedHeader)
    } else if !archive_table_fits(b) {
        Err(FormatError::TruncatedEntryTable)
    } else if exists|i: int| 0 <= i < archive_entry_count(b) && !entry_in_bounds(b, i) {
        Err(FormatError::InvalidEntryRange)
    } else {
        Ok(())
    }
}

pub open spec fn is_compressed(flags: u32) -> bool {
    flags & ENTRY_COMPRESSED != 0
}

/// One entry of the directory: its virtual path and where its bytes lie.
#[derive(Clone, Debug)]
pub struct ArchiveEntry {
    /// Backslash-delimited virtual path, drive prefix included (`N:\a\b.dat`).
    pub path: Vec<u8>,
    pub flags: u32,
    pub compressed_size: u32,
    pub uncompressed_size: u32,
    pub offset: u32,
}

/// Entry `e` holds the fields of entry `i` of the table in `b`.
pub open spec fn entry_describes(e: ArchiveEntry, b: Seq<u8>, i: int) -> bool {
    &&& e.flags as int == entry_field(b, i, 0)
    &&& e.compressed_size as int == entry_field(b, i, 4)
    &&& e.uncompressed_size as int == entry_field(b, i, 8)
    &&& e.offset as int == entry_field(b, i, 12)
    &&& e.path@ == b.subrange(entry_field(b, i, 16), entry_field(b, i, 16) + entry_field(b, i, 20))
}

/// The byte range of `buffer` that the entry declares.
pub open spec fn entry_range_ok(e: ArchiveEntry, buffer: Seq<u8>) -> bool {
    e.offset as int + e.compressed_size as int <= buffer.len()
}

/// What extracting entry `e` from `buffer` yields: the declared range, decoded
/// as a container when the entry is compressed on its own.
pub open spec fn entry_data(e: ArchiveEntry, buffer: Seq<u8>) -> Result<Seq<u8>, FormatError> {
    if !entry_range_ok(e, buffer) {
        Err(FormatError::InvalidEntryRange)
    } else {
        let raw = buffer.subrange(e.offset as int, e.offset as int + e.compressed_size as int);
        if is_compressed(e.flags) {
            decode_container(raw)
        } else {
            Ok(raw)
        }
    }
}

impl ArchiveEntry {
    /// Copies the entry's bytes out of `buffer`, decompressing them when the
    /// entry's flags say they are a container. Fails with `InvalidEntryRange`
    /// when the range lies outside `buffer`; never changes `buffer`.
    pub fn bytes(&self, buffer: &[u8]) -> (r: Result<Vec<u8>, FormatError>)
        ensures
            r matches Ok(v) ==> entry_data(*self, buffer@) == Ok::<Seq<u8>, FormatError>(v@),
            r matches Err(e) ==> entry_data(*self, buffer@) == Err::<Seq<u8>, FormatError>(e),
    {
        let len = buffer.len();
        let start = self.offset as usize;
        let n = self.compressed_size as usize;
        if n > len || start > len - n {
            return Err(FormatError::InvalidEntryRange);
        }
        let raw = vstd::slice::slice_subrange(buffer, start, start + n);
        if self.flags & ENTRY_COMPRESSED != 0 {
            decompress(raw)
        } else {
            Ok(vstd::slice::slice_to_vec(raw))
        }
    }
}

/// A parsed archive directory; entries keep their on-disk order.
#[derive(Clone, Debug)]
pub struct ArchiveDirectory {
    pub flags: u32,
    pub entries: Vec<ArchiveEntry>,
}

impl ArchiveDirectory {
    /// The directory holds exactly the header and entry table of `b`.
    pub open spec fn describes(&self, b: Seq<u8>) -> bool {
        &&& archive_check(b) is Ok
        &&& self.flags as int == archive_flags(b)
        &&& self.entries@.len() == archive_entry_count(b)
        &&& forall|i: int| 0 <= i < self.entries@.len() ==> entry_describes(self.entries@[i], b, i)
    }

    /// Parses the header and entry table of a decompressed buffer, checking
    /// every entry's ranges up front.
    pub fn from_bytes(data: &[u8]) -> (r: Result<ArchiveDirectory, FormatError>)
        ensures
            r is Ok <==> archive_check(data@) is Ok,
            r matches Err(e) ==> archive_check(data@) == Err::<(), FormatError>(e),
            r matches Ok(d) ==> d.describes(data@),
    {
        let len = data.len();
        if len < ARCHIVE_HEADER_SIZE || data[0] != 0x42u8 || data[1] != 0x4Eu8 || data[2] != 0x44u8
            || data[3] != 0x34u8 {
            return Err(FormatError::MalformedHeader);
        }
        let flags = get_u32(data, 4, Endian::Little);
        let count = get_u32(data, 8, Endian::Little);
        if (count as u64) * (ARCHIVE_ENTRY_SIZE as u64) + (ARCHIVE_HEADER_SIZE as u64) > len as u64 {
            return Err(FormatError::TruncatedEntryTable);
        }
        let mut entries: Vec<ArchiveEntry> = Vec::new();
        let mut i: usize = 0;
        while i < count as usize
            invariant
                len == data@.len(),
                archive_header_ok(data@),
                count as int == archive_entry_count(data@),
                archive_table_fits(data@),
                i <= count,
                entries@.len() == i,
                forall|j: int| 0 <= j < i ==> entry_in_bounds(data@, j),
                forall|j: int| 0 <= j < i ==> entry_describes(entries@[j], data@, j),
            decreases count - i,
        {
            let base = ARCHIVE_HEADER_SIZE + ARCHIVE_ENTRY_SIZE * i;
            let e_flags = get_u32(data, base, Endian::Little);
            let csize = get_u32(data, base + 4, Endian::Little);
            let usize_ = get_u32(data, base + 8, Endian::Little);
            let offset = get_u32(data, base + 12, Endian::Little);
            let path_off = get_u32(data, base + 16, Endian::Little);
            let path_len = get_u32(data, base + 20, Endian::Little);
            if offset as u64 + csize as u64 > len as u64 || path_off as u64 + path_len as u64
                > len as u64 {
                assert(!entry_in_bounds(data@, i as int));
                return Err(FormatError::InvalidEntryRange);
            }
            let p = vstd::slice::slice_subrange(
                data,
                path_off as usize,
                path_off as usize + path_len as usize,
            );
            let entry = ArchiveEntry {
                path: vstd::slice::slice_to_vec(p),
                flags: e_flags,
                compressed_size: csize,
                uncompressed_size: usize_,
                offset,
            };
            entries.push(entry);
            i = i + 1;
        }
        Ok(ArchiveDirectory { flags, entries })
    }
}

/// Every entry of a directory parsed from `b` is extractable from `b`: its
/// declared range lies inside `b`, so extraction reads nothing outside it and
/// never fails with `InvalidEntryRange`; an entry that is not compressed on
/// its own yields exactly its declared range. Since `ArchiveEntry::bytes`
/// returns `entry_data(entry, b)`, extracting an entry twice gives the same bytes.
pub proof fn lemma_entries_extractable(d: ArchiveDirectory, b: Seq<u8>, i: int)
    requires
        d.describes(b),
        0 <= i < d.entries@.len(),
    ensures
        entry_range_ok(d.entries@[i], b),
        entry_data(d.entries@[i], b) != Err::<Seq<u8>, FormatError>(FormatError::InvalidEntryRange),
        !is_compressed(d.entries@[i].flags) ==> entry_data(d.entries@[i], b) == Ok::<
            Seq<u8>,
            FormatError,
        >(
            b.subrange(
                d.entries@[i].offset as int,
                d.entries@[i].offset as int + d.entries@[i].compressed_size as int,
            ),
        ),
{
    assert(entry_in_bounds(b, i));
}

} // verus!
