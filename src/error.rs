//! The failures that decoding a container, an archive or a model header can report.
use vstd::prelude::*;

verus! {

/// Why a buffer could not be decoded.
#[derive(Clone, Copy, Debug, PartialEq, Eq, Structural)]
pub enum FormatError {
    /// The buffer is shorter than its fixed header, or the magic tag differs.
    MalformedHeader,
    /// The container names a compression algorithm outside the recognised set.
    UnsupportedAlgorithm,
    /// The compressed payload is truncated or inconsistent.
    CorruptStream,
    /// The archive's entry table runs past the end of the buffer.
    TruncatedEntryTable,
    /// An archive entry's byte range (or path) lies outside the buffer.
    InvalidEntryRange,
    /// The endianness marker is neither little- nor big-endian.
    UnknownEndianness,
    /// A typed view or record array would read past the end of the buffer.
    TruncatedBuffer,
    /// A record index at or past the record count.
    IndexOutOfRange,
}

} // verus!
