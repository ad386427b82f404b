//! Byte order tags and the integer reads that every structured view goes through.
use byteorder::ByteOrder;
use vstd::prelude::*;

verus! {

/// The byte order in which the multi-byte fields of a buffer are stored.
#[derive(Clone, Copy, Debug, PartialEq, Eq, Structural)]
pub enum Endian {
    Little,
    Big,
}

/// Unsigned 16-bit value of two bytes, least significant first.
pub open spec fn le_u16(b: Seq<u8>) -> int {
    b[0] as int + 256 * (b[1] as int)
}

/// Unsigned 16-bit value of two bytes, most significant first.
pub open spec fn be_u16(b: Seq<u8>) -> int {
    b[1] as int + 256 * (b[0] as int)
}

/// Unsigned 32-bit value of four bytes, least significant first.
pub open spec fn le_u32(b: Seq<u8>) -> int {
    b[0] as int + 256 * (b[1] as int) + 65536 * (b[2] as int) + 16777216 * (b[3] as int)
}

/// Unsigned 32-bit value of four bytes, most significant first.
pub open spec fn be_u32(b: Seq<u8>) -> int {
    b[3] as int + 256 * (b[2] as int) + 65536 * (b[1] as int) + 16777216 * (b[0] as int)
}

/// The 16-bit field stored at `off` of `b` in byte order `e`.
pub open spec fn field_u16(b: Seq<u8>, off: int, e: Endian) -> int {
    let s = b.subrange(off, off + 2);
    match e {
        Endian::Little => le_u16(s),
        Endian::Big => be_u16(s),
    }
}

/// The 32-bit field stored at `off` of `b` in byte order `e`.
pub open spec fn field_u32(b: Seq<u8>, off: int, e: Endian) -> int {
    let s = b.subrange(off, off + 4);
    match e {
        Endian::Little => le_u32(s),
        Endian::Big => be_u32(s),
    }
}

/// Relies on byteorder's `LittleEndian::read_u16`, which decodes `buf[..2]`.
#[verifier::external_body]
fn read_u16_le(buf: &[u8]) -> (r: u16)
    requires
        buf@.len() >= 2,
    ensures
        r as int == le_u16(buf@),
{
    byteorder::LittleEndian::read_u16(buf)
}

/// Relies on byteorder's `BigEndian::read_u16`, which decodes `buf[..2]`.
#[verifier::external_body]
fn read_u16_be(buf: &[u8]) -> (r: u16)
    requires
        buf@.len() >= 2,
    ensures
        r as int == be_u16(buf@),
{
    byteorder::BigEndian::read_u16(buf)
}

/// Relies on byteorder's `LittleEndian::read_u32`, which decodes `buf[..4]`.
#[verifier::external_body]
fn read_u32_le(buf: &[u8]) -> (r: u32)
    requires
        buf@.len() >= 4,
    ensures
        r as int == le_u32(buf@),
{
    byteorder::LittleEndian::read_u32(buf)
}

/// Relies on byteorder's `BigEndian::read_u32`, which decodes `buf[..4]`.
#[verifier::external_body]
fn read_u32_be(buf: &[u8]) -> (r: u32)
    requires
        buf@.len() >= 4,
    ensures
        r as int == be_u32(buf@),
{
    byteorder::BigEndian::read_u32(buf)
}

/// Reads the 16-bit field at `off`, decoding it in byte order `e`.
pub fn get_u16(b: &[u8], off: usize, e: Endian) -> (r: u16)
    requires
        off + 2 <= b@.len(),
    ensures
        r as int == field_u16(b@, off as int, e),
{
    // The slice's length bounds `off + k` below `usize::MAX`.
    let _len = b.len();
    let s = vstd::slice::slice_subrange(b, off, off + 2);
    match e {
        Endian::Little => read_u16_le(s),
        Endian::Big => read_u16_be(s),
    }
}

/// Reads the 32-bit field at `off`, decoding it in byte order `e`.
pub fn get_u32(b: &[u8], off: usize, e: Endian) -> (r: u32)
    requires
        off + 4 <= b@.len(),
    ensures
        r as int == field_u32(b@, off as int, e),
{
    // The slice's length bounds `off + k` below `usize::MAX`.
    let _len = b.len();
    let s = vstd::slice::slice_subrange(b, off, off + 4);
    match e {
        Endian::Little => read_u32_le(s),
        Endian::Big => read_u32_be(s),
    }
}

/// A 32-bit field reads the same in either byte order once its bytes are
/// stored reversed.
pub proof fn lemma_u32_reversed(b: Seq<u8>)
    requires
        b.len() == 4,
    ensures
        le_u32(b) == be_u32(b.reverse()),
        be_u32(b) == le_u32(b.reverse()),
{
}

/// A 16-bit field reads the same in either byte order once its bytes are
/// stored reversed.
pub proof fn lemma_u16_reversed(b: Seq<u8>)
    requires
        b.len() == 2,
    ensures
        le_u16(b) == be_u16(b.reverse()),
        be_u16(b) == le_u16(b.reverse()),
{
}

} // verus!
