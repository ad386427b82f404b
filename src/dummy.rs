//! Dummy points: fixed-size records that follow the model header, and the
//! bounds-checked array view over them.
use crate::endian::{field_u16, field_u32, get_u16, get_u32, Endian};
use crate::error::FormatError;
use vstd::prelude::*;

verus! {

/// Length of one dummy-point record.
pub const DUMMY_SIZE: usize = 64;

/// Two's-complement value of a 16-bit field.
pub open spec fn signed16(v: int) -> int {
    if v >= 32768 {
        v - 65536
    } else {
        v
    }
}

fn get_i16(b: &[u8], off: usize, e: Endian) -> (r: i16)
    requires
        off + 2 <= b@.len(),
    ensures
        r as int == signed16(field_u16(b@, off as int, e)),
{
    let v = get_u16(b, off, e);
    let s: i32 = if v >= 32768 {
        v as i32 - 65536
    } else {
        v as i32
    };
    s as i16
}

/// One dummy-point record, read in place.
#[derive(Clone, Copy, Debug)]
pub struct FlverDummy<'a> {
    bytes: &'a [u8],
    endian: Endian,
}

impl<'a> FlverDummy<'a> {
    /// The record's bytes.
    pub closed spec fn raw(&self) -> Seq<u8> {
        self.bytes@
    }

    /// The byte order its fields are decoded in.
    pub closed spec fn order(&self) -> Endian {
        self.endian
    }

    pub open spec fn wf(&self) -> bool {
        self.raw().len() == DUMMY_SIZE
    }

    /// Bit pattern of the `axis` coordinate of the position (an IEEE-754 single).
    pub fn position_bits(&self, axis: usize) -> (r: u32)
        requires
            self.wf(),
            axis < 3,
        ensures
            r as int == field_u32(self.raw(), 4 * axis as int, self.order()),
    {
        get_u32(self.bytes, 4 * axis, self.endian)
    }

    /// Byte `i` of the colour, stored as four single bytes.
    pub fn color(&self, i: usize) -> (r: u8)
        requires
            self.wf(),
            i < 4,
        ensures
            r == self.raw()[12 + i],
    {
        self.bytes[12 + i]
    }

    /// Bit pattern of the `axis` coordinate of the forward vector.
    pub fn forward_bits(&self, axis: usize) -> (r: u32)
        requires
            self.wf(),
            axis < 3,
        ensures
            r as int == field_u32(self.raw(), 16 + 4 * axis as int, self.order()),
    {
        get_u32(self.bytes, 16 + 4 * axis, self.endian)
    }

    pub fn reference_id(&self) -> (r: i16)
        requires
            self.wf(),
        ensures
            r as int == signed16(field_u16(self.raw(), 28, self.order())),
    {
        get_i16(self.bytes, 28, self.endian)
    }

    pub fn parent_bone_index(&self) -> (r: i16)
        requires
            self.wf(),
        ensures
            r as int == signed16(field_u16(self.raw(), 30, self.order())),
    {
        get_i16(self.bytes, 30, self.endian)
    }

    /// Bit pattern of the `axis` coordinate of the upward vector.
    pub fn upward_bits(&self, axis: usize) -> (r: u32)
        requires
            self.wf(),
            axis < 3,
        ensures
            r as int == field_u32(self.raw(), 32 + 4 * axis as int, self.order()),
    {
        get_u32(self.bytes, 32 + 4 * axis, self.endian)
    }

    pub fn attach_bone_index(&self) -> (r: i16)
        requires
            self.wf(),
        ensures
            r as int == signed16(field_u16(self.raw(), 44, self.order())),
    {
        get_i16(self.bytes, 44, self.endian)
    }

    pub fn flag1(&self) -> (r: u8)
        requires
            self.wf(),
        ensures
            r == self.raw()[46],
    {
        self.bytes[46]
    }

    pub fn use_upward_vector(&self) -> (r: u8)
        requires
            self.wf(),
        ensures
            r == self.raw()[47],
    {
        self.bytes[47]
    }
}

/// A borrowed run of `count` dummy records in one byte order.
#[derive(Clone, Copy, Debug)]
pub struct DummyArray<'a> {
    bytes: &'a [u8],
    count: usize,
    endian: Endian,
}

impl<'a> DummyArray<'a> {
    /// The bytes of all the records, back to back.
    pub closed spec fn raw(&self) -> Seq<u8> {
        self.bytes@
    }

    pub closed spec fn order(&self) -> Endian {
        self.endian
    }

    pub closed spec fn count(&self) -> nat {
        self.count as nat
    }

    pub open spec fn wf(&self) -> bool {
        self.raw().len() == self.count() * DUMMY_SIZE
    }

    /// The bytes of record `i`.
    pub open spec fn record(&self, i: int) -> Seq<u8> {
        self.raw().subrange(DUMMY_SIZE * i, DUMMY_SIZE * i + DUMMY_SIZE)
    }

    /// Casts the first `count` records of `bytes`, read in byte order `endian`,
    /// and returns the bytes after them; fails with `TruncatedBuffer` when
    /// `count` records do not fit.
    pub fn from_prefix(bytes: &'a [u8], count: usize, endian: Endian) -> (r: Result<
        (DummyArray<'a>, &'a [u8]),
        FormatError,
    >)
        ensures
            r is Ok <==> count * DUMMY_SIZE <= bytes@.len(),
            r is Err ==> r->Err_0 == FormatError::TruncatedBuffer,
            r matches Ok((a, rest)) ==> {
                &&& a.wf()
                &&& a.count() == count
                &&& a.order() == endian
                &&& a.raw() == bytes@.subrange(0, count * DUMMY_SIZE)
                &&& rest@ == bytes@.subrange(count * DUMMY_SIZE, bytes@.len() as int)
            },
    {
        let len = bytes.len();
        if count > len / DUMMY_SIZE {
            assert(count * DUMMY_SIZE > len) by (nonlinear_arith)
                requires
                    count > len / 64,
            ;
            return Err(FormatError::TruncatedBuffer);
        }
        assert(count * DUMMY_SIZE <= len) by (nonlinear_arith)
            requires
                count <= len / 64,
        ;
        let n = count * DUMMY_SIZE;
        let head = vstd::slice::slice_subrange(bytes, 0, n);
        let rest = vstd::slice::slice_subrange(bytes, n, len);
        Ok((DummyArray { bytes: head, count, endian }, rest))
    }

    /// The number of records.
    pub fn len(&self) -> (r: usize)
        ensures
            r == self.count(),
    {
        self.count
    }

    /// Record `index`; fails with `IndexOutOfRange` at or past the count.
    pub fn get(&self, index: usize) -> (r: Result<FlverDummy<'a>, FormatError>)
        requires
            self.wf(),
        ensures
            r is Ok <==> index < self.count(),
            r is Err ==> r->Err_0 == FormatError::IndexOutOfRange,
            r matches Ok(d) ==> d.wf() && d.raw() == self.record(index as int) && d.order()
                == self.order(),
    {
        if index >= self.count {
            return Err(FormatError::IndexOutOfRange);
        }
        let total = self.bytes.len();
        assert(DUMMY_SIZE * index + DUMMY_SIZE <= total) by (nonlinear_arith)
            requires
                index < self.count,
                total == self.count * 64,
        ;
        let start = DUMMY_SIZE * index;
        let rec = vstd::slice::slice_subrange(self.bytes, start, start + DUMMY_SIZE);
        Ok(FlverDummy { bytes: rec, endian: self.endian })
    }
}

} // verus!
