//! The model header: a magic tag and an endianness marker, a fixed-size header
//! whose multi-byte fields are stored in the marked byte order, and a trailing
//! array of dummy-point records sized by the header's dummy count.
//!
//! Views borrow the buffer and decode each field on access, using the byte
//! order chosen when the view was made.
use crate::dummy::{DummyArray, FlverDummy, DUMMY_SIZE};
use crate::endian::{field_u32, get_u32, lemma_u32_reversed, Endian};
use crate::error::FormatError;
use vstd::prelude::*;

verus! {

/// Length of the fixed header, magic and marker included.
pub const FLVER_HEADER_SIZE: usize = 128;

/// Offset of the dummy count within the header.
pub const DUMMY_COUNT_OFFSET: usize = 20;

/// The buffer starts with `FLVER\0` and holds the two marker bytes after it.
pub open spec fn flver_magic_ok(b: Seq<u8>) -> bool {
    &&& b.len() >= 8
    &&& b[0] == 0x46u8
    &&& b[1] == 0x4Cu8
    &&& b[2] == 0x56u8
    &&& b[3] == 0x45u8
    &&& b[4] == 0x52u8
    &&& b[5] == 0u8
}

/// The byte order that the marker after the magic tag names: `L\0` or `B\0`.
pub open spec fn endian_marker(b: Seq<u8>) -> Result<Endian, FormatError> {
    if !flver_magic_ok(b) {
        Err(FormatError::MalformedHeader)
    } else if b[6] == 0x4Cu8 && b[7] == 0u8 {
        Ok(Endian::Little)
    } else if b[6] == 0x42u8 && b[7] == 0u8 {
        Ok(Endian::Big)
    } else {
        Err(FormatError::UnknownEndianness)
    }
}

/// Reads the endianness marker that follows the magic tag.
pub fn detect_endianness(bytes: &[u8]) -> (r: Result<Endian, FormatError>)
    ensures
        r == endian_marker(bytes@),
{
    if bytes.len() < 8 || bytes[0] != 0x46u8 || bytes[1] != 0x4Cu8 || bytes[2] != 0x56u8
        || bytes[3] != 0x45u8 || bytes[4] != 0x52u8 || bytes[5] != 0u8 {
        Err(FormatError::MalformedHeader)
    } else if bytes[6] == 0x4Cu8 && bytes[7] == 0u8 {
        Ok(Endian::Little)
    } else if bytes[6] == 0x42u8 && bytes[7] == 0u8 {
        Ok(Endian::Big)
    } else {
        Err(FormatError::UnknownEndianness)
    }
}

/// The fixed-size model header, read in place.
#[derive(Clone, Copy, Debug)]
pub struct FlverHeaderData<'a> {
    bytes: &'a [u8],
    endian: Endian,
}

impl<'a> FlverHeaderData<'a> {
    /// The header's bytes.
    pub closed spec fn raw(&self) -> Seq<u8> {
        self.bytes@
    }

    /// The byte order its fields are decoded in.
    pub closed spec fn order(&self) -> Endian {
        self.endian
    }

    /// The 32-bit field at `off`.
    pub open spec fn field(&self, off: int) -> int {
        field_u32(self.raw(), off, self.order())
    }

    pub open spec fn wf(&self) -> bool {
        self.raw().len() == FLVER_HEADER_SIZE
    }

    /// Casts the first `FLVER_HEADER_SIZE` bytes of `bytes` to a header read in
    /// byte order `endian`, and returns the bytes after it; fails with
    /// `TruncatedBuffer` on a shorter buffer.
    pub fn from_prefix(bytes: &'a [u8], endian: Endian) -> (r: Result<
        (FlverHeaderData<'a>, &'a [u8]),
        FormatError,
    >)
        ensures
            r is Ok <==> bytes@.len() >= FLVER_HEADER_SIZE,
            r is Err ==> r->Err_0 == FormatError::TruncatedBuffer,
            r matches Ok((h, rest)) ==> {
                &&& h.wf()
                &&& h.raw() == bytes@.subrange(0, FLVER_HEADER_SIZE as int)
                &&& h.order() == endian
                &&& rest@ == bytes@.subrange(FLVER_HEADER_SIZE as int, bytes@.len() as int)
            },
    {
        let len = bytes.len();
        if len < FLVER_HEADER_SIZE {
            return Err(FormatError::TruncatedBuffer);
        }
        let head = vstd::slice::slice_subrange(bytes, 0, FLVER_HEADER_SIZE);
        let rest = vstd::slice::slice_subrange(bytes, FLVER_HEADER_SIZE, len);
        Ok((FlverHeaderData { bytes: head, endian }, rest))
    }

    pub fn endian(&self) -> (r: Endian)
        ensures
            r == self.order(),
    {
        self.endian
    }

    fn u32_at(&self, off: usize) -> (r: u32)
        requires
            self.wf(),
            off + 4 <= FLVER_HEADER_SIZE,
        ensures
            r as int == self.field(off as int),
    {
        get_u32(self.bytes, off, self.endian)
    }

    pub fn data_offset(&self) -> (r: u32)
        requires
            self.wf(),
        ensures
            r as int == self.field(12),
    {
        self.u32_at(12)
    }

    pub fn data_length(&self) -> (r: u32)
        requires
            self.wf(),
        ensures
            r as int == self.field(16),
    {
        self.u32_at(16)
    }

    pub fn material_count(&self) -> (r: u32)
        requires
            self.wf(),
        ensures
            r as int == self.field(24),
    {
        self.u32_at(24)
    }

    pub fn bone_count(&self) -> (r: u32)
        requires
            self.wf(),
        ensures
            r as int == self.field(28),
    {
        self.u32_at(28)
    }

    pub fn mesh_count(&self) -> (r: u32)
        requires
            self.wf(),
        ensures
            r as int == self.field(32),
    {
        self.u32_at(32)
    }

    pub fn vertex_buffer_count(&self) -> (r: u32)
        requires
            self.wf(),
        ensures
            r as int == self.field(36),
    {
        self.u32_at(36)
    }

    /// Bit pattern of the `axis` coordinate of the bounding box's minimum
    /// corner (an IEEE-754 single).
    pub fn bounding_box_min_bits(&self, axis: usize) -> (r: u32)
        requires
            self.wf(),
            axis < 3,
        ensures
            r as int == self.field(40 + 4 * axis),
    {
        self.u32_at(40 + 4 * axis)
    }

    /// Bit pattern of the `axis` coordinate of the bounding box's maximum
    /// corner (an IEEE-754 single).
    pub fn bounding_box_max_bits(&self, axis: usize) -> (r: u32)
        requires
            self.wf(),
            axis < 3,
        ensures
            r as int == self.field(52 + 4 * axis),
    {
        self.u32_at(52 + 4 * axis)
    }

    pub fn face_count(&self) -> (r: u32)
        requires
            self.wf(),
        ensures
            r as int == self.field(64),
    {
        self.u32_at(64)
    }

    pub fn total_face_count(&self) -> (r: u32)
        requires
            self.wf(),
        ensures
            r as int == self.field(68),
    {
        self.u32_at(68)
    }

    pub fn vertex_index_size(&self) -> (r: u8)
        requires
            self.wf(),
        ensures
            r == self.raw()[72],
    {
        self.bytes[72]
    }

    pub fn unicode(&self) -> (r: u8)
        requires
            self.wf(),
        ensures
            r == self.raw()[73],
    {
        self.bytes[73]
    }

    pub fn face_set_count(&self) -> (r: u32)
        requires
            self.wf(),
        ensures
            r as int == self.field(80),
    {
        self.u32_at(80)
    }

    pub fn buffer_layout_count(&self) -> (r: u32)
        requires
            self.wf(),
        ensures
            r as int == self.field(84),
    {
        self.u32_at(84)
    }

    pub fn texture_count(&self) -> (r: u32)
        requires
            self.wf(),
        ensures
            r as int == self.field(88),
    {
        self.u32_at(88)
    }

    pub fn unk68(&self) -> (r: u32)
        requires
            self.wf(),
        ensures
            r as int == self.field(104),
    {
        self.u32_at(104)
    }
}

/// The header fields that every model header offers, whatever its byte order.
pub trait FlverHeader {
    spec fn header_ok(&self) -> bool;

    spec fn version_value(&self) -> int;

    spec fn dummy_count_value(&self) -> int;

    fn version(&self) -> (r: u32)
        requires
            self.header_ok(),
        ensures
            r as int == self.version_value(),
    ;

    fn dummy_count(&self) -> (r: u32)
        requires
            self.header_ok(),
        ensures
            r as int == self.dummy_count_value(),
    ;
}

impl<'a> FlverHeader for FlverHeaderData<'a> {
    open spec fn header_ok(&self) -> bool {
        self.wf()
    }

    open spec fn version_value(&self) -> int {
        self.field(8)
    }

    open spec fn dummy_count_value(&self) -> int {
        self.field(DUMMY_COUNT_OFFSET as int)
    }

    fn version(&self) -> (r: u32) {
        self.u32_at(8)
    }

    fn dummy_count(&self) -> (r: u32) {
        self.u32_at(DUMMY_COUNT_OFFSET)
    }
}

/// The verdict of parsing a whole model buffer, stage by stage: magic,
/// endianness marker, fixed header, dummy array. On success, the byte order.
pub open spec fn flver_check(b: Seq<u8>) -> Result<Endian, FormatError> {
    match endian_marker(b) {
        Err(e) => Err(e),
        Ok(e) => {
            if b.len() < FLVER_HEADER_SIZE {
                Err(FormatError::TruncatedBuffer)
            } else if DUMMY_SIZE * field_u32(b, DUMMY_COUNT_OFFSET as int, e) > b.len()
                - FLVER_HEADER_SIZE {
                Err(FormatError::TruncatedBuffer)
            } else {
                Ok(e)
            }
        },
    }
}

/// The dummy count that the header of `b` declares, in byte order `e`.
pub open spec fn declared_dummy_count(b: Seq<u8>, e: Endian) -> int {
    field_u32(b, DUMMY_COUNT_OFFSET as int, e)
}

/// Access to the trailing records of a parsed model.
pub trait FlverData {
    spec fn data_ok(&self) -> bool;

    spec fn dummy_total(&self) -> nat;

    spec fn dummy_record(&self, i: int) -> Seq<u8>;

    spec fn data_order(&self) -> Endian;

    /// Dummy record `index`; fails with `IndexOutOfRange` at or past the count.
    fn dummy(&self, index: usize) -> (r: Result<FlverDummy<'_>, FormatError>)
        requires
            self.data_ok(),
        ensures
            r is Ok <==> index < self.dummy_total(),
            r is Err ==> r->Err_0 == FormatError::IndexOutOfRange,
            r matches Ok(d) ==> d.wf() && d.raw() == self.dummy_record(index as int) && d.order()
                == self.data_order(),
    ;
}

/// A parsed model in one byte order: the header and its dummy array.
#[derive(Clone, Copy, Debug)]
pub struct FlverInner<'a> {
    header: FlverHeaderData<'a>,
    dummys: DummyArray<'a>,
}

impl<'a> FlverInner<'a> {
    pub closed spec fn header_view(&self) -> FlverHeaderData<'a> {
        self.header
    }

    pub closed spec fn dummys_view(&self) -> DummyArray<'a> {
        self.dummys
    }

    /// The dummy array has the header's byte order and dummy count.
    pub open spec fn wf(&self) -> bool {
        &&& self.header_view().wf()
        &&& self.dummys_view().wf()
        &&& self.dummys_view().order() == self.header_view().order()
        &&& self.dummys_view().count() == self.header_view().dummy_count_value()
    }

    /// Casts the header and then the dummy array out of `data`, in byte order `e`.
    fn parse(data: &'a [u8], e: Endian) -> (r: Option<FlverInner<'a>>)
        ensures
            r is Some <==> data@.len() >= FLVER_HEADER_SIZE && DUMMY_SIZE
                * declared_dummy_count(data@, e) <= data@.len() - FLVER_HEADER_SIZE,
            r matches Some(f) ==> {
                &&& f.wf()
                &&& f.header_view().order() == e
                &&& f.header_view().raw() == data@.subrange(0, FLVER_HEADER_SIZE as int)
                &&& f.dummys_view().raw() == data@.subrange(
                    FLVER_HEADER_SIZE as int,
                    FLVER_HEADER_SIZE + DUMMY_SIZE * declared_dummy_count(data@, e),
                )
            },
    {
        let (header, dummy_bytes) = match FlverHeaderData::from_prefix(data, e) {
            Ok(p) => p,
            Err(_) => return None,
        };
        let count = header.dummy_count();
        assert(header.raw().subrange(DUMMY_COUNT_OFFSET as int, DUMMY_COUNT_OFFSET + 4)
            =~= data@.subrange(DUMMY_COUNT_OFFSET as int, DUMMY_COUNT_OFFSET + 4));
        let (dummys, _next) = match DummyArray::from_prefix(dummy_bytes, count as usize, e) {
            Ok(p) => p,
            Err(_) => return None,
        };
        assert(dummys.raw() =~= data@.subrange(
            FLVER_HEADER_SIZE as int,
            FLVER_HEADER_SIZE + DUMMY_SIZE * declared_dummy_count(data@, e),
        ));
        Some(FlverInner { header, dummys })
    }

    /// The fixed header.
    pub fn header(&self) -> (r: &FlverHeaderData<'a>)
        ensures
            *r == self.header_view(),
    {
        &self.header
    }
}

impl<'a> FlverData for FlverInner<'a> {
    open spec fn data_ok(&self) -> bool {
        self.wf()
    }

    open spec fn dummy_total(&self) -> nat {
        self.dummys_view().count()
    }

    open spec fn dummy_record(&self, i: int) -> Seq<u8> {
        self.dummys_view().record(i)
    }

    open spec fn data_order(&self) -> Endian {
        self.dummys_view().order()
    }

    fn dummy(&self, index: usize) -> (r: Result<FlverDummy<'_>, FormatError>) {
        self.dummys.get(index)
    }
}

/// A parsed model, tagged with the byte order its buffer declared.
#[derive(Clone, Copy, Debug)]
pub enum Flver<'a> {
    LittleEndian(FlverInner<'a>),
    BigEndian(FlverInner<'a>),
}

impl<'a> Flver<'a> {
    pub open spec fn inner(&self) -> FlverInner<'a> {
        match self {
            Flver::LittleEndian(i) => *i,
            Flver::BigEndian(i) => *i,
        }
    }

    /// The variant names the byte order the inner views decode with.
    pub open spec fn wf(&self) -> bool {
        &&& self.inner().wf()
        &&& self.inner().header_view().order() == match self {
            Flver::LittleEndian(_) => Endian::Little,
            Flver::BigEndian(_) => Endian::Big,
        }
    }

    /// Parses a whole model buffer: magic, endianness marker, header, dummy
    /// array. Each stage's failure aborts the parse with that stage's error.
    pub fn from(data: &'a [u8]) -> (r: Result<Flver<'a>, FormatError>)
        ensures
            r is Ok <==> flver_check(data@) is Ok,
            r matches Err(e) ==> flver_check(data@) == Err::<Endian, FormatError>(e),
            r matches Ok(f) ==> {
                let e = flver_check(data@)->Ok_0;
                &&& f.wf()
                &&& f.inner().header_view().order() == e
                &&& f.inner().header_view().raw() == data@.subrange(0, FLVER_HEADER_SIZE as int)
                &&& f.inner().dummys_view().raw() == data@.subrange(
                    FLVER_HEADER_SIZE as int,
                    FLVER_HEADER_SIZE + DUMMY_SIZE * declared_dummy_count(data@, e),
                )
            },
    {
        let e = match detect_endianness(data) {
            Ok(e) => e,
            Err(err) => return Err(err),
        };
        match FlverInner::parse(data, e) {
            Some(inner) => match e {
                Endian::Little => Ok(Flver::LittleEndian(inner)),
                Endian::Big => Ok(Flver::BigEndian(inner)),
            },
            None => Err(FormatError::TruncatedBuffer),
        }
    }

    /// The fixed header.
    pub fn header(&self) -> (r: &FlverHeaderData<'a>)
        ensures
            *r == self.inner().header_view(),
    {
        match self {
            Flver::LittleEndian(inner) => inner.header(),
            Flver::BigEndian(inner) => inner.header(),
        }
    }

    /// Dummy record `index`; fails with `IndexOutOfRange` at or past the count.
    pub fn dummy(&self, index: usize) -> (r: Result<FlverDummy<'a>, FormatError>)
        requires
            self.wf(),
        ensures
            r is Ok <==> index < self.inner().dummy_total(),
            r is Err ==> r->Err_0 == FormatError::IndexOutOfRange,
            r matches Ok(d) ==> d.wf() && d.raw() == self.inner().dummy_record(index as int)
                && d.order() == self.inner().data_order(),
    {
        match self {
            Flver::LittleEndian(inner) => inner.dummys.get(index),
            Flver::BigEndian(inner) => inner.dummys.get(index),
        }
    }
}

impl<'a> FlverHeader for Flver<'a> {
    open spec fn header_ok(&self) -> bool {
        self.inner().header_view().wf()
    }

    open spec fn version_value(&self) -> int {
        self.inner().header_view().version_value()
    }

    open spec fn dummy_count_value(&self) -> int {
        self.inner().header_view().dummy_count_value()
    }

    fn version(&self) -> (r: u32) {
        self.header().version()
    }

    fn dummy_count(&self) -> (r: u32) {
        self.header().dummy_count()
    }
}

/// Byte order round trip: a little-endian header and a big-endian header
/// whose 32-bit field at `off` holds the same bytes in reverse order decode
/// that field to the same value.
pub proof fn lemma_header_field_endian_round_trip(
    le: FlverHeaderData,
    be: FlverHeaderData,
    off: int,
)
    requires
        le.wf(),
        be.wf(),
        le.order() == Endian::Little,
        be.order() == Endian::Big,
        0 <= off,
        off + 4 <= FLVER_HEADER_SIZE,
        be.raw().subrange(off, off + 4) == le.raw().subrange(off, off + 4).reverse(),
    ensures
        le.field(off) == be.field(off),
{
    lemma_u32_reversed(le.raw().subrange(off, off + 4));
}

} // verus!
