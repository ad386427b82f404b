//! The compressed container: a fixed big-endian header naming the compression
//! algorithm, followed by the compressed payload.
use crate::endian::{field_u32, get_u32, Endian};
use crate::error::FormatError;
use vstd::prelude::*;

verus! {

/// Length of the container header.
pub const DCX_HEADER_SIZE: usize = 20;

/// Algorithm tag `NONE` (as a big-endian 32-bit value): the payload is stored verbatim.
pub const ALGORITHM_NONE: u32 = 0x4E4F_4E45;

/// Header layout: magic `DCX\0`, algorithm tag, decompressed size,
/// compressed size, payload offset; every field big-endian.
pub open spec fn dcx_header_ok(b: Seq<u8>) -> bool {
    &&& b.len() >= DCX_HEADER_SIZE
    &&& b[0] == 0x44u8
    &&& b[1] == 0x43u8
    &&& b[2] == 0x58u8
    &&& b[3] == 0u8
}

pub open spec fn dcx_algorithm(b: Seq<u8>) -> int {
    field_u32(b, 4, Endian::Big)
}

pub open spec fn dcx_decompressed_size(b: Seq<u8>) -> int {
    field_u32(b, 8, Endian::Big)
}

pub open spec fn dcx_compressed_size(b: Seq<u8>) -> int {
    field_u32(b, 12, Endian::Big)
}

pub open spec fn dcx_payload_offset(b: Seq<u8>) -> int {
    field_u32(b, 16, Endian::Big)
}

/// Whether the payload that the header declares lies within the buffer.
pub open spec fn dcx_payload_in_bounds(b: Seq<u8>) -> bool {
    dcx_payload_offset(b) + dcx_compressed_size(b) <= b.len()
}

/// What decoding the whole container `b` yields: its decompressed bytes, or
/// the first failure of the pipeline header, algorithm, stream.
pub open spec fn decode_container(b: Seq<u8>) -> Result<Seq<u8>, FormatError> {
    if !dcx_header_ok(b) {
        Err(FormatError::MalformedHeader)
    } else if dcx_algorithm(b) != ALGORITHM_NONE as int {
        Err(FormatError::UnsupportedAlgorithm)
    } else if !dcx_payload_in_bounds(b) {
        Err(FormatError::CorruptStream)
    } else {
        let off = dcx_payload_offset(b);
        Ok(b.subrange(off, off + dcx_compressed_size(b)))
    }
}

/// The compression algorithms that a decoder can run.
#[derive(Clone, Copy, Debug, PartialEq, Eq, Structural)]
pub enum Algorithm {
    /// The payload is the decompressed data.
    Raw,
}

/// A validated container header over borrowed bytes.
pub struct Dcx<'a> {
    pub data: &'a [u8],
    pub algorithm: u32,
    pub decompressed_size: u32,
    pub compressed_size: u32,
    pub payload_offset: u32,
}

impl<'a> Dcx<'a> {
    /// The bytes the container was parsed from.
    pub open spec fn bytes(&self) -> Seq<u8> {
        self.data@
    }

    /// The header fields agree with the bytes the container was parsed from.
    pub open spec fn wf(&self) -> bool {
        &&& dcx_header_ok(self.bytes())
        &&& self.algorithm as int == dcx_algorithm(self.bytes())
        &&& self.decompressed_size as int == dcx_decompressed_size(self.bytes())
        &&& self.compressed_size as int == dcx_compressed_size(self.bytes())
        &&& self.payload_offset as int == dcx_payload_offset(self.bytes())
    }

    /// Validates the header of `data`: fails with `MalformedHeader` when the
    /// buffer is shorter than the header or the magic tag differs.
    pub fn parse(data: &'a [u8]) -> (r: Result<Dcx<'a>, FormatError>)
        ensures
            r is Ok <==> dcx_header_ok(data@),
            r is Err ==> r == Err::<Dcx<'a>, FormatError>(FormatError::MalformedHeader),
            r matches Ok(c) ==> c.wf() && c.bytes() == data@,
    {
        if data.len() < DCX_HEADER_SIZE || data[0] != 0x44u8 || data[1] != 0x43u8 || data[2]
            != 0x58u8 || data[3] != 0u8 {
            return Err(FormatError::MalformedHeader);
        }
        Ok(Dcx {
            data,
            algorithm: get_u32(data, 4, Endian::Big),
            decompressed_size: get_u32(data, 8, Endian::Big),
            compressed_size: get_u32(data, 12, Endian::Big),
            payload_offset: get_u32(data, 16, Endian::Big),
        })
    }

    /// Picks the decompression algorithm that the header names; fails with
    /// `UnsupportedAlgorithm` for any tag outside the recognised set, before
    /// any byte is decompressed.
    pub fn create_decoder(&self) -> (r: Result<Decoder<'a>, FormatError>)
        requires
            self.wf(),
        ensures
            r is Ok <==> self.algorithm == ALGORITHM_NONE,
            r is Err ==> r == Err::<Decoder<'a>, FormatError>(FormatError::UnsupportedAlgorithm),
            r matches Ok(d) ==> {
                &&& d.fresh()
                &&& d.source() == self.bytes()
                &&& d.hint() == self.decompressed_size
            },
    {
        if self.algorithm == ALGORITHM_NONE {
            Ok(
                Decoder {
                    algorithm: Algorithm::Raw,
                    data: self.data,
                    offset: self.payload_offset,
                    length: self.compressed_size,
                    hint: self.decompressed_size,
                    done: false,
                },
            )
        } else {
            Err(FormatError::UnsupportedAlgorithm)
        }
    }
}

/// A decompression cursor over one container's payload, read to completion once.
pub struct Decoder<'a> {
    algorithm: Algorithm,
    data: &'a [u8],
    offset: u32,
    length: u32,
    hint: u32,
    done: bool,
}

impl<'a> Decoder<'a> {
    /// The whole container buffer the decoder reads from.
    pub closed spec fn source(&self) -> Seq<u8> {
        self.data@
    }

    /// The decompressed size the header declares.
    pub closed spec fn hint(&self) -> u32 {
        self.hint
    }

    /// Nothing has been read yet, and the cursor stands where the header of
    /// `source()` places the payload.
    pub closed spec fn fresh(&self) -> bool {
        &&& !self.done
        &&& self.algorithm == Algorithm::Raw
        &&& self.offset as int == dcx_payload_offset(self.data@)
        &&& self.length as int == dcx_compressed_size(self.data@)
    }

    /// The stream has been read to its end.
    pub closed spec fn exhausted(&self) -> bool {
        self.done
    }

    /// Where the payload lies in `source()`.
    pub closed spec fn payload_range(&self) -> (int, int) {
        (self.offset as int, self.offset as int + self.length as int)
    }

    /// The declared decompressed size, an allocation hint only.
    pub fn hint_size(&self) -> (r: usize)
        ensures
            r as int == self.hint() as int,
    {
        self.hint as usize
    }

    /// Appends the decompressed stream to `out` and returns how many bytes it
    /// added. Fails with `CorruptStream`, leaving `out` as it was, when the
    /// payload runs past the end of the buffer. An exhausted decoder adds nothing.
    pub fn read_to_end(&mut self, out: &mut Vec<u8>) -> (r: Result<usize, FormatError>)
        ensures
            final(self).source() == old(self).source(),
            final(self).hint() == old(self).hint(),
            old(self).exhausted() ==> r == Ok::<usize, FormatError>(0) && final(out)@ == old(
                out,
            )@ && *final(self) == *old(self),
            !old(self).exhausted() ==> {
                let (s, e) = old(self).payload_range();
                if e <= old(self).source().len() {
                    &&& r matches Ok(n) && n as int == e - s
                    &&& final(out)@ == old(out)@ + old(self).source().subrange(s, e)
                    &&& final(self).exhausted()
                } else {
                    &&& r == Err::<usize, FormatError>(FormatError::CorruptStream)
                    &&& final(out)@ == old(out)@
                    &&& *final(self) == *old(self)
                }
            },
    {
        if self.done {
            return Ok(0);
        }
        let len = self.data.len();
        let start = self.offset as usize;
        let n = self.length as usize;
        if n > len || start > len - n {
            return Err(FormatError::CorruptStream);
        }
        match self.algorithm {
            Algorithm::Raw => {
                let mut i: usize = start;
                while i < start + n
                    invariant
                        start <= i <= start + n <= len,
                        len == self.data@.len(),
                        out@ == old(out)@ + self.data@.subrange(start as int, i as int),
                    decreases start + n - i,
                {
                    out.push(self.data[i]);
                    i = i + 1;
                    assert(out@ =~= old(out)@ + self.data@.subrange(start as int, i as int));
                }
            },
        }
        self.done = true;
        Ok(n)
    }
}

/// Decodes a whole container held in `data` into a new buffer.
pub fn decompress(data: &[u8]) -> (r: Result<Vec<u8>, FormatError>)
    ensures
        r matches Ok(v) ==> decode_container(data@) == Ok::<Seq<u8>, FormatError>(v@),
        r matches Err(e) ==> decode_container(data@) == Err::<Seq<u8>, FormatError>(e),
{
    let dcx = match Dcx::parse(data) {
        Ok(c) => c,
        Err(e) => return Err(e),
    };
    let mut decoder = match dcx.create_decoder() {
        Ok(d) => d,
        Err(e) => return Err(e),
    };
    let mut out: Vec<u8> = Vec::with_capacity(decoder.hint_size());
    match decoder.read_to_end(&mut out) {
        Ok(_) => {
            assert(out@ =~= data@.subrange(
                dcx_payload_offset(data@),
                dcx_payload_offset(data@) + dcx_compressed_size(data@),
            ));
            Ok(out)
        },
        Err(e) => Err(e),
    }
}

} // verus!
