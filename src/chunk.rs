use crate::chunk_type::{check_type_bytes, ChunkType, ChunkTypeError};
use crate::text::string_from_utf8;
use vstd::prelude::*;
use vstd::utf8::*;

verus! {

/// The CRC-32 (IEEE polynomial) of a byte sequence.
pub uninterp spec fn crc32_ieee(bytes: Seq<u8>) -> u32;

/// Relies on `crc::crc32::checksum_ieee`: the standard CRC-32/IEEE of the
/// bytes, which depends on the bytes alone.
#[verifier::external_body]
fn checksum_ieee(bytes: &[u8]) -> (r: u32)
    ensures
        r == crc32_ieee(bytes@),
{
    crc::crc32::checksum_ieee(bytes)
}

/// Why a byte buffer or a payload was refused.
#[derive(Debug)]
pub enum ChunkError {
    /// The payload is not well-formed UTF-8.
    UTF8Error(std::string::FromUtf8Error),
    /// The type code holds a byte that is not an ASCII letter.
    ChunkTypeError(ChunkTypeError),
    /// The checksum computed over type and payload, then the one declared.
    InvalidCRC(u32, u32),
    /// A payload size, then the size declared for it.
    LengthMismatch(u32, u32),
    /// Fewer bytes than the length, type and checksum fields need.
    ChunkTooShort,
}

impl From<ChunkTypeError> for ChunkError {
    fn from(err: ChunkTypeError) -> (r: ChunkError) {
        ChunkError::ChunkTypeError(err)
    }
}

impl vstd::std_specs::convert::FromSpecImpl<ChunkTypeError> for ChunkError {
    open spec fn obeys_from_spec() -> bool {
        true
    }

    open spec fn from_spec(v: ChunkTypeError) -> ChunkError {
        ChunkError::ChunkTypeError(v)
    }
}

/// The four bytes of a `u32`, most significant first.
pub open spec fn be_bytes(x: u32) -> Seq<u8> {
    seq![(x >> 24u32) as u8, (x >> 16u32) as u8, (x >> 8u32) as u8, x as u8]
}

/// The `u32` whose big-endian bytes are the first four of `b`.
pub open spec fn be_u32(b: Seq<u8>) -> u32
    recommends
        b.len() >= 4,
{
    ((b[0] as u32) << 24u32) | ((b[1] as u32) << 16u32) | ((b[2] as u32) << 8u32) | (b[3] as u32)
}

/// What a chunk holds, as mathematical values.
pub struct ChunkView {
    pub length: u32,
    pub chunk_type: Seq<u8>,
    pub data: Seq<u8>,
    pub crc: u32,
}

/// The chunk that a type code and a payload make.
pub open spec fn chunk_of(chunk_type: Seq<u8>, data: Seq<u8>) -> ChunkView {
    ChunkView {
        length: data.len() as u32,
        chunk_type,
        data,
        crc: crc32_ieee(chunk_type + data),
    }
}

/// The wire form: length, type code, payload, checksum.
pub open spec fn encoding(c: ChunkView) -> Seq<u8> {
    be_bytes(c.length) + c.chunk_type + c.data + be_bytes(c.crc)
}

/// The outcome of reading one chunk from a buffer. The payload runs from
/// offset 8 to four bytes before the end; the length field is taken as it is.
pub open spec fn decode_chunk(b: Seq<u8>) -> Result<ChunkView, ChunkError> {
    if b.len() < 12 {
        Err(ChunkError::ChunkTooShort)
    } else {
        let chunk_type = b.subrange(4, 8);
        match check_type_bytes(chunk_type) {
            Err(e) => Err(ChunkError::ChunkTypeError(e)),
            Ok(_) => {
                let data = b.subrange(8, b.len() - 4);
                let declared = be_u32(b.subrange(b.len() - 4, b.len() as int));
                let computed = crc32_ieee(chunk_type + data);
                if computed != declared {
                    Err(ChunkError::InvalidCRC(computed, declared))
                } else {
                    Ok(ChunkView { length: be_u32(b.subrange(0, 4)), chunk_type, data, crc: declared })
                }
            },
        }
    }
}

/// A chunk view whose type code is four letters and whose checksum is that of
/// its type code and payload: what `Chunk::new` and `Chunk::decode` produce.
pub open spec fn well_formed(c: ChunkView) -> bool {
    &&& c.chunk_type.len() == 4
    &&& check_type_bytes(c.chunk_type) is Ok
    &&& c.crc == crc32_ieee(c.chunk_type + c.data)
}

/// Reading back the four big-endian bytes of a `u32` gives the `u32`.
pub proof fn lemma_be_round_trip(x: u32)
    ensures
        be_u32(be_bytes(x)) == x,
{
    assert(((((x >> 24u32) as u8) as u32) << 24u32) | ((((x >> 16u32) as u8) as u32) << 16u32) | (
    (((x >> 8u32) as u8) as u32) << 8u32) | ((x as u8) as u32) == x) by (bit_vector);
}

/// Decoding the encoding of a well-formed chunk gives that chunk back,
/// whatever its length field holds.
pub proof fn lemma_decode_encoding(c: ChunkView)
    requires
        well_formed(c),
    ensures
        decode_chunk(encoding(c)) == Ok::<ChunkView, ChunkError>(c),
{
    let b = encoding(c);
    let n = b.len() as int;
    lemma_be_round_trip(c.length);
    lemma_be_round_trip(c.crc);
    assert(b.subrange(0, 4) =~= be_bytes(c.length));
    assert(b.subrange(4, 8) =~= c.chunk_type);
    assert(b.subrange(8, n - 4) =~= c.data);
    assert(b.subrange(n - 4, n) =~= be_bytes(c.crc));
}

/// Building a chunk from a type code of letters and a payload, encoding it
/// and decoding the bytes gives the same length, type, payload and checksum.
pub proof fn lemma_round_trip(chunk_type: ChunkType, data: Seq<u8>)
    requires
        chunk_type.all_letters(),
        data.len() <= u32::MAX,
    ensures
        decode_chunk(encoding(chunk_of(chunk_type.bytes@, data))) == Ok::<ChunkView, ChunkError>(
            chunk_of(chunk_type.bytes@, data),
        ),
{
    let c = chunk_of(chunk_type.bytes@, data);
    assert(well_formed(c));
    lemma_decode_encoding(c);
}

/// The checksum of a chunk is fixed by its type code and payload: two
/// buffers that decode to the same type and payload carry the same checksum,
/// whatever their length fields say.
pub proof fn lemma_checksum_from_content(b1: Seq<u8>, b2: Seq<u8>)
    requires
        decode_chunk(b1) is Ok,
        decode_chunk(b2) is Ok,
        decode_chunk(b1)->Ok_0.chunk_type == decode_chunk(b2)->Ok_0.chunk_type,
        decode_chunk(b1)->Ok_0.data == decode_chunk(b2)->Ok_0.data,
    ensures
        decode_chunk(b1)->Ok_0.crc == decode_chunk(b2)->Ok_0.crc,
        decode_chunk(b1)->Ok_0.crc == crc32_ieee(
            decode_chunk(b1)->Ok_0.chunk_type + decode_chunk(b1)->Ok_0.data,
        ),
{
}

/// A buffer of fewer than twelve bytes is always refused as too short.
pub proof fn lemma_short_buffer(b: Seq<u8>)
    requires
        b.len() < 12,
    ensures
        decode_chunk(b) == Err::<ChunkView, ChunkError>(ChunkError::ChunkTooShort),
{
}

/// Flipping one bit of the type code or payload of an encoded chunk changes
/// the bytes the checksum covers, and the altered buffer decodes only when
/// CRC-32 gives the altered bytes the same checksum as the unaltered ones.
pub proof fn lemma_flipped_bit(c: ChunkView, i: int, k: u8)
    requires
        well_formed(c),
        4 <= i < encoding(c).len() - 4,
        k < 8,
    ensures
        ({
            let b = encoding(c);
            let n = b.len() as int;
            let t = b.update(i, b[i] ^ (1u8 << k));
            &&& t.subrange(4, n - 4) != b.subrange(4, n - 4)
            &&& decode_chunk(t) is Ok ==> crc32_ieee(t.subrange(4, n - 4)) == crc32_ieee(
                b.subrange(4, n - 4),
            )
        }),
{
    let b = encoding(c);
    let n = b.len() as int;
    let x = b[i];
    let t = b.update(i, x ^ (1u8 << k));
    assert(x ^ (1u8 << k) != x) by (bit_vector)
        requires
            k < 8,
    ;
    assert(t.subrange(4, n - 4)[i - 4] != b.subrange(4, n - 4)[i - 4]);
    lemma_decode_encoding(c);
    assert(b.subrange(n - 4, n) =~= t.subrange(n - 4, n));
    assert(t.subrange(4, 8) + t.subrange(8, n - 4) =~= t.subrange(4, n - 4));
    assert(b.subrange(4, 8) + b.subrange(8, n - 4) =~= b.subrange(4, n - 4));
}

/// A length-prefixed, typed, checksummed record.
#[derive(Debug)]
pub struct Chunk {
    length: u32,
    chunk_type: ChunkType,
    data: Vec<u8>,
    crc: u32,
}

impl Chunk {
    /// Every chunk carries the checksum of its type code and payload.
    #[verifier::type_invariant]
    spec fn checksum_matches(self) -> bool {
        self.crc == crc32_ieee(self.chunk_type.bytes@ + self.data@)
    }
}

impl View for Chunk {
    type V = ChunkView;

    closed spec fn view(&self) -> ChunkView {
        ChunkView {
            length: self.length,
            chunk_type: self.chunk_type.bytes@,
            data: self.data@,
            crc: self.crc,
        }
    }
}

fn read_be_u32(bytes: &[u8], at: usize) -> (r: u32)
    requires
        at + 4 <= bytes@.len(),
    ensures
        r == be_u32(bytes@.subrange(at as int, at + 4)),
{
    ((bytes[at] as u32) << 24u32) | ((bytes[at + 1] as u32) << 16u32) | ((bytes[at + 2] as u32)
        << 8u32) | (bytes[at + 3] as u32)
}

fn push_be_u32(out: &mut Vec<u8>, x: u32)
    ensures
        final(out)@ == old(out)@ + be_bytes(x),
{
    out.push((x >> 24u32) as u8);
    out.push((x >> 16u32) as u8);
    out.push((x >> 8u32) as u8);
    out.push(x as u8);
    assert(final(out)@ =~= old(out)@ + be_bytes(x));
}

fn push_all(out: &mut Vec<u8>, src: &[u8])
    ensures
        final(out)@ == old(out)@ + src@,
{
    let ghost start = out@;
    let mut i: usize = 0;
    while i < src.len()
        invariant
            0 <= i <= src@.len(),
            out@ == start + src@.subrange(0, i as int),
        decreases src@.len() - i,
    {
        out.push(src[i]);
        i += 1;
        assert(out@ =~= start + src@.subrange(0, i as int));
    }
    assert(src@.subrange(0, src@.len() as int) =~= src@);
}

/// The checksum of a type code followed by a payload.
fn checksum_of(chunk_type: &ChunkType, data: &[u8]) -> (r: u32)
    ensures
        r == crc32_ieee(chunk_type.bytes@ + data@),
{
    let mut buf: Vec<u8> = Vec::new();
    push_all(&mut buf, chunk_type.bytes.as_slice());
    push_all(&mut buf, data);
    checksum_ieee(buf.as_slice())
}

impl Chunk {
    /// Reads one chunk from a buffer, checking its type code and checksum.
    pub fn decode(bytes: &[u8]) -> (r: Result<Chunk, ChunkError>)
        ensures
            match r {
                Ok(c) => decode_chunk(bytes@) == Ok::<ChunkView, ChunkError>(c@),
                Err(e) => decode_chunk(bytes@) == Err::<ChunkView, ChunkError>(e),
            },
    {
        let total = bytes.len();
        if total < 12 {
            return Err(ChunkError::ChunkTooShort);
        }
        let length = read_be_u32(bytes, 0);
        let type_bytes = [bytes[4], bytes[5], bytes[6], bytes[7]];
        assert(type_bytes@ =~= bytes@.subrange(4, 8));
        let chunk_type = match ChunkType::from_bytes(type_bytes) {
            Ok(t) => t,
            Err(e) => {
                return Err(ChunkError::ChunkTypeError(e));
            },
        };
        let crc = read_be_u32(bytes, total - 4);
        let mut data: Vec<u8> = Vec::new();
        let mut i: usize = 8;
        while i < total - 4
            invariant
                8 <= i <= total - 4,
                total == bytes@.len(),
                data@ == bytes@.subrange(8, i as int),
            decreases total - 4 - i,
        {
            data.push(bytes[i]);
            i += 1;
            assert(data@ =~= bytes@.subrange(8, i as int));
        }
        let computed = checksum_of(&chunk_type, data.as_slice());
        if computed != crc {
            return Err(ChunkError::InvalidCRC(computed, crc));
        }
        Ok(Chunk { length, chunk_type, data, crc })
    }

    /// Builds a chunk from a type code and a payload, computing its length and
    /// checksum. Fails when the payload is longer than a `u32` can count.
    pub fn new(chunk_type: ChunkType, data: Vec<u8>) -> (r: Result<Chunk, std::num::TryFromIntError>)
        ensures
            r is Ok <==> data@.len() <= u32::MAX,
            r matches Ok(c) ==> c@ == chunk_of(chunk_type.bytes@, data@),
    {
        let length = match u32::try_from(data.len()) {
            Ok(n) => n,
            Err(e) => {
                return Err(e);
            },
        };
        let crc = checksum_of(&chunk_type, data.as_slice());
        Ok(Chunk { length, chunk_type, data, crc })
    }

    /// The declared payload length.
    pub fn length(&self) -> (r: u32)
        ensures
            r == self@.length,
    {
        self.length
    }

    pub fn chunk_type(&self) -> (r: ChunkType)
        ensures
            r.bytes@ == self@.chunk_type,
    {
        self.chunk_type
    }

    /// The payload, borrowed.
    pub fn data(&self) -> (r: &[u8])
        ensures
            r@ == self@.data,
    {
        self.data.as_slice()
    }

    /// The checksum, which is always that of the type code and payload.
    pub fn crc(&self) -> (r: u32)
        ensures
            r == self@.crc,
            r == crc32_ieee(self@.chunk_type + self@.data),
    {
        proof {
            use_type_invariant(self);
        }
        self.crc
    }

    /// The payload read as UTF-8 text.
    pub fn data_as_string(&self) -> (r: Result<String, ChunkError>)
        ensures
            r is Ok <==> valid_utf8(self@.data),
            r matches Ok(s) ==> s@ == decode_utf8(self@.data),
            r matches Err(e) ==> e is UTF8Error,
    {
        let mut copy: Vec<u8> = Vec::new();
        push_all(&mut copy, self.data.as_slice());
        match string_from_utf8(copy) {
            Ok(s) => Ok(s),
            Err(e) => Err(ChunkError::UTF8Error(e)),
        }
    }

    /// The wire form: length and checksum big-endian around type and payload.
    pub fn as_bytes(&self) -> (r: Vec<u8>)
        ensures
            r@ == encoding(self@),
    {
        let mut out: Vec<u8> = Vec::new();
        push_be_u32(&mut out, self.length);
        push_all(&mut out, self.chunk_type.bytes.as_slice());
        push_all(&mut out, self.data.as_slice());
        push_be_u32(&mut out, self.crc);
        out
    }
}

impl<'a> TryFrom<&'a [u8]> for Chunk {
    type Error = ChunkError;

    /// Reads one chunk from a buffer, as `Chunk::decode` does.
    fn try_from(bytes: &'a [u8]) -> (r: Result<Chunk, ChunkError>)
        ensures
            match r {
                Ok(c) => decode_chunk(bytes@) == Ok::<ChunkView, ChunkError>(c@),
                Err(e) => decode_chunk(bytes@) == Err::<ChunkView, ChunkError>(e),
            },
    {
        Chunk::decode(bytes)
    }
}

/// A `Chunk` owns a vector, so no spec value of type `Chunk` stands for the one
/// returned; the `ensures` of `try_from` above states its view instead.
impl<'a> vstd::std_specs::convert::TryFromSpecImpl<&'a [u8]> for Chunk {
    open spec fn obeys_try_from_spec() -> bool {
        false
    }

    open spec fn try_from_spec(bytes: &'a [u8]) -> Result<Chunk, ChunkError> {
        arbitrary()
    }
}

} // verus!
