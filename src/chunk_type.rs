use crate::text::string_from_utf8;
use vstd::prelude::*;
use vstd::string::StringSliceAdditionalSpecFns;
use vstd::utf8::*;

verus! {

/// Why a four-byte type code was refused.
#[derive(Debug, PartialEq, Eq, Clone, Copy)]
pub enum ChunkTypeError {
    /// The first byte, in order, that is not an ASCII letter.
    InvalidByte(u8),
    /// A textual type code that is not four bytes long.
    InvalidLength,
}

/// `A`..=`Z` or `a`..=`z`.
pub open spec fn is_ascii_letter(b: u8) -> bool {
    (65 <= b && b <= 90) || (97 <= b && b <= 122)
}

/// Bit 5 (value 32) of a byte is set.
pub open spec fn bit5(b: u8) -> bool {
    b & 32u8 == 32u8
}

/// The first byte of a four-byte code that is not an ASCII letter, if any.
pub open spec fn first_non_letter(b: Seq<u8>) -> Option<u8>
    recommends
        b.len() == 4,
{
    if !is_ascii_letter(b[0]) {
        Some(b[0])
    } else if !is_ascii_letter(b[1]) {
        Some(b[1])
    } else if !is_ascii_letter(b[2]) {
        Some(b[2])
    } else if !is_ascii_letter(b[3]) {
        Some(b[3])
    } else {
        None
    }
}

/// On an ASCII letter, bit 5 is set exactly when the letter is lower case; so
/// a letter's reserved, critical, public or safe-to-copy bit is read from its case.
pub proof fn lemma_letter_case(b: u8)
    requires
        is_ascii_letter(b),
    ensures
        bit5(b) <==> 97 <= b <= 122,
        !bit5(b) <==> 65 <= b <= 90,
{
    assert((65u8 <= b && b <= 90u8) || (97u8 <= b && b <= 122u8) ==> (b & 32u8 == 32u8 <==> 97u8
        <= b && b <= 122u8)) by (bit_vector);
}

/// The outcome of building a type code from four bytes.
pub open spec fn check_type_bytes(b: Seq<u8>) -> Result<Seq<u8>, ChunkTypeError>
    recommends
        b.len() == 4,
{
    match first_non_letter(b) {
        Some(x) => Err(ChunkTypeError::InvalidByte(x)),
        None => Ok(b),
    }
}

/// Four ASCII letters are well-formed UTF-8, one character per byte.
proof fn lemma_letters_are_utf8(b: Seq<u8>)
    requires
        b.len() == 4,
        first_non_letter(b) is None,
    ensures
        valid_utf8(b),
        decode_utf8(b).len() == 4,
{
    reveal_with_fuel(valid_utf8, 5);
    reveal_with_fuel(decode_utf8, 5);
    assert(b.subrange(1, 4).subrange(1, 3) =~= b.subrange(2, 4));
    assert(b.subrange(2, 4).subrange(1, 2) =~= b.subrange(3, 4));
    assert(b.subrange(3, 4).subrange(1, 1) =~= Seq::<u8>::empty());
}

fn is_letter(b: u8) -> (r: bool)
    ensures
        r == is_ascii_letter(b),
{
    (65 <= b && b <= 90) || (97 <= b && b <= 122)
}

/// The outcome of building a type code from a four-byte array.
pub open spec fn type_from_bytes(value: [u8; 4]) -> Result<ChunkType, ChunkTypeError> {
    match first_non_letter(value@) {
        Some(x) => Err(ChunkTypeError::InvalidByte(x)),
        None => Ok(ChunkType { bytes: value }),
    }
}

/// A four-byte chunk type code.
#[derive(Debug, PartialEq, Eq, Copy, Clone)]
pub struct ChunkType {
    pub bytes: [u8; 4],
}

impl ChunkType {
    /// Every byte is an ASCII letter.
    pub open spec fn all_letters(self) -> bool {
        first_non_letter(self.bytes@) is None
    }

    pub open spec fn critical(self) -> bool {
        !bit5(self.bytes@[0])
    }

    pub open spec fn public(self) -> bool {
        !bit5(self.bytes@[1])
    }

    pub open spec fn reserved_bit_valid(self) -> bool {
        !bit5(self.bytes@[2])
    }

    pub open spec fn safe_to_copy(self) -> bool {
        bit5(self.bytes@[3])
    }

    /// Letters only, and the reserved bit clear.
    pub open spec fn valid(self) -> bool {
        self.all_letters() && self.reserved_bit_valid()
    }

    /// Builds a type code from four bytes, refusing the first that is not an
    /// ASCII letter.
    pub fn from_bytes(value: [u8; 4]) -> (r: Result<ChunkType, ChunkTypeError>)
        ensures
            r == type_from_bytes(value),
            match r {
                Ok(t) => check_type_bytes(value@) == Ok::<Seq<u8>, ChunkTypeError>(t.bytes@),
                Err(e) => check_type_bytes(value@) == Err::<Seq<u8>, ChunkTypeError>(e),
            },
    {
        let mut i: usize = 0;
        while i < 4
            invariant
                0 <= i <= 4,
                forall|j: int| 0 <= j < i ==> is_ascii_letter(value@[j]),
            decreases 4 - i,
        {
            if !is_letter(value[i]) {
                return Err(ChunkTypeError::InvalidByte(value[i]));
            }
            i += 1;
        }
        Ok(ChunkType { bytes: value })
    }

    /// Parses a type code from text of exactly four bytes.
    pub fn parse(s: &str) -> (r: Result<ChunkType, ChunkTypeError>)
        ensures
            s.spec_bytes().len() != 4 ==> r == Err::<ChunkType, ChunkTypeError>(
                ChunkTypeError::InvalidLength,
            ),
            s.spec_bytes().len() == 4 ==> match r {
                Ok(t) => check_type_bytes(s.spec_bytes()) == Ok::<Seq<u8>, ChunkTypeError>(
                    t.bytes@,
                ),
                Err(e) => check_type_bytes(s.spec_bytes()) == Err::<Seq<u8>, ChunkTypeError>(e),
            },
    {
        if s.len() != 4 {
            return Err(ChunkTypeError::InvalidLength);
        }
        let sb = s.as_bytes();
        let bytes = [sb[0], sb[1], sb[2], sb[3]];
        assert(bytes@ =~= s.spec_bytes());
        ChunkType::from_bytes(bytes)
    }

    /// The code as text: its bytes read as UTF-8, which for letters is one
    /// character per byte. Bytes that are not UTF-8 give the empty string.
    pub fn to_string(&self) -> (r: String)
        ensures
            valid_utf8(self.bytes@) ==> r@ == decode_utf8(self.bytes@),
            !valid_utf8(self.bytes@) ==> r@.len() == 0,
            self.all_letters() ==> r@ == decode_utf8(self.bytes@) && r@.len() == 4,
    {
        proof {
            if self.all_letters() {
                lemma_letters_are_utf8(self.bytes@);
            }
        }
        let mut v: Vec<u8> = Vec::new();
        v.push(self.bytes[0]);
        v.push(self.bytes[1]);
        v.push(self.bytes[2]);
        v.push(self.bytes[3]);
        assert(v@ =~= self.bytes@);
        match string_from_utf8(v) {
            Ok(s) => s,
            Err(_) => String::new(),
        }
    }

    pub fn bytes(&self) -> (r: [u8; 4])
        ensures
            r == self.bytes,
    {
        self.bytes
    }

    /// All four bytes are ASCII letters and the third is upper case.
    pub fn is_valid(&self) -> (r: bool)
        ensures
            r == self.valid(),
    {
        let mut i: usize = 0;
        while i < 4
            invariant
                0 <= i <= 4,
                forall|j: int| 0 <= j < i ==> is_ascii_letter(self.bytes@[j]),
            decreases 4 - i,
        {
            if !is_letter(self.bytes[i]) {
                return false;
            }
            i += 1;
        }
        (self.bytes[2] & 32) != 32
    }

    pub fn is_critical(&self) -> (r: bool)
        ensures
            r == self.critical(),
    {
        (self.bytes[0] & 32) != 32
    }

    pub fn is_public(&self) -> (r: bool)
        ensures
            r == self.public(),
    {
        (self.bytes[1] & 32) != 32
    }

    pub fn is_reserved_bit_valid(&self) -> (r: bool)
        ensures
            r == self.reserved_bit_valid(),
    {
        (self.bytes[2] & 32) != 32
    }

    pub fn is_safe_to_copy(&self) -> (r: bool)
        ensures
            r == self.safe_to_copy(),
    {
        (self.bytes[3] & 32) == 32
    }
}

impl TryFrom<[u8; 4]> for ChunkType {
    type Error = ChunkTypeError;

    fn try_from(value: [u8; 4]) -> (r: Result<ChunkType, ChunkTypeError>) {
        ChunkType::from_bytes(value)
    }
}

impl vstd::std_specs::convert::TryFromSpecImpl<[u8; 4]> for ChunkType {
    open spec fn obeys_try_from_spec() -> bool {
        true
    }

    open spec fn try_from_spec(value: [u8; 4]) -> Result<ChunkType, ChunkTypeError> {
        type_from_bytes(value)
    }
}

impl std::str::FromStr for ChunkType {
    type Err = ChunkTypeError;

    /// Parses a type code from text, as `ChunkType::parse` does.
    fn from_str(s: &str) -> (r: Result<ChunkType, ChunkTypeError>)
        ensures
            s.spec_bytes().len() != 4 ==> r == Err::<ChunkType, ChunkTypeError>(
                ChunkTypeError::InvalidLength,
            ),
            s.spec_bytes().len() == 4 ==> match r {
                Ok(t) => check_type_bytes(s.spec_bytes()) == Ok::<Seq<u8>, ChunkTypeError>(
                    t.bytes@,
                ),
                Err(e) => check_type_bytes(s.spec_bytes()) == Err::<Seq<u8>, ChunkTypeError>(e),
            },
    {
        ChunkType::parse(s)
    }
}

} // verus!
