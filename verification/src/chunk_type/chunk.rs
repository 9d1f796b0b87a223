//! The chunk type: four bytes that name a chunk and, through the case of
//! each byte, carry four flags about it.

use crate::chunk_type::ascii::{
    all_ascii, all_letters, byte_has_case_bit, case_bit_set, lemma_letters_are_ascii,
    slice_is_ascii, slice_is_letters,
};
use crate::chunk_type::text::{
    ascii_text, lemma_ascii_bytes_decode_to_text, lemma_ascii_text_encodes_to_bytes,
};
use std::str::FromStr;
use vstd::prelude::*;
use vstd::std_specs::cmp::PartialEqSpecImpl;
use vstd::std_specs::convert::TryFromSpecImpl;
use vstd::utf8::{encode_utf8, is_ascii_chars};

verus! {

/// Why a chunk type could not be built.
#[derive(Clone, Copy, Debug, PartialEq, Eq, Structural)]
pub enum FormatError {
    /// One of the four raw bytes is above 127.
    NonAsciiByte,
    /// The text is not exactly four bytes long.
    WrongLength,
    /// The text holds a byte that is not an ASCII letter.
    InvalidCharacter,
}

/// A chunk type: exactly four bytes, each of them ASCII.
///
/// Built from raw bytes, the bytes need not be letters; built from text
/// they are. `is_valid` tells the two apart afterwards.
#[derive(Clone, Copy, Debug, Eq, Ord)]
pub struct ChunkType {
    chunk: [u8; 4],
}

impl View for ChunkType {
    type V = Seq<u8>;

    /// The four bytes, in order.
    open spec fn view(&self) -> Seq<u8> {
        self.spec_bytes()@
    }
}

impl ChunkType {
    /// Every stored byte is a 7-bit value.
    #[verifier::type_invariant]
    spec fn ascii_only(&self) -> bool {
        all_ascii(self.chunk@)
    }

    /// The four bytes as an array.
    pub closed spec fn spec_bytes(&self) -> [u8; 4] {
        self.chunk
    }

    /// The chunk type that holds the four bytes of `bytes`.
    pub closed spec fn of(bytes: Seq<u8>) -> ChunkType
        recommends
            bytes.len() == 4,
    {
        ChunkType { chunk: [bytes[0], bytes[1], bytes[2], bytes[3]] }
    }

    /// The result of building a chunk type from raw bytes: they are taken
    /// as they are if all of them are ASCII, and refused otherwise.
    pub open spec fn parse_bytes(bytes: Seq<u8>) -> Result<ChunkType, FormatError>
        recommends
            bytes.len() == 4,
    {
        if all_ascii(bytes) {
            Ok(ChunkType::of(bytes))
        } else {
            Err(FormatError::NonAsciiByte)
        }
    }

    /// The result of building a chunk type from text, by the bytes of its
    /// UTF-8 encoding: there must be four of them, and each a letter.
    pub open spec fn parse_text(text: Seq<char>) -> Result<ChunkType, FormatError> {
        let bytes = encode_utf8(text);
        if bytes.len() != 4 {
            Err(FormatError::WrongLength)
        } else if !all_letters(bytes) {
            Err(FormatError::InvalidCharacter)
        } else {
            Ok(ChunkType::of(bytes))
        }
    }

    /// The canonical text: each byte as the ASCII character it stands for.
    pub open spec fn render(&self) -> Seq<char> {
        ascii_text(self@)
    }

    /// `of` stores exactly the bytes it is given.
    pub proof fn lemma_view_of(bytes: Seq<u8>)
        requires
            bytes.len() == 4,
        ensures
            ChunkType::of(bytes)@ == bytes,
    {
        assert(ChunkType::of(bytes)@ =~= bytes);
    }

    /// A chunk type is determined by its bytes.
    pub proof fn lemma_of_view(self)
        ensures
            ChunkType::of(self@) == self,
    {
        assert(ChunkType::of(self@).chunk =~= self.chunk);
    }

    /// The four bytes.
    #[verifier::when_used_as_spec(spec_bytes)]
    pub fn bytes(&self) -> (r: [u8; 4])
        ensures
            r == self.spec_bytes(),
            all_ascii(r@),
    {
        proof {
            use_type_invariant(self);
        }
        self.chunk
    }
}

impl PartialEq for ChunkType {
    /// Byte by byte, with no folding of case.
    fn eq(&self, other: &ChunkType) -> (r: bool) {
        let same = self.chunk[0] == other.chunk[0] && self.chunk[1] == other.chunk[1]
            && self.chunk[2] == other.chunk[2] && self.chunk[3] == other.chunk[3];
        proof {
            if same {
                assert(self@ =~= other@);
            }
        }
        same
    }
}

impl PartialEqSpecImpl for ChunkType {
    open spec fn obeys_eq_spec() -> bool {
        true
    }

    /// Two chunk types are equal when their bytes are, in order.
    open spec fn eq_spec(&self, other: &ChunkType) -> bool {
        self@ == other@
    }
}

impl TryFromSpecImpl<[u8; 4]> for ChunkType {
    open spec fn obeys_try_from_spec() -> bool {
        true
    }

    open spec fn try_from_spec(value: [u8; 4]) -> Result<ChunkType, FormatError> {
        ChunkType::parse_bytes(value@)
    }
}

impl TryFrom<[u8; 4]> for ChunkType {
    type Error = FormatError;

    /// Takes four raw bytes as a chunk type if all of them are ASCII, and
    /// refuses them with `NonAsciiByte` otherwise. The bytes need not be
    /// letters.
    fn try_from(value: [u8; 4]) -> (r: Result<ChunkType, FormatError>)
        ensures
            r == ChunkType::parse_bytes(value@),
            r matches Ok(c) ==> c@ == value@,
    {
        if slice_is_ascii(value.as_slice()) {
            let c = ChunkType { chunk: value };
            proof {
                ChunkType::lemma_view_of(value@);
                c.lemma_of_view();
            }
            Ok(c)
        } else {
            Err(FormatError::NonAsciiByte)
        }
    }
}

impl FromStr for ChunkType {
    type Err = FormatError;

    /// Reads a chunk type from text. The text must be four bytes long in
    /// UTF-8, else it is refused with `WrongLength`; and each byte must be
    /// an ASCII letter, else it is refused with `InvalidCharacter`.
    fn from_str(s: &str) -> (r: Result<ChunkType, FormatError>)
        ensures
            r == ChunkType::parse_text(s@),
            r matches Ok(c) ==> c@ == encode_utf8(s@) && c.render() == s@,
    {
        let bytes = s.as_bytes();
        if bytes.len() != 4 {
            return Err(FormatError::WrongLength);
        }
        if !slice_is_letters(bytes) {
            return Err(FormatError::InvalidCharacter);
        }
        let sized: [u8; 4] = [bytes[0], bytes[1], bytes[2], bytes[3]];
        proof {
            assert(sized@ =~= bytes@);
            lemma_letters_are_ascii(bytes@);
            lemma_ascii_bytes_decode_to_text(s@);
        }
        ChunkType::try_from(sized)
    }
}

impl ChunkType {
    /// Renders the chunk type as its four ASCII characters.
    pub fn to_string(&self) -> (r: String)
        ensures
            r@ == self.render(),
            is_ascii_chars(r@),
            encode_utf8(r@) == self@,
    {
        let mut text = String::new();
        let mut i: usize = 0;
        while i < 4
            invariant
                i <= 4,
                text@ == ascii_text(self@.take(i as int)),
            decreases 4 - i,
        {
            text.push(self.chunk[i] as char);
            i = i + 1;
            assert(text@ =~= ascii_text(self@.take(i as int)));
        }
        proof {
            use_type_invariant(self);
            assert(self@.take(4) =~= self@);
            lemma_ascii_text_encodes_to_bytes(self@);
        }
        text
    }

    /// Byte 0 has its case bit clear: the chunk is critical, not ancillary.
    pub open spec fn spec_is_critical(&self) -> bool {
        !case_bit_set(self@[0])
    }

    /// Byte 1 has its case bit clear: the chunk is public, not private.
    pub open spec fn spec_is_public(&self) -> bool {
        !case_bit_set(self@[1])
    }

    /// Byte 2 has its case bit clear, as this revision of the format asks.
    pub open spec fn spec_is_reserved_bit_valid(&self) -> bool {
        !case_bit_set(self@[2])
    }

    /// Byte 3 has its case bit set: the chunk is safe to copy.
    pub open spec fn spec_is_safe_to_copy(&self) -> bool {
        case_bit_set(self@[3])
    }

    /// The reserved bit is valid and every byte is an ASCII letter.
    pub open spec fn spec_is_valid(&self) -> bool {
        self.spec_is_reserved_bit_valid() && all_letters(self@)
    }

    /// Tells whether the chunk is critical: whether the case bit of byte 0
    /// is clear, which for a letter means uppercase.
    #[verifier::when_used_as_spec(spec_is_critical)]
    pub fn is_critical(&self) -> (r: bool)
        ensures
            r == self.spec_is_critical(),
    {
        !byte_has_case_bit(self.chunk[0])
    }

    /// Tells whether the chunk is public: whether the case bit of byte 1 is
    /// clear, which for a letter means uppercase.
    #[verifier::when_used_as_spec(spec_is_public)]
    pub fn is_public(&self) -> (r: bool)
        ensures
            r == self.spec_is_public(),
    {
        !byte_has_case_bit(self.chunk[1])
    }

    /// Tells whether the reserved bit is valid: whether the case bit of
    /// byte 2 is clear, which for a letter means uppercase.
    #[verifier::when_used_as_spec(spec_is_reserved_bit_valid)]
    pub fn is_reserved_bit_valid(&self) -> (r: bool)
        ensures
            r == self.spec_is_reserved_bit_valid(),
    {
        !byte_has_case_bit(self.chunk[2])
    }

    /// Tells whether the chunk is safe to copy: whether the case bit of
    /// byte 3 is set, which for a letter means lowercase.
    #[verifier::when_used_as_spec(spec_is_safe_to_copy)]
    pub fn is_safe_to_copy(&self) -> (r: bool)
        ensures
            r == self.spec_is_safe_to_copy(),
    {
        byte_has_case_bit(self.chunk[3])
    }

    /// Tells whether the chunk type conforms to the format: whether its
    /// reserved bit is valid and all four bytes are letters.
    #[verifier::when_used_as_spec(spec_is_valid)]
    pub fn is_valid(&self) -> (r: bool)
        ensures
            r == self.spec_is_valid(),
    {
        self.is_reserved_bit_valid() && slice_is_letters(self.chunk.as_slice())
    }
}

} // verus!
