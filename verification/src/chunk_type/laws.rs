//! What holds of chunk types in general: parsing and rendering undo each
//! other, equality is equality of bytes, and on letters the flags are the
//! letters' case.

use crate::chunk_type::ascii::{
    all_ascii, all_letters, is_letter, is_lowercase_letter, is_uppercase_letter,
    lemma_case_bit_is_letter_case, lemma_letters_are_ascii,
};
use crate::chunk_type::chunk::{ChunkType, FormatError};
use crate::chunk_type::text::{
    all_letter_chars, lemma_ascii_text_encodes_to_bytes, lemma_letter_bytes_decode_to_letters,
    lemma_letter_text_encodes_to_letters,
};
use vstd::prelude::*;
use vstd::std_specs::cmp::PartialEqSpec;
use vstd::utf8::encode_utf8;

verus! {

/// Text is accepted exactly when it is four ASCII letters.
pub proof fn lemma_parse_text_accepts_four_letters(text: Seq<char>)
    ensures
        ChunkType::parse_text(text) is Ok <==> text.len() == 4 && all_letter_chars(text),
{
    if text.len() == 4 && all_letter_chars(text) {
        lemma_letter_text_encodes_to_letters(text);
    }
    if ChunkType::parse_text(text) is Ok {
        lemma_letter_bytes_decode_to_letters(text);
    }
}

/// Round trip from text: four ASCII letters are accepted, and the chunk
/// type they give renders as the same four letters.
pub proof fn lemma_parse_then_render(text: Seq<char>)
    requires
        text.len() == 4,
        all_letter_chars(text),
    ensures
        ChunkType::parse_text(text) is Ok,
        ChunkType::parse_text(text)->Ok_0.render() == text,
{
    lemma_letter_text_encodes_to_letters(text);
    ChunkType::lemma_view_of(encode_utf8(text));
}

/// Round trip from a chunk type: one made of letters renders as text that
/// is accepted and gives the same chunk type again.
pub proof fn lemma_render_then_parse(c: ChunkType)
    requires
        all_letters(c@),
    ensures
        ChunkType::parse_text(c.render()) == Ok::<ChunkType, FormatError>(c),
{
    lemma_letters_are_ascii(c@);
    lemma_ascii_text_encodes_to_bytes(c@);
    c.lemma_of_view();
}

/// A chunk type built from text is made of letters, so it is valid exactly
/// when its reserved bit is.
pub proof fn lemma_parsed_text_is_letters(text: Seq<char>)
    requires
        ChunkType::parse_text(text) is Ok,
    ensures
        all_letters(ChunkType::parse_text(text)->Ok_0@),
        ChunkType::parse_text(text)->Ok_0.is_valid() == ChunkType::parse_text(
            text,
        )->Ok_0.is_reserved_bit_valid(),
{
    ChunkType::lemma_view_of(encode_utf8(text));
}

/// Four ASCII bytes are accepted as they are, whether letters or not, and
/// the chunk type they give equals itself.
pub proof fn lemma_parse_bytes_keeps_bytes(bytes: Seq<u8>)
    requires
        bytes.len() == 4,
        all_ascii(bytes),
    ensures
        ChunkType::parse_bytes(bytes) is Ok,
        ChunkType::parse_bytes(bytes)->Ok_0@ == bytes,
        ChunkType::parse_bytes(bytes)->Ok_0.eq_spec(&ChunkType::parse_bytes(bytes)->Ok_0),
{
    ChunkType::lemma_view_of(bytes);
}

/// Different bytes give different chunk types: nothing is folded, the case
/// of a letter least of all.
pub proof fn lemma_parse_bytes_injective(a: Seq<u8>, b: Seq<u8>)
    requires
        a.len() == 4,
        b.len() == 4,
        all_ascii(a),
        all_ascii(b),
    ensures
        ChunkType::parse_bytes(a) == ChunkType::parse_bytes(b) <==> a == b,
{
    ChunkType::lemma_view_of(a);
    ChunkType::lemma_view_of(b);
}

/// Equality is reflexive.
pub proof fn lemma_eq_reflexive(a: ChunkType)
    ensures
        a.eq_spec(&a),
{
}

/// Equality is symmetric.
pub proof fn lemma_eq_symmetric(a: ChunkType, b: ChunkType)
    ensures
        a.eq_spec(&b) == b.eq_spec(&a),
{
}

/// Equality is transitive.
pub proof fn lemma_eq_transitive(a: ChunkType, b: ChunkType, c: ChunkType)
    requires
        a.eq_spec(&b),
        b.eq_spec(&c),
    ensures
        a.eq_spec(&c),
{
}

/// Two chunk types with the same bytes are the same value, and only those.
pub proof fn lemma_eq_is_identity(a: ChunkType, b: ChunkType)
    ensures
        a.eq_spec(&b) <==> a == b,
{
    a.lemma_of_view();
    b.lemma_of_view();
}

/// On a chunk type made of letters each flag is the case of its letter:
/// critical, public and reserved-bit-valid say that bytes 0, 1 and 2 are
/// uppercase, safe-to-copy says that byte 3 is lowercase.
pub proof fn lemma_flags_are_letter_case(c: ChunkType)
    requires
        all_letters(c@),
    ensures
        c.is_critical() <==> is_uppercase_letter(c@[0]),
        c.is_public() <==> is_uppercase_letter(c@[1]),
        c.is_reserved_bit_valid() <==> is_uppercase_letter(c@[2]),
        c.is_safe_to_copy() <==> is_lowercase_letter(c@[3]),
        c.is_valid() <==> is_uppercase_letter(c@[2]),
{
    assert(is_letter(c@[0]) && is_letter(c@[1]) && is_letter(c@[2]) && is_letter(c@[3]));
    lemma_case_bit_is_letter_case(c@[0]);
    lemma_case_bit_is_letter_case(c@[1]);
    lemma_case_bit_is_letter_case(c@[2]);
    lemma_case_bit_is_letter_case(c@[3]);
}

} // verus!
