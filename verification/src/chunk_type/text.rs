//! Text over ASCII bytes: how a sequence of 7-bit bytes reads as
//! characters, and how the UTF-8 bytes of a string relate to its characters
//! when all of them are ASCII.

use crate::chunk_type::ascii::{all_ascii, all_letters, is_ascii_byte, is_letter};
use vstd::prelude::*;
use vstd::utf8::*;

verus! {

/// `String::push` of the standard library, which vstd leaves without a
/// specification: it appends the one character `ch` to the end of the
/// string and changes nothing else.
pub assume_specification[ String::push ](s: &mut String, ch: char)
    ensures
        final(s)@ == old(s)@.push(ch),
;

/// `c` is one of `A`..`Z` or `a`..`z`.
pub open spec fn is_letter_char(c: char) -> bool {
    ('A' <= c <= 'Z') || ('a' <= c <= 'z')
}

/// Every character of `text` is an ASCII letter.
pub open spec fn all_letter_chars(text: Seq<char>) -> bool {
    forall|i: int| 0 <= i < text.len() ==> is_letter_char(#[trigger] text[i])
}

/// The text that shows each byte of `bytes` as the character with that
/// code. For 7-bit bytes this is the ASCII reading of the sequence.
pub open spec fn ascii_text(bytes: Seq<u8>) -> Seq<char> {
    Seq::new(bytes.len(), |i: int| bytes[i] as char)
}

/// The ASCII reading of 7-bit bytes is ASCII text, and its UTF-8 encoding
/// is the byte sequence it was read from.
pub proof fn lemma_ascii_text_encodes_to_bytes(bytes: Seq<u8>)
    requires
        all_ascii(bytes),
    ensures
        is_ascii_chars(ascii_text(bytes)),
        encode_utf8(ascii_text(bytes)) == bytes,
{
    let text = ascii_text(bytes);
    assert forall|i: int| 0 <= i < text.len() implies '\0' <= #[trigger] text[i] <= '\u{7f}' by {
        assert(is_ascii_byte(bytes[i]));
    }
    is_ascii_chars_encode_utf8(text);
    assert forall|i: int| 0 <= i < bytes.len() implies encode_utf8(text)[i] == bytes[i] by {
        assert(is_ascii_byte(bytes[i]));
        assert(text[i] as u8 == encode_utf8(text)[i]);
    }
    assert(encode_utf8(text) =~= bytes);
}

/// A character lies between the first and the last character, so its code
/// fits in 32 bits unchanged.
proof fn lemma_char_code_in_range(c: char)
    ensures
        '\0' <= c <= '\u{10ffff}',
        is_scalar(c as u32),
{
}

/// The first byte that a character outside ASCII encodes to has its top
/// bit set.
proof fn lemma_wide_scalar_leads_with_high_byte(scalar: u32)
    requires
        is_scalar(scalar),
        !has_width_1_encoding(scalar),
    ensures
        encode_scalar(scalar).len() >= 1,
        encode_scalar(scalar)[0] > 0x7f,
{
    assert(leading_byte_width_2(scalar) > 0x7f) by (bit_vector);
    assert(leading_byte_width_3(scalar) > 0x7f) by (bit_vector);
    assert(leading_byte_width_4(scalar) > 0x7f) by (bit_vector);
}

/// A text whose UTF-8 encoding holds only 7-bit bytes is ASCII text: it has
/// one character for each byte, and it is the ASCII reading of its bytes.
pub proof fn lemma_ascii_bytes_decode_to_text(text: Seq<char>)
    requires
        all_ascii(encode_utf8(text)),
    ensures
        is_ascii_chars(text),
        encode_utf8(text).len() == text.len(),
        ascii_text(encode_utf8(text)) == text,
    decreases text.len(),
{
    let bytes = encode_utf8(text);
    if text.len() > 0 {
        lemma_char_code_in_range(text[0]);
        let first = text[0] as u32;
        let rest = text.drop_first();
        assert(bytes == encode_scalar(first) + encode_utf8(rest));
        if !has_width_1_encoding(first) {
            lemma_wide_scalar_leads_with_high_byte(first);
            assert(bytes[0] == encode_scalar(first)[0]);
            assert(is_ascii_byte(bytes[0]));
        }
        assert(encode_scalar(first).len() == 1);
        assert forall|i: int| 0 <= i < encode_utf8(rest).len() implies is_ascii_byte(
            #[trigger] encode_utf8(rest)[i],
        ) by {
            assert(encode_utf8(rest)[i] == bytes[i + 1]);
            assert(is_ascii_byte(bytes[i + 1]));
        }
        lemma_ascii_bytes_decode_to_text(rest);
        assert forall|i: int| 0 <= i < text.len() implies '\0' <= #[trigger] text[i] <= '\u{7f}' by {
            if i > 0 {
                assert(text[i] == rest[i - 1]);
                assert('\0' <= rest[i - 1] <= '\u{7f}');
            }
        }
        is_ascii_chars_encode_utf8(text);
    }
    assert(ascii_text(bytes) =~= text);
}

/// Text of ASCII letters encodes to as many bytes, each the code of its
/// letter.
pub proof fn lemma_letter_text_encodes_to_letters(text: Seq<char>)
    requires
        all_letter_chars(text),
    ensures
        encode_utf8(text).len() == text.len(),
        all_letters(encode_utf8(text)),
        ascii_text(encode_utf8(text)) == text,
{
    assert forall|i: int| 0 <= i < text.len() implies '\0' <= #[trigger] text[i] <= '\u{7f}' by {
        assert(is_letter_char(text[i]));
    }
    is_ascii_chars_encode_utf8(text);
    let bytes = encode_utf8(text);
    assert forall|i: int| 0 <= i < bytes.len() implies is_letter(#[trigger] bytes[i]) by {
        assert(is_letter_char(text[i]));
        assert(text[i] as u8 == bytes[i]);
    }
    assert(ascii_text(bytes) =~= text);
}

/// A text whose UTF-8 encoding holds only ASCII letters is made of
/// letters, one for each byte.
pub proof fn lemma_letter_bytes_decode_to_letters(text: Seq<char>)
    requires
        all_letters(encode_utf8(text)),
    ensures
        encode_utf8(text).len() == text.len(),
        all_letter_chars(text),
{
    let bytes = encode_utf8(text);
    assert forall|i: int| 0 <= i < bytes.len() implies is_ascii_byte(#[trigger] bytes[i]) by {
        assert(is_letter(bytes[i]));
    }
    lemma_ascii_bytes_decode_to_text(text);
    is_ascii_chars_encode_utf8(text);
    assert forall|i: int| 0 <= i < text.len() implies is_letter_char(#[trigger] text[i]) by {
        assert(is_letter(bytes[i]));
        assert(text[i] as u8 == bytes[i]);
    }
}

} // verus!
