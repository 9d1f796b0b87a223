//! Classification of single bytes and of byte sequences as ASCII, as
//! ASCII letters, and by the bit that carries a letter's case.

use vstd::prelude::*;

verus! {

/// The bit that separates the two cases of an ASCII letter: clear in
/// `A`..`Z`, set in `a`..`z`.
pub const CASE_BIT: u8 = 0x20;

/// `b` is a 7-bit value.
pub open spec fn is_ascii_byte(b: u8) -> bool {
    b <= 0x7f
}

/// `b` is one of `A`..`Z`.
pub open spec fn is_uppercase_letter(b: u8) -> bool {
    0x41 <= b <= 0x5a
}

/// `b` is one of `a`..`z`.
pub open spec fn is_lowercase_letter(b: u8) -> bool {
    0x61 <= b <= 0x7a
}

/// `b` is an ASCII letter of either case.
pub open spec fn is_letter(b: u8) -> bool {
    is_uppercase_letter(b) || is_lowercase_letter(b)
}

/// The case bit of `b` is set. On a letter this says that it is lowercase;
/// on any other byte it is just the value of that bit.
pub open spec fn case_bit_set(b: u8) -> bool {
    b & CASE_BIT == CASE_BIT
}

/// Every byte of `bytes` is a 7-bit value.
pub open spec fn all_ascii(bytes: Seq<u8>) -> bool {
    forall|i: int| 0 <= i < bytes.len() ==> is_ascii_byte(#[trigger] bytes[i])
}

/// Every byte of `bytes` is an ASCII letter.
pub open spec fn all_letters(bytes: Seq<u8>) -> bool {
    forall|i: int| 0 <= i < bytes.len() ==> is_letter(#[trigger] bytes[i])
}

/// On ASCII letters the case bit and the case agree: the bit is set in
/// exactly the lowercase letters and clear in exactly the uppercase ones.
pub proof fn lemma_case_bit_is_letter_case(b: u8)
    requires
        is_letter(b),
    ensures
        case_bit_set(b) <==> is_lowercase_letter(b),
        !case_bit_set(b) <==> is_uppercase_letter(b),
{
    assert((0x41 <= b <= 0x5a) ==> b & 0x20 != 0x20) by (bit_vector);
    assert((0x61 <= b <= 0x7a) ==> b & 0x20 == 0x20) by (bit_vector);
}

/// Letters are ASCII.
pub proof fn lemma_letters_are_ascii(bytes: Seq<u8>)
    requires
        all_letters(bytes),
    ensures
        all_ascii(bytes),
{
    assert forall|i: int| 0 <= i < bytes.len() implies is_ascii_byte(#[trigger] bytes[i]) by {
        assert(is_letter(bytes[i]));
    }
}

/// Tells whether `b` is an ASCII letter.
pub fn byte_is_letter(b: u8) -> (r: bool)
    ensures
        r == is_letter(b),
{
    (0x41 <= b && b <= 0x5a) || (0x61 <= b && b <= 0x7a)
}

/// Reads the case bit of `b`.
pub fn byte_has_case_bit(b: u8) -> (r: bool)
    ensures
        r == case_bit_set(b),
{
    b & CASE_BIT == CASE_BIT
}

/// Tells whether every byte of the slice is a 7-bit value.
pub fn slice_is_ascii(bytes: &[u8]) -> (r: bool)
    ensures
        r == all_ascii(bytes@),
{
    let mut i: usize = 0;
    while i < bytes.len()
        invariant
            i <= bytes.len(),
            forall|j: int| 0 <= j < i ==> is_ascii_byte(#[trigger] bytes@[j]),
        decreases bytes.len() - i,
    {
        if bytes[i] > 0x7f {
            assert(!is_ascii_byte(bytes@[i as int]));
            return false;
        }
        i = i + 1;
    }
    true
}

/// Tells whether every byte of the slice is an ASCII letter.
pub fn slice_is_letters(bytes: &[u8]) -> (r: bool)
    ensures
        r == all_letters(bytes@),
{
    let mut i: usize = 0;
    while i < bytes.len()
        invariant
            i <= bytes.len(),
            forall|j: int| 0 <= j < i ==> is_letter(#[trigger] bytes@[j]),
        decreases bytes.len() - i,
    {
        if !byte_is_letter(bytes[i]) {
            assert(!is_letter(bytes@[i as int]));
            return false;
        }
        i = i + 1;
    }
    true
}

} // verus!
