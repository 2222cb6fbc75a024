//! Comparison of strings by their characters, exactly or without regard to
//! the case of the letters `a` to `z`.

use vstd::prelude::*;
use vstd::string::StringSliceAdditionalSpecFns;
use vstd::utf8::{
    char_is_scalar, encode_scalar, encode_utf8, encode_utf8_decode_utf8, has_width_1_encoding,
};

verus! {

/// The upper-case form of a character: the letters `a` to `z` become `A` to
/// `Z`, every other character stays as it is.
pub open spec fn upper(c: char) -> char {
    if 'a' <= c && c <= 'z' {
        ((c as u8) - 32) as char
    } else {
        c
    }
}

/// A string with each character in its upper-case form.
pub open spec fn to_upper(s: Seq<char>) -> Seq<char> {
    Seq::new(s.len(), |i: int| upper(s[i]))
}

/// Whether two strings are the same but for the case of their letters.
pub open spec fn same_ignoring_case(a: Seq<char>, b: Seq<char>) -> bool {
    to_upper(a) == to_upper(b)
}

/// The upper-case form of a byte: the bytes that encode the letters `a` to
/// `z` become those that encode `A` to `Z`, every other byte stays as it is.
spec fn upper_byte(b: u8) -> u8 {
    if 0x61 <= b && b <= 0x7a {
        (b - 32) as u8
    } else {
        b
    }
}

/// A string of bytes with each byte in its upper-case form.
spec fn upper_bytes(bytes: Seq<u8>) -> Seq<u8> {
    Seq::new(bytes.len(), |i: int| upper_byte(bytes[i]))
}

/// A letter from `a` to `z` is encoded in the one byte that is its number.
proof fn lemma_letter_is_one_byte(c: u32)
    by (bit_vector)
    requires
        0x61 <= c && c <= 0x7a,
    ensures
        (c & 0x7F) as u8 == c as u8,
        0x61 <= c as u8 && c as u8 <= 0x7a,
        ((c - 32) as u32 & 0x7F) as u8 == (c as u8 - 32) as u8,
{
}

/// A character of one byte that is no letter from `a` to `z` is encoded in
/// a byte that is none either.
proof fn lemma_other_one_byte(c: u32)
    by (bit_vector)
    requires
        c <= 0x7F,
        !(0x61 <= c && c <= 0x7a),
    ensures
        !(0x61 <= (c & 0x7F) as u8 && (c & 0x7F) as u8 <= 0x7a),
{
}

/// The bytes of a character that takes more than one lie above every letter.
proof fn lemma_wide_bytes_are_high(c: u32)
    by (bit_vector)
    ensures
        0xC0u8 | ((c >> 6) & 0x1F) as u8 >= 0x80,
        0xE0u8 | ((c >> 12) & 0x0F) as u8 >= 0x80,
        0xF0u8 | ((c >> 18) & 0x7) as u8 >= 0x80,
        0x80u8 | (c & 0x3F) as u8 >= 0x80,
        0x80u8 | ((c >> 6) & 0x3F) as u8 >= 0x80,
        0x80u8 | ((c >> 12) & 0x3F) as u8 >= 0x80,
{
}

/// Encoding the upper-case form of a character gives the upper-case form of
/// the bytes that encode the character.
proof fn lemma_upper_commutes_with_encoding_of_char(c: char)
    ensures
        encode_scalar(upper(c) as u32) == upper_bytes(encode_scalar(c as u32)),
{
    let n = c as u32;
    char_is_scalar(c);
    if 'a' <= c && c <= 'z' {
        lemma_letter_is_one_byte(n);
        assert(upper(c) as u32 == n - 32);
        assert(encode_scalar(upper(c) as u32) =~= upper_bytes(encode_scalar(n)));
    } else {
        if has_width_1_encoding(n) {
            lemma_other_one_byte(n);
        } else {
            lemma_wide_bytes_are_high(n);
        }
        assert(encode_scalar(n) =~= upper_bytes(encode_scalar(n)));
    }
}

/// Encoding the upper-case form of a string gives the upper-case form of the
/// bytes that encode the string.
proof fn lemma_upper_commutes_with_encoding(s: Seq<char>)
    ensures
        encode_utf8(to_upper(s)) == upper_bytes(encode_utf8(s)),
    decreases s.len(),
{
    if s.len() == 0 {
        assert(encode_utf8(to_upper(s)) =~= upper_bytes(encode_utf8(s)));
    } else {
        let rest = s.drop_first();
        lemma_upper_commutes_with_encoding_of_char(s[0]);
        lemma_upper_commutes_with_encoding(rest);
        assert(to_upper(s).drop_first() =~= to_upper(rest));
        assert(to_upper(s)[0] == upper(s[0]));
        assert(upper_bytes(encode_scalar(s[0] as u32) + encode_utf8(rest)) =~= upper_bytes(
            encode_scalar(s[0] as u32),
        ) + upper_bytes(encode_utf8(rest)));
    }
}

/// Whether two strings hold the same characters.
///
/// The comparison runs over the UTF-8 bytes; since the encoding is injective,
/// equal bytes mean equal characters.
pub fn same_text(a: &str, b: &str) -> (same: bool)
    ensures
        same == (a@ == b@),
{
    let x = a.as_bytes();
    let y = b.as_bytes();
    if x.len() != y.len() {
        return false;
    }
    let mut i: usize = 0;
    while i < x.len()
        invariant
            x@.len() == y@.len(),
            i <= x@.len(),
            x@ == a.spec_bytes(),
            y@ == b.spec_bytes(),
            forall|k: int| 0 <= k < i ==> x@[k] == y@[k],
        decreases x@.len() - i,
    {
        if x[i] != y[i] {
            return false;
        }
        i += 1;
    }
    proof {
        assert(x@ =~= y@);
        encode_utf8_decode_utf8(a@);
        encode_utf8_decode_utf8(b@);
    }
    true
}

/// The upper-case form of a byte.
fn to_upper_byte(b: u8) -> (u: u8)
    ensures
        u == upper_byte(b),
{
    if 0x61 <= b && b <= 0x7a {
        b - 32
    } else {
        b
    }
}

/// Whether two strings are the same but for the case of their letters.
///
/// The comparison runs over the UTF-8 bytes: a letter from `a` to `z` is one
/// byte, and no byte of any other character is mistaken for one.
pub fn same_text_ignoring_case(a: &str, b: &str) -> (same: bool)
    ensures
        same == same_ignoring_case(a@, b@),
{
    let x = a.as_bytes();
    let y = b.as_bytes();
    proof {
        lemma_upper_commutes_with_encoding(a@);
        lemma_upper_commutes_with_encoding(b@);
        encode_utf8_decode_utf8(to_upper(a@));
        encode_utf8_decode_utf8(to_upper(b@));
    }
    if x.len() != y.len() {
        assert(upper_bytes(x@).len() != upper_bytes(y@).len());
        return false;
    }
    let mut i: usize = 0;
    while i < x.len()
        invariant
            x@.len() == y@.len(),
            i <= x@.len(),
            encode_utf8(to_upper(a@)) == upper_bytes(x@),
            encode_utf8(to_upper(b@)) == upper_bytes(y@),
            forall|k: int| 0 <= k < i ==> upper_byte(x@[k]) == upper_byte(y@[k]),
        decreases x@.len() - i,
    {
        if to_upper_byte(x[i]) != to_upper_byte(y[i]) {
            assert(upper_bytes(x@)[i as int] != upper_bytes(y@)[i as int]);
            return false;
        }
        i += 1;
    }
    assert(upper_bytes(x@) =~= upper_bytes(y@));
    true
}

} // verus!
