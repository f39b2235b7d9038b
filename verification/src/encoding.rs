//! How the characters of a text stand in the bytes that encode it.

use crate::text::{
    first_index, lemma_first_index_after, lemma_first_index_is_first, pieces,
};
use vstd::prelude::*;
use vstd::utf8::*;

verus! {

/// The encoding of a text is the encoding of its first part followed by the
/// encoding of the rest.
pub proof fn lemma_encode_concat(a: Seq<char>, b: Seq<char>)
    ensures
        encode_utf8(a + b) == encode_utf8(a) + encode_utf8(b),
    decreases a.len(),
{
    if a.len() == 0 {
        assert(a + b =~= b);
        assert(encode_utf8(a) + encode_utf8(b) =~= encode_utf8(b));
    } else {
        lemma_encode_concat(a.drop_first(), b);
        assert((a + b).drop_first() =~= a.drop_first() + b);
        assert(encode_utf8(a + b) =~= encode_utf8(a) + encode_utf8(b));
    }
}

/// In the encoding of a text, a character starts where the encoding of any
/// of its leading parts ends.
pub proof fn lemma_boundary_after_prefix(a: Seq<char>, b: Seq<char>)
    ensures
        is_char_boundary(encode_utf8(a + b), encode_utf8(a).len() as int),
    decreases a.len(),
{
    let text = a + b;
    let bytes = encode_utf8(text);
    encode_utf8_valid_utf8(text);
    if a.len() == 0 {
    } else {
        lemma_encode_concat(a, b);
        encode_utf8_first_scalar(text);
        encode_utf8_first_scalar(a);
        assert(text.drop_first() =~= a.drop_first() + b);
        assert(pop_first_scalar(bytes) =~= encode_utf8(text.drop_first()));
        lemma_boundary_after_prefix(a.drop_first(), b);
        assert(encode_utf8(a) =~= encode_scalar(a[0] as u32) + encode_utf8(a.drop_first()));
    }
}

/// Whether a character is one of ASCII, which a single byte encodes.
pub open spec fn is_ascii_char(c: char) -> bool {
    (c as u32) < 0x80
}

/// A character of ASCII is encoded by the byte of its number, and every byte
/// that encodes another character is 0x80 or more.
pub proof fn lemma_encoding_of_a_character(c: char)
    ensures
        is_ascii_char(c) ==> encode_scalar(c as u32) == seq![c as u8],
        !is_ascii_char(c) ==> forall|i: int|
            0 <= i < encode_scalar(c as u32).len() ==> #[trigger] encode_scalar(c as u32)[i]
                >= 0x80,
        encode_scalar(c as u32).len() >= 1,
{
    let scalar = c as u32;
    char_is_scalar(c);
    assert(scalar <= 0x7F ==> (scalar & 0x7F) as u8 == scalar as u8) by (bit_vector);
    assert(0xC0u8 | ((scalar >> 6) & 0x1F) as u8 >= 0x80) by (bit_vector);
    assert(0xE0u8 | ((scalar >> 12) & 0x0F) as u8 >= 0x80) by (bit_vector);
    assert(0xF0u8 | ((scalar >> 18) & 0x7) as u8 >= 0x80) by (bit_vector);
    assert(0x80u8 | (scalar & 0x3F) as u8 >= 0x80) by (bit_vector);
    assert(0x80u8 | ((scalar >> 6) & 0x3F) as u8 >= 0x80) by (bit_vector);
    assert(0x80u8 | ((scalar >> 12) & 0x3F) as u8 >= 0x80) by (bit_vector);
}

/// An ASCII character is the character of its byte: two of them with the same
/// byte are the same.
pub proof fn lemma_ascii_char_of_byte(c: char, byte: u8)
    requires
        is_ascii_char(c),
        c as u8 == byte,
    ensures
        byte < 0x80,
        c == byte as char,
{
    char_u32_cast(c, c as u32);
    assert(c as u32 == byte as u32);
}

/// In the encoding of a text, the byte of an ASCII character first stands
/// where the character first stands in the text.
pub proof fn lemma_first_index_of_encoding(text: Seq<char>, separator: char)
    requires
        is_ascii_char(separator),
    ensures
        first_index(encode_utf8(text), separator as u8) == encode_utf8(
            text.take(first_index(text, separator)),
        ).len(),
        first_index(text, separator) < text.len() <==> first_index(
            encode_utf8(text),
            separator as u8,
        ) < encode_utf8(text).len(),
    decreases text.len(),
{
    if text.len() == 0 {
        assert(text.take(0) =~= text);
    } else {
        let rest = text.drop_first();
        let head = encode_scalar(text[0] as u32);
        lemma_encoding_of_a_character(text[0]);
        lemma_encoding_of_a_character(separator);
        if text[0] == separator {
            assert(text.take(0) =~= Seq::<char>::empty());
            assert(encode_utf8(text)[0] == head[0]);
        } else {
            lemma_first_index_of_encoding(rest, separator);
            lemma_first_index_is_first(rest, separator);
            assert forall|i: int| 0 <= i < head.len() implies head[i] != separator as u8 by {
                if is_ascii_char(text[0]) && text[0] as u8 == separator as u8 {
                    lemma_ascii_char_of_byte(text[0], separator as u8);
                    lemma_ascii_char_of_byte(separator, separator as u8);
                }
            }
            lemma_first_index_after(head, encode_utf8(rest), separator as u8);
            let at = first_index(rest, separator);
            assert(text.take(at + 1) =~= seq![text[0]] + rest.take(at));
            assert(text.take(at + 1).drop_first() =~= rest.take(at));
        }
    }
}

/// The pieces of the encoding of a text between the bytes of an ASCII
/// character are the encodings of the pieces of the text between the
/// occurrences of the character.
pub proof fn lemma_pieces_of_encoding(text: Seq<char>, separator: char)
    requires
        is_ascii_char(separator),
    ensures
        pieces(encode_utf8(text), separator as u8) == pieces(text, separator).map_values(
            |piece: Seq<char>| encode_utf8(piece),
        ),
    decreases text.len(),
{
    let encode = |piece: Seq<char>| encode_utf8(piece);
    let at = first_index(text, separator);
    let bytes = encode_utf8(text);
    lemma_first_index_of_encoding(text, separator);
    lemma_first_index_is_first(text, separator);
    if at < text.len() {
        let before = text.take(at);
        let after = text.skip(at + 1);
        lemma_pieces_of_encoding(after, separator);
        lemma_encoding_of_a_character(separator);
        assert(text =~= before + (seq![separator] + after));
        lemma_encode_concat(before, seq![separator] + after);
        lemma_encode_concat(seq![separator], after);
        assert(encode_utf8(seq![separator]) =~= seq![separator as u8]) by {
            reveal_with_fuel(encode_utf8, 2);
            assert(seq![separator].drop_first() =~= Seq::<char>::empty());
        }
        let first = encode_utf8(before).len() as int;
        assert(bytes.take(first) =~= encode_utf8(before));
        assert(bytes.skip(first + 1) =~= encode_utf8(after));
        assert(pieces(bytes, separator as u8) =~= pieces(text, separator).map_values(encode));
    } else {
        assert(pieces(bytes, separator as u8) =~= pieces(text, separator).map_values(encode));
    }
}

/// A byte below 0x80 is a character of its own: in valid UTF-8, a character
/// starts at it and the next one right after it.
pub proof fn lemma_ascii_byte_boundaries(bytes: Seq<u8>, at: int)
    requires
        valid_utf8(bytes),
        0 <= at < bytes.len(),
        bytes[at] < 0x80,
    ensures
        is_char_boundary(bytes, at),
        valid_utf8(bytes.skip(at)),
        is_char_boundary(bytes.skip(at), 1),
{
    let byte = bytes[at];
    assert(byte < 0x80 ==> byte & 0xC0 != 0x80 && byte & 0x80 == 0) by (bit_vector);
    is_char_boundary_iff_not_is_continuation_byte(bytes, at);
    valid_utf8_split(bytes, at);
    let tail = bytes.skip(at);
    assert(tail[0] == byte);
    assert(is_leading_byte_width_1(tail[0]));
    assert(length_of_first_scalar(tail) == 1);
    reveal_with_fuel(is_char_boundary, 2);
}

} // verus!
