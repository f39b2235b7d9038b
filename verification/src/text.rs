//! Texts and their pieces: what stands between the occurrences of a
//! separator, and what is left of a text once a character is taken off its
//! ends.

use crate::encoding::{
    is_ascii_char, lemma_ascii_byte_boundaries, lemma_ascii_char_of_byte, lemma_encode_concat,
    lemma_encoding_of_a_character, lemma_pieces_of_encoding,
};
use vstd::prelude::*;
use vstd::string::*;
use vstd::utf8::*;

verus! {

/// Whether two strings hold the same characters.
pub fn same_text(a: &str, b: &str) -> (same: bool)
    ensures
        same == (a@ == b@),
{
    let left = a.as_bytes();
    let right = b.as_bytes();
    proof {
        encode_utf8_decode_utf8(a@);
        encode_utf8_decode_utf8(b@);
    }
    if left.len() != right.len() {
        return false;
    }
    let mut i: usize = 0;
    while i < left.len()
        invariant
            i <= left.len(),
            left.len() == right.len(),
            left@ == encode_utf8(a@),
            right@ == encode_utf8(b@),
            forall|j: int| 0 <= j < i ==> left@[j] == right@[j],
        decreases left.len() - i,
    {
        if left[i] != right[i] {
            return false;
        }
        i += 1;
    }
    assert(left@ =~= right@);
    true
}

/// Where `separator` first stands among `items`; the number of items where
/// it stands nowhere.
pub open spec fn first_index<T>(items: Seq<T>, separator: T) -> int
    decreases items.len(),
{
    if items.len() == 0 || items[0] == separator {
        0
    } else {
        1 + first_index(items.drop_first(), separator)
    }
}

/// The pieces of a text between the occurrences of `separator`: one more
/// piece than there are separators, each without a separator in it.
pub open spec fn pieces<T>(items: Seq<T>, separator: T) -> Seq<Seq<T>>
    decreases items.len(),
{
    let first = first_index(items, separator);
    if 0 <= first < items.len() {
        seq![items.take(first)] + pieces(items.skip(first + 1), separator)
    } else {
        seq![items]
    }
}

/// Pieces put together again, with a separator between each two.
pub open spec fn joined<T>(pieces: Seq<Seq<T>>, separator: T) -> Seq<T>
    decreases pieces.len(),
{
    if pieces.len() == 0 {
        Seq::empty()
    } else if pieces.len() == 1 {
        pieces[0]
    } else {
        pieces[0] + seq![separator] + joined(pieces.drop_first(), separator)
    }
}

/// A place with a separator, or the end, and no separator before it, is where
/// `first_index` points.
pub proof fn lemma_first_index<T>(items: Seq<T>, separator: T, at: int)
    requires
        0 <= at <= items.len(),
        forall|i: int| 0 <= i < at ==> items[i] != separator,
        at < items.len() ==> items[at] == separator,
    ensures
        first_index(items, separator) == at,
    decreases items.len(),
{
    if items.len() == 0 || items[0] == separator {
    } else {
        let rest = items.drop_first();
        assert forall|i: int| 0 <= i < at - 1 implies rest[i] != separator by {
            assert(rest[i] == items[i + 1]);
        }
        lemma_first_index(rest, separator, at - 1);
    }
}

/// Where `first_index` points: at a separator, or at the end, with no
/// separator before.
pub proof fn lemma_first_index_is_first<T>(items: Seq<T>, separator: T)
    ensures
        0 <= first_index(items, separator) <= items.len(),
        forall|i: int| 0 <= i < first_index(items, separator) ==> items[i] != separator,
        first_index(items, separator) < items.len() ==> items[first_index(items, separator)]
            == separator,
    decreases items.len(),
{
    if items.len() == 0 || items[0] == separator {
    } else {
        let rest = items.drop_first();
        lemma_first_index_is_first(rest, separator);
        assert forall|i: int| 0 <= i < first_index(items, separator) implies items[i]
            != separator by {
            if i > 0 {
                assert(items[i] == rest[i - 1]);
            }
        }
        if first_index(items, separator) < items.len() {
            assert(items[first_index(items, separator)] == rest[first_index(rest, separator)]);
        }
    }
}

/// What the pieces of a text are: no piece holds a separator, and the pieces
/// with a separator between each two are the text.
pub proof fn lemma_pieces_join<T>(items: Seq<T>, separator: T)
    ensures
        joined(pieces(items, separator), separator) == items,
        forall|i: int, j: int|
            0 <= i < pieces(items, separator).len() && 0 <= j < pieces(items, separator)[i].len()
                ==> #[trigger] pieces(items, separator)[i][j] != separator,
    decreases items.len(),
{
    let first = first_index(items, separator);
    lemma_first_index_is_first(items, separator);
    if 0 <= first < items.len() {
        let rest = items.skip(first + 1);
        let tail = pieces(rest, separator);
        let all = pieces(items, separator);
        lemma_pieces_join(rest, separator);
        lemma_pieces_not_empty(rest, separator);
        assert(all.drop_first() =~= tail);
        assert(all[0] == items.take(first));
        assert(items.take(first) + seq![separator] + rest =~= items);
        assert forall|i: int, j: int|
            0 <= i < all.len() && 0 <= j < all[i].len() implies #[trigger] all[i][j]
            != separator by {
            if i > 0 {
                assert(all[i] == tail[i - 1]);
            }
        }
    }
}

/// There is always a piece, the last one.
pub proof fn lemma_pieces_not_empty<T>(items: Seq<T>, separator: T)
    ensures
        pieces(items, separator).len() >= 1,
    decreases items.len(),
{
    let first = first_index(items, separator);
    if 0 <= first < items.len() {
        lemma_pieces_not_empty(items.skip(first + 1), separator);
    }
}

/// Behind items that hold no separator, the first separator is where it is
/// in what follows them.
pub proof fn lemma_first_index_after<T>(before: Seq<T>, after: Seq<T>, separator: T)
    requires
        forall|i: int| 0 <= i < before.len() ==> before[i] != separator,
    ensures
        first_index(before + after, separator) == before.len() + first_index(after, separator),
    decreases before.len(),
{
    if before.len() == 0 {
        assert(before + after =~= after);
    } else {
        let rest = before.drop_first();
        assert forall|i: int| 0 <= i < rest.len() implies rest[i] != separator by {
            assert(rest[i] == before[i + 1]);
        }
        lemma_first_index_after(rest, after, separator);
        assert((before + after).drop_first() =~= rest + after);
        assert((before + after)[0] == before[0]);
    }
}

/// The pieces of the encoding of a text, each read back as text.
spec fn split_text(text: Seq<char>, separator: u8) -> Seq<Seq<char>> {
    pieces(encode_utf8(text), separator).map_values(|piece: Seq<u8>| decode_utf8(piece))
}

/// The pieces of the encoding of a text, read back, are the pieces of the
/// text.
proof fn lemma_split_text(text: Seq<char>, separator: u8)
    requires
        separator < 0x80,
    ensures
        split_text(text, separator) == pieces(text, separator as char),
        is_ascii_char(separator as char),
{
    let c = separator as char;
    assert(c as u8 == separator);
    lemma_pieces_of_encoding(text, c);
    let of_text = pieces(text, c);
    assert forall|i: int| 0 <= i < of_text.len() implies #[trigger] split_text(text, separator)[i]
        == of_text[i] by {
        encode_utf8_decode_utf8(of_text[i]);
    }
    assert(split_text(text, separator) =~= of_text);
}

/// Splits a text at every occurrence of an ASCII character.
pub fn split(text: &str, separator: u8) -> (parts: Vec<String>)
    requires
        separator < 0x80,
    ensures
        parts.deep_view() == pieces(text@, separator as char),
{
    let mut parts: Vec<String> = Vec::new();
    let mut rest: &str = text;
    assert(parts.deep_view() =~= Seq::<Seq<char>>::empty());
    loop
        invariant
            separator < 0x80,
            parts.deep_view() + split_text(rest@, separator) == split_text(text@, separator),
        decreases rest.spec_bytes().len(),
    {
        let bytes = rest.as_bytes();
        let ghost all = rest.spec_bytes();
        let ghost done = parts.deep_view();
        proof {
            encode_utf8_valid_utf8(rest@);
        }
        let mut at: usize = 0;
        while at < bytes.len() && bytes[at] != separator
            invariant
                at <= bytes.len(),
                bytes@ == all,
                forall|i: int| 0 <= i < at ==> all[i] != separator,
            decreases bytes.len() - at,
        {
            at += 1;
        }
        proof {
            lemma_first_index(all, separator, at as int);
        }
        if at == bytes.len() {
            parts.push(rest.to_owned());
            proof {
                encode_utf8_decode_utf8(rest@);
                assert(pieces(all, separator) =~= seq![all]);
                assert(split_text(rest@, separator) =~= seq![rest@]);
                assert(parts.deep_view() =~= done.push(rest@));
                assert(parts.deep_view() =~= split_text(text@, separator));
                lemma_split_text(text@, separator);
            }
            return parts;
        }
        proof {
            lemma_ascii_byte_boundaries(all, at as int);
        }
        let (head, tail) = rest.split_at(at);
        assert(tail.spec_bytes() =~= all.skip(at as int));
        let (_, after) = tail.split_at(1);
        parts.push(head.to_owned());
        proof {
            let remaining = all.skip(at + 1);
            assert(after.spec_bytes() =~= remaining);
            assert(head.spec_bytes() =~= all.take(at as int));
            encode_utf8_decode_utf8(head@);
            assert(pieces(all, separator) == seq![all.take(at as int)] + pieces(
                remaining,
                separator,
            ));
            assert(split_text(rest@, separator) =~= seq![head@] + split_text(after@, separator));
            assert(parts.deep_view() =~= done.push(head@));
            assert(parts.deep_view() + split_text(after@, separator) =~= split_text(
                text@,
                separator,
            ));
        }
        rest = after;
    }
}

/// Takes the first character off a text where it is a given ASCII character.
pub fn strip_first<'a>(text: &'a str, first: u8) -> (rest: Option<&'a str>)
    requires
        first < 0x80,
    ensures
        match rest {
            Some(rest) => text@.len() > 0 && text@[0] == first as char && rest@
                == text@.drop_first(),
            None => text@.len() == 0 || text@[0] != first as char,
        },
{
    let bytes = text.as_bytes();
    proof {
        encode_utf8_valid_utf8(text@);
        if text@.len() > 0 {
            lemma_encoding_of_a_character(text@[0]);
            assert(encode_utf8(text@)[0] == encode_scalar(text@[0] as u32)[0]);
            if is_ascii_char(text@[0]) && text@[0] as u8 == first {
                lemma_ascii_char_of_byte(text@[0], first);
            }
            if text@[0] == first as char {
                assert((first as char) as u8 == first);
            }
        }
    }
    if bytes.len() > 0 && bytes[0] == first {
        proof {
            lemma_ascii_byte_boundaries(text.spec_bytes(), 0);
            assert(text.spec_bytes().skip(0) =~= text.spec_bytes());
        }
        let (_, rest) = text.split_at(1);
        proof {
            assert(rest.spec_bytes() =~= encode_utf8(text@.drop_first()));
            encode_utf8_decode_utf8(rest@);
            encode_utf8_decode_utf8(text@.drop_first());
        }
        Some(rest)
    } else {
        None
    }
}

/// Takes the last character off a text where it is a given ASCII character.
pub fn strip_last<'a>(text: &'a str, last: u8) -> (rest: Option<&'a str>)
    requires
        last < 0x80,
    ensures
        match rest {
            Some(rest) => text@.len() > 0 && text@.last() == last as char && rest@
                == text@.drop_last(),
            None => text@.len() == 0 || text@.last() != last as char,
        },
{
    let bytes = text.as_bytes();
    let len = bytes.len();
    proof {
        encode_utf8_valid_utf8(text@);
        if text@.len() > 0 {
            let c = text@.last();
            let end = encode_scalar(c as u32);
            lemma_encoding_of_a_character(c);
            assert(text@ =~= text@.drop_last() + seq![c]);
            lemma_encode_concat(text@.drop_last(), seq![c]);
            assert(encode_utf8(seq![c]) =~= end) by {
                reveal_with_fuel(encode_utf8, 2);
                assert(seq![c].drop_first() =~= Seq::<char>::empty());
            }
            assert(encode_utf8(text@).last() == end.last());
            if is_ascii_char(c) && c as u8 == last {
                lemma_ascii_char_of_byte(c, last);
            }
            if c == last as char {
                assert((last as char) as u8 == last);
            }
        }
    }
    if len > 0 && bytes[len - 1] == last {
        proof {
            lemma_ascii_byte_boundaries(text.spec_bytes(), len - 1);
        }
        let (rest, _) = text.split_at(len - 1);
        proof {
            assert(rest.spec_bytes() =~= encode_utf8(text@.drop_last()));
            encode_utf8_decode_utf8(rest@);
            encode_utf8_decode_utf8(text@.drop_last());
        }
        Some(rest)
    } else {
        None
    }
}

/// A text without the run of a character that it starts with.
pub open spec fn trimmed_start(text: Seq<char>, c: char) -> Seq<char>
    decreases text.len(),
{
    if text.len() > 0 && text[0] == c {
        trimmed_start(text.drop_first(), c)
    } else {
        text
    }
}

/// A text without the run of a character that it ends with.
pub open spec fn trimmed_end(text: Seq<char>, c: char) -> Seq<char>
    decreases text.len(),
{
    if text.len() > 0 && text.last() == c {
        trimmed_end(text.drop_last(), c)
    } else {
        text
    }
}

/// Takes off a text every occurrence of an ASCII character that it starts
/// with.
pub fn trim_start<'a>(text: &'a str, c: u8) -> (rest: &'a str)
    requires
        c < 0x80,
    ensures
        rest@ == trimmed_start(text@, c as char),
{
    let mut rest = text;
    loop
        invariant
            c < 0x80,
            trimmed_start(rest@, c as char) == trimmed_start(text@, c as char),
        decreases rest@.len(),
    {
        match strip_first(rest, c) {
            Some(shorter) => {
                rest = shorter;
            },
            None => {
                return rest;
            },
        }
    }
}

/// Takes off a text every occurrence of an ASCII character that it ends with.
pub fn trim_end<'a>(text: &'a str, c: u8) -> (rest: &'a str)
    requires
        c < 0x80,
    ensures
        rest@ == trimmed_end(text@, c as char),
{
    let mut rest = text;
    loop
        invariant
            c < 0x80,
            trimmed_end(rest@, c as char) == trimmed_end(text@, c as char),
        decreases rest@.len(),
    {
        match strip_last(rest, c) {
            Some(shorter) => {
                rest = shorter;
            },
            None => {
                return rest;
            },
        }
    }
}

} // verus!
