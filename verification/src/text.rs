//! Facts about texts and their UTF-8 encodings that the line store and the
//! rows rest on.

use vstd::prelude::*;
use vstd::utf8::*;

verus! {

/// The encoding of two texts put together is their encodings put together.
pub proof fn lemma_encode_concat(a: Seq<char>, b: Seq<char>)
    ensures
        encode_utf8(a + b) == encode_utf8(a) + encode_utf8(b),
    decreases a.len(),
{
    if a.len() > 0 {
        lemma_encode_concat(a.drop_first(), b);
        assert((a + b).drop_first() =~= a.drop_first() + b);
    }
}

/// A text whose encoding is the encodings of two texts put together is those
/// two texts put together.
pub proof fn lemma_text_of_parts(text: Seq<char>, a: Seq<char>, b: Seq<char>)
    requires
        encode_utf8(text) == encode_utf8(a) + encode_utf8(b),
    ensures
        text == a + b,
{
    lemma_encode_concat(a, b);
    encode_utf8_decode_utf8(text);
    encode_utf8_decode_utf8(a + b);
}

/// An ASCII character is encoded as the one byte with its number.
pub proof fn lemma_encode_ascii(c: char)
    requires
        c <= '\u{7f}',
    ensures
        encode_utf8(seq![c]) == seq![c as u8],
{
    is_ascii_chars_encode_utf8(seq![c]);
}

/// The text that is encoded as one byte below 0x80 is the one character with
/// that number.
pub proof fn lemma_text_of_ascii_byte(text: Seq<char>, c: char)
    requires
        c <= '\u{7f}',
        encode_utf8(text) == seq![c as u8],
    ensures
        text == seq![c],
{
    lemma_encode_ascii(c);
    encode_utf8_decode_utf8(text);
    encode_utf8_decode_utf8(seq![c]);
}

/// Only the empty text has an empty encoding.
pub proof fn lemma_empty_encoding(text: Seq<char>)
    ensures
        encode_utf8(text).len() == 0 <==> text.len() == 0,
{
    if text.len() > 0 {
        encode_utf8_valid_utf8(text);
        encode_utf8_first_scalar(text);
    }
}

/// Where an ASCII character stands in a text, its byte stands in the text's
/// encoding, as many bytes from the start as the text before it takes.
pub proof fn lemma_ascii_char_has_its_byte(text: Seq<char>, at: int)
    requires
        0 <= at < text.len(),
        text[at] <= '\u{7f}',
    ensures
        encode_utf8(text.take(at)).len() < encode_utf8(text).len(),
        encode_utf8(text)[encode_utf8(text.take(at)).len() as int] == text[at] as u8,
        encode_utf8(text) == encode_utf8(text.take(at)) + seq![text[at] as u8] + encode_utf8(
            text.skip(at + 1),
        ),
{
    let before = text.take(at);
    let after = text.skip(at + 1);
    assert(text =~= before + seq![text[at]] + after);
    lemma_encode_concat(before + seq![text[at]], after);
    lemma_encode_concat(before, seq![text[at]]);
    lemma_encode_ascii(text[at]);
}

/// A byte below 0x80 stands for a character of its own: the places before
/// and after it are character boundaries.
pub proof fn lemma_ascii_byte_is_a_character(bytes: Seq<u8>, at: int)
    requires
        valid_utf8(bytes),
        0 <= at < bytes.len(),
        bytes[at] < 0x80,
    ensures
        is_char_boundary(bytes, at),
        is_char_boundary(bytes, at + 1),
{
    is_char_boundary_iff_not_is_continuation_byte(bytes, at);
    if at + 1 == bytes.len() {
        is_char_boundary_start_end_of_seq(bytes);
    } else {
        // What follows the byte is well formed and so starts with no
        // continuation byte.
        let tail = bytes.subrange(at, bytes.len() as int);
        valid_utf8_split(bytes, at);
        assert(valid_utf8(pop_first_scalar(tail)));
        assert(pop_first_scalar(tail)[0] == bytes[at + 1]);
        is_char_boundary_iff_not_is_continuation_byte(bytes, at + 1);
    }
}

/// A character boundary of a text is one of each of its prefixes that
/// reaches it.
pub proof fn lemma_boundary_in_prefix(bytes: Seq<u8>, start: int, end: int)
    requires
        valid_utf8(bytes),
        0 <= start <= end <= bytes.len(),
        is_char_boundary(bytes, start),
        is_char_boundary(bytes, end),
    ensures
        valid_utf8(bytes.subrange(0, end)),
        is_char_boundary(bytes.subrange(0, end), start),
{
    let head = bytes.subrange(0, end);
    valid_utf8_split(bytes, end);
    if start == end {
        is_char_boundary_start_end_of_seq(head);
    } else {
        is_char_boundary_iff_not_is_continuation_byte(bytes, start);
        is_char_boundary_iff_not_is_continuation_byte(head, start);
    }
}

} // verus!
