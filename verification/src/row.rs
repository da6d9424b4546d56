use crate::text::{lemma_ascii_byte_is_a_character, lemma_boundary_in_prefix, lemma_encode_concat};
use vstd::prelude::*;
use vstd::string::*;
use vstd::utf8::*;

verus! {

/// The length of a line: the number of bytes of its UTF-8 encoding. Columns
/// are counted in these units; on ASCII text they are the characters.
pub open spec fn line_len(line: Seq<char>) -> nat {
    encode_utf8(line).len()
}

/// The part of `line` that the column range `[start, end)` covers.
///
/// `end` is first brought down to the line's length and `start` is then
/// brought down to `end`, so no range reaches outside the line. A range that
/// would cut a character in two covers nothing.
pub open spec fn slice_text(line: Seq<char>, start: int, end: int) -> Seq<char> {
    let bytes = encode_utf8(line);
    let end = if end < bytes.len() { end } else { bytes.len() as int };
    let start = if start < end { start } else { end };
    if is_char_boundary(bytes, start) && is_char_boundary(bytes, end) {
        decode_utf8(bytes.subrange(start, end))
    } else {
        Seq::empty()
    }
}

/// Whatever the two numbers are, the slice is a piece of the line: the line is
/// some text, then the slice, then some text. It takes as many columns as lie
/// between the clamped ends, and none once `start` has reached the clamped
/// `end`.
pub proof fn lemma_slice_within_line(line: Seq<char>, start: int, end: int)
    ensures
        exists|before: Seq<char>, after: Seq<char>|
            line == before + slice_text(line, start, end) + after,
        line_len(slice_text(line, start, end)) <= line_len(line),
        0 <= start <= end ==> line_len(slice_text(line, start, end)) <= end - start,
        start >= end || start >= line_len(line) ==> slice_text(line, start, end) == Seq::<
            char,
        >::empty(),
{
    let slice = slice_text(line, start, end);
    let bytes = encode_utf8(line);
    let e = if end < bytes.len() { end } else { bytes.len() as int };
    let s = if start < e { start } else { e };
    encode_utf8_valid_utf8(line);
    encode_utf8_decode_utf8(line);
    if is_char_boundary(bytes, s) && is_char_boundary(bytes, e) && s < e {
        let head = bytes.subrange(0, e);
        let after = decode_utf8(bytes.subrange(e, bytes.len() as int));
        let before = decode_utf8(head.subrange(0, s));
        lemma_boundary_in_prefix(bytes, s, e);
        decode_utf8_split(bytes, e);
        decode_utf8_split(head, s);
        valid_utf8_split(head, s);
        assert(head.subrange(s, head.len() as int) =~= bytes.subrange(s, e));
        decode_utf8_encode_utf8(bytes.subrange(s, e));
    } else {
        assert(line =~= Seq::<char>::empty() + slice + line);
    }
}

/// On a line of ASCII text the columns are the characters: the slice is the
/// line's characters from the clamped `start` to the clamped `end`.
pub proof fn lemma_slice_of_ascii_line(line: Seq<char>, start: int, end: int)
    requires
        is_ascii_chars(line),
        0 <= start,
        0 <= end,
    ensures
        line_len(line) == line.len(),
        slice_text(line, start, end) == {
            let end = if end < line.len() { end } else { line.len() as int };
            let start = if start < end { start } else { end };
            line.subrange(start, end)
        },
{
    let bytes = encode_utf8(line);
    is_ascii_chars_encode_utf8(line);
    let e = if end < line.len() { end } else { line.len() as int };
    let s = if start < e { start } else { e };
    if s < e {
        let part = line.subrange(s, e);
        assert(line =~= line.take(s) + part + line.skip(e));
        lemma_encode_concat(line.take(s) + part, line.skip(e));
        lemma_encode_concat(line.take(s), part);
        is_ascii_chars_encode_utf8(line.take(s));
        is_ascii_chars_encode_utf8(part);
        is_ascii_chars_encode_utf8(line.skip(e));
        assert(bytes.subrange(s, e) =~= encode_utf8(part));
        encode_utf8_decode_utf8(part);
        encode_utf8_valid_utf8(line);
        lemma_ascii_byte_is_a_character(bytes, s);
        lemma_ascii_byte_is_a_character(bytes, e - 1);
    } else {
        lemma_slice_within_line(line, start, end);
    }
}

/// One line of the document: an immutable piece of text.
#[derive(Debug)]
pub struct Row {
    string: String,
}

impl View for Row {
    type V = Seq<char>;

    closed spec fn view(&self) -> Seq<char> {
        self.string@
    }
}

/// Two rows with the same text need not be the same value, so no function of
/// the text names the row that `from` gives: what `from` promises is stated
/// of the row's text.
impl vstd::std_specs::convert::FromSpecImpl<&str> for Row {
    open spec fn obeys_from_spec() -> bool {
        false
    }

    open spec fn from_spec(slice: &str) -> Row {
        arbitrary()
    }
}

impl From<&str> for Row {
    /// The line that holds the text of `slice`.
    fn from(slice: &str) -> (row: Row)
        ensures
            row@ == slice@,
    {
        Row { string: slice.to_owned() }
    }
}

impl core::ops::Deref for Row {
    type Target = str;

    fn deref(&self) -> (s: &str)
        ensures
            s@ == self@,
    {
        self.string.as_str()
    }
}

impl Row {
    /// The line's text.
    pub fn as_str(&self) -> (s: &str)
        ensures
            s@ == self@,
    {
        self.string.as_str()
    }

    /// The line's length in columns.
    pub fn len(&self) -> (n: usize)
        ensures
            n == line_len(self@),
    {
        self.string.as_str().as_bytes().len()
    }

    /// Whether the line holds no text.
    pub fn is_empty(&self) -> (b: bool)
        ensures
            b == (self@.len() == 0),
    {
        self.string.as_str().is_empty()
    }

    /// The text of the columns `[start, end)`, clamped to the line: whatever
    /// the two numbers are, the result lies within the line, and it is empty
    /// once `start` has reached the clamped `end`.
    pub fn render(&self, start: usize, end: usize) -> (text: String)
        ensures
            text@ == slice_text(self@, start as int, end as int),
            start >= end || start >= line_len(self@) ==> text@ == Seq::<char>::empty(),
    {
        let s = self.string.as_str();
        let len = s.as_bytes().len();
        let end = if end < len { end } else { len };
        let start = if start < end { start } else { end };
        proof {
            encode_utf8_valid_utf8(self@);
        }
        if s.is_char_boundary(start) && s.is_char_boundary(end) {
            proof {
                lemma_boundary_in_prefix(s.spec_bytes(), start as int, end as int);
            }
            let (head, _) = s.split_at(end);
            let (_, middle) = head.split_at(start);
            proof {
                encode_utf8_decode_utf8(middle@);
                assert(middle.spec_bytes() =~= s.spec_bytes().subrange(start as int, end as int));
            }
            middle.to_owned()
        } else {
            String::new()
        }
    }
}

} // verus!
