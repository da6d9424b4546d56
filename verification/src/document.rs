use crate::row::Row;
use crate::text::{
    lemma_ascii_byte_is_a_character, lemma_ascii_char_has_its_byte, lemma_empty_encoding,
    lemma_text_of_ascii_byte, lemma_text_of_parts,
};
use vstd::prelude::*;
use vstd::string::*;
use vstd::utf8::*;

verus! {

/// The byte that ends a line.
pub const LINE_FEED: u8 = 0x0a;

/// The byte that may stand before a line feed and then belongs to the line's
/// ending.
pub const CARRIAGE_RETURN: u8 = 0x0d;

/// Where the first line of `text` ends: the place of the first line feed, or
/// the length where there is none.
pub open spec fn line_end(text: Seq<char>) -> int
    decreases text.len(),
{
    if text.len() == 0 || text[0] == '\n' {
        0
    } else {
        1 + line_end(text.drop_first())
    }
}

/// `line` without the carriage return at its end, if it has one.
pub open spec fn without_return(line: Seq<char>) -> Seq<char> {
    if line.len() > 0 && line.last() == '\r' {
        line.drop_last()
    } else {
        line
    }
}

/// The lines of a text. A line ends with a line feed, or with a carriage
/// return and a line feed; neither belongs to the line. What follows the last
/// line feed is a line too, unless it is empty.
pub open spec fn lines_of(text: Seq<char>) -> Seq<Seq<char>>
    decreases text.len(),
{
    let end = line_end(text);
    if text.len() == 0 {
        Seq::empty()
    } else if 0 <= end < text.len() {
        seq![without_return(text.take(end))] + lines_of(text.skip(end + 1))
    } else {
        seq![text]
    }
}

/// The first line ends at `end` if no character before `end` is a line feed
/// and the character at `end` is one, or the text ends there.
pub proof fn lemma_line_end(text: Seq<char>, end: int)
    requires
        0 <= end <= text.len(),
        forall|i: int| 0 <= i < end ==> text[i] != '\n',
        end < text.len() ==> text[end] == '\n',
    ensures
        line_end(text) == end,
    decreases end,
{
    if end > 0 {
        lemma_line_end(text.drop_first(), end - 1);
    }
}

/// A text whose encoding holds no line feed byte holds no line feed.
proof fn lemma_no_line_feed(text: Seq<char>)
    requires
        forall|i: int| 0 <= i < encode_utf8(text).len() ==> encode_utf8(text)[i] != LINE_FEED,
    ensures
        forall|i: int| 0 <= i < text.len() ==> text[i] != '\n',
{
    assert forall|i: int| 0 <= i < text.len() implies text[i] != '\n' by {
        if text[i] == '\n' {
            lemma_ascii_char_has_its_byte(text, i);
        }
    }
}

/// The texts of a sequence of rows, in order.
pub open spec fn texts(rows: Seq<Row>) -> Seq<Seq<char>> {
    rows.map_values(|row: Row| row@)
}

/// The line store: the document's lines from top to bottom. It is filled
/// once and only read afterwards.
pub struct Document {
    rows: Vec<Row>,
}

impl View for Document {
    type V = Seq<Seq<char>>;

    closed spec fn view(&self) -> Seq<Seq<char>> {
        texts(self.rows@)
    }
}

impl Default for Document {
    /// The empty document.
    fn default() -> (document: Document)
        ensures
            document@ == Seq::<Seq<char>>::empty(),
    {
        Document { rows: Vec::new() }
    }
}

impl Document {
    /// The document whose lines are `rows`.
    pub fn new(rows: Vec<Row>) -> (document: Document)
        ensures
            document@ == texts(rows@),
    {
        Document { rows }
    }

    /// The document that holds the lines of `text`.
    pub fn from_text(text: &str) -> (document: Document)
        ensures
            document@ == lines_of(text@),
    {
        let mut rows: Vec<Row> = Vec::new();
        let mut rest: &str = text;
        let mut length: usize = rest.as_bytes().len();
        while length > 0
            invariant
                length == rest.spec_bytes().len(),
                texts(rows@) + lines_of(rest@) == lines_of(text@),
            decreases length,
        {
            let bytes = rest.as_bytes();
            let mut end: usize = 0;
            while end < length && bytes[end] != LINE_FEED
                invariant
                    end <= length,
                    length == bytes@.len(),
                    forall|i: int| 0 <= i < end ==> bytes@[i] != LINE_FEED,
                decreases length - end,
            {
                end = end + 1;
            }
            let ghost before = rows@;
            let ghost whole = rest.spec_bytes();
            proof {
                encode_utf8_valid_utf8(rest@);
                lemma_empty_encoding(rest@);
            }
            if end == length {
                rows.push(Row::from(rest));
                proof {
                    lemma_no_line_feed(rest@);
                    lemma_line_end(rest@, rest@.len() as int);
                    reveal_strlit("");
                    lemma_empty_encoding(""@);
                }
                rest = "";
                length = 0;
            } else {
                proof {
                    lemma_ascii_byte_is_a_character(whole, end as int);
                }
                let (head, tail) = rest.split_at(end);
                proof {
                    encode_utf8_valid_utf8(tail@);
                    lemma_ascii_byte_is_a_character(tail.spec_bytes(), 0);
                }
                let (feed, next) = tail.split_at(1);
                proof {
                    // The text is the first line, the line feed and the rest.
                    assert(whole =~= head.spec_bytes() + tail.spec_bytes());
                    lemma_text_of_parts(rest@, head@, tail@);
                    assert(tail.spec_bytes() =~= feed.spec_bytes() + next.spec_bytes());
                    lemma_text_of_parts(tail@, feed@, next@);
                    lemma_text_of_ascii_byte(feed@, '\n');
                    lemma_no_line_feed(head@);
                    lemma_line_end(rest@, head@.len() as int);
                    assert(rest@.take(head@.len() as int) =~= head@);
                    assert(rest@.skip(head@.len() as int + 1) =~= next@);
                    lemma_empty_encoding(head@);
                }
                let line = if end > 0 && head.as_bytes()[end - 1] == CARRIAGE_RETURN {
                    proof {
                        encode_utf8_valid_utf8(head@);
                        lemma_ascii_byte_is_a_character(head.spec_bytes(), end - 1);
                    }
                    let (line, back) = head.split_at(end - 1);
                    proof {
                        assert(head.spec_bytes() =~= line.spec_bytes() + back.spec_bytes());
                        lemma_text_of_parts(head@, line@, back@);
                        lemma_text_of_ascii_byte(back@, '\r');
                    }
                    line
                } else {
                    proof {
                        // A carriage return at the end would show as its byte.
                        if head@.len() > 0 && head@.last() == '\r' {
                            lemma_ascii_char_has_its_byte(head@, head@.len() - 1);
                            lemma_empty_encoding(head@.skip(head@.len() as int));
                        }
                    }
                    head
                };
                assert(line@ == without_return(head@));
                rows.push(Row::from(line));
                rest = next;
                length = length - end - 1;
            }
        }
        proof {
            lemma_empty_encoding(rest@);
        }
        Document { rows }
    }

    /// The number of lines.
    pub fn len(&self) -> (n: usize)
        ensures
            n == self@.len(),
    {
        self.rows.len()
    }

    /// Whether the document has no line at all.
    pub fn is_empty(&self) -> (b: bool)
        ensures
            b == (self@.len() == 0),
    {
        self.rows.len() == 0
    }

    /// The line with number `index`, or nothing from the document's length on.
    pub fn row(&self, index: usize) -> (row: Option<&Row>)
        ensures
            index < self@.len() ==> row.is_some() && row.unwrap()@ == self@[index as int],
            index >= self@.len() ==> row.is_none(),
    {
        if index < self.rows.len() {
            Some(&self.rows[index])
        } else {
            None
        }
    }
}

} // verus!
