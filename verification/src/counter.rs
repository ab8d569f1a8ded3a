//! The counter: one pass over a text that yields its four counts.

use vstd::prelude::*;
use vstd::string::*;
use vstd::utf8::encode_utf8;
use crate::segment::{
    closes_word, is_ascii_whitespace, is_whitespace, lemma_counts_of_nothing,
    lemma_line_count_push, lemma_word_count_push, line_count, word_count, NEWLINE,
};

verus! {

/// The counts of one text, with the label under which they are shown.
pub struct FileStats<'a> {
    /// The label of the text: a file's name, or a placeholder.
    pub name: &'a str,
    /// The number of words.
    pub words: usize,
    /// The number of lines.
    pub lines: usize,
    /// The number of bytes.
    pub size: usize,
    /// The number of characters.
    pub chars: usize,
}

/// What a `FileStats` stands for: a label and four natural numbers.
pub struct Counts {
    pub name: Seq<char>,
    pub lines: nat,
    pub words: nat,
    pub chars: nat,
    pub bytes: nat,
}

impl<'a> View for FileStats<'a> {
    type V = Counts;

    open spec fn view(&self) -> Counts {
        Counts {
            name: self.name@,
            lines: self.lines as nat,
            words: self.words as nat,
            chars: self.chars as nat,
            bytes: self.size as nat,
        }
    }
}

/// The counts of `text` under the label `name`. Lines and words are those of
/// the UTF-8 encoding of `text`; characters are counted as decoded, bytes as
/// encoded.
pub open spec fn counts_of(name: Seq<char>, text: Seq<char>) -> Counts {
    Counts {
        name,
        lines: line_count(encode_utf8(text)),
        words: word_count(encode_utf8(text)),
        chars: text.len(),
        bytes: encode_utf8(text).len(),
    }
}

/// Counts the lines, words, characters and bytes of `buffer` and stores them
/// in `file_stats`, replacing whatever counts it held. The label is kept.
pub fn get_file_stats(buffer: String, file_stats: &mut FileStats)
    ensures
        final(file_stats).name == old(file_stats).name,
        final(file_stats)@ == counts_of(old(file_stats).name@, buffer@),
{
    let text = buffer.as_str();
    let chars = text.unicode_len();
    let buff_bytes = text.as_bytes();
    let size = buff_bytes.len();

    let mut words: usize = 0;
    let mut lines: usize = 0;
    let mut is_word = false;
    let mut i: usize = 0;
    proof {
        lemma_counts_of_nothing();
        assert(buff_bytes@.take(0) =~= Seq::<u8>::empty());
    }
    while i < size
        invariant
            i <= size,
            size == buff_bytes@.len(),
            words == word_count(buff_bytes@.take(i as int)),
            lines == line_count(buff_bytes@.take(i as int)),
            words <= i,
            lines <= i,
            is_word == (i > 0 && !is_ascii_whitespace(buff_bytes@[i - 1])),
        decreases size - i,
    {
        let byte = buff_bytes[i];
        proof {
            let seen = buff_bytes@.take(i as int);
            assert(buff_bytes@.take(i + 1) =~= seen.push(byte));
            assert(closes_word(seen, byte) == (is_word && is_ascii_whitespace(byte)));
            lemma_word_count_push(seen, byte);
            lemma_line_count_push(seen, byte);
        }
        if is_whitespace(byte) {
            if is_word {
                words += 1;
            }
            if byte == NEWLINE {
                lines += 1;
            }
            is_word = false;
        } else {
            is_word = true;
        }
        i += 1;
    }
    assert(buff_bytes@.take(size as int) =~= buff_bytes@);

    file_stats.chars = chars;
    file_stats.size = size;
    file_stats.words = words;
    file_stats.lines = lines;
}

/// Counting is repeatable. Two records that `get_file_stats` filled from the
/// same text under the same label are equal, whatever either held before:
/// the counts depend on the text alone.
pub proof fn lemma_counts_repeatable(
    first: FileStats,
    second: FileStats,
    name: &str,
    text: Seq<char>,
)
    requires
        first.name == name,
        first@ == counts_of(name@, text),
        second.name == name,
        second@ == counts_of(name@, text),
    ensures
        first == second,
{
}

/// A text has at least as many bytes as characters, and at most four bytes
/// for each character.
pub proof fn lemma_chars_and_bytes(text: Seq<char>)
    ensures
        text.len() <= encode_utf8(text).len() <= 4 * text.len(),
    decreases text.len(),
{
    if text.len() > 0 {
        lemma_chars_and_bytes(text.drop_first());
    }
}

} // verus!
