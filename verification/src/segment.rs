//! How a byte sequence divides into lines and words.
//!
//! Only the six ASCII whitespace bytes separate words, and only the newline
//! byte ends a line. Every other byte, whatever character it belongs to, is
//! part of a word.

use vstd::prelude::*;

verus! {

/// The newline byte.
pub const NEWLINE: u8 = 0x0a;

/// ASCII whitespace: space, tab, newline, vertical tab, form feed and
/// carriage return.
pub open spec fn is_ascii_whitespace(byte: u8) -> bool {
    byte == 0x20 || byte == 0x09 || byte == 0x0a || byte == 0x0b || byte == 0x0c || byte == 0x0d
}

/// Tells whether `byte` is ASCII whitespace.
pub fn is_whitespace(byte: u8) -> (white: bool)
    ensures
        white == is_ascii_whitespace(byte),
{
    byte == 0x20 || (0x09 <= byte && byte <= 0x0d)
}

/// The positions of `bytes` that hold a newline.
pub open spec fn newline_positions(bytes: Seq<u8>) -> Set<int> {
    Set::new(|i: int| 0 <= i < bytes.len() && bytes[i] == NEWLINE)
}

/// The number of lines of `bytes`: the number of its newline bytes. Text
/// after the last newline is not a line.
pub open spec fn line_count(bytes: Seq<u8>) -> nat {
    newline_positions(bytes).len()
}

/// Position `i` holds the last byte of a word that is closed: the byte is not
/// whitespace and the byte right after it is.
pub open spec fn is_word_end(bytes: Seq<u8>, i: int) -> bool {
    &&& 0 <= i
    &&& i + 1 < bytes.len()
    &&& !is_ascii_whitespace(bytes[i])
    &&& is_ascii_whitespace(bytes[i + 1])
}

/// The positions at which a word of `bytes` is closed by whitespace.
pub open spec fn word_ends(bytes: Seq<u8>) -> Set<int> {
    Set::new(|i: int| is_word_end(bytes, i))
}

/// The number of words of `bytes`: the maximal runs of bytes that are not
/// whitespace and that whitespace follows. A run that reaches the end of
/// `bytes` is not counted.
pub open spec fn word_count(bytes: Seq<u8>) -> nat {
    word_ends(bytes).len()
}

/// A sequence without bytes has no line and no word.
pub proof fn lemma_counts_of_nothing()
    ensures
        line_count(Seq::<u8>::empty()) == 0,
        word_count(Seq::<u8>::empty()) == 0,
{
    assert(newline_positions(Seq::<u8>::empty()) =~= Set::empty());
    assert(word_ends(Seq::<u8>::empty()) =~= Set::empty());
}

/// The newline positions of a sequence that is one byte longer.
proof fn lemma_newline_positions_push(bytes: Seq<u8>, byte: u8)
    ensures
        newline_positions(bytes.push(byte)) == if byte == NEWLINE {
            newline_positions(bytes).insert(bytes.len() as int)
        } else {
            newline_positions(bytes)
        },
{
    let longer = bytes.push(byte);
    if byte == NEWLINE {
        assert(newline_positions(longer) =~= newline_positions(bytes).insert(bytes.len() as int));
    } else {
        assert(newline_positions(longer) =~= newline_positions(bytes));
    }
}

/// There are finitely many newline positions, at most one for each byte.
pub proof fn lemma_line_count_bound(bytes: Seq<u8>)
    ensures
        newline_positions(bytes).finite(),
        line_count(bytes) <= bytes.len(),
    decreases bytes.len(),
{
    if bytes.len() == 0 {
        assert(newline_positions(bytes) =~= Set::empty());
    } else {
        lemma_line_count_bound(bytes.drop_last());
        lemma_newline_positions_push(bytes.drop_last(), bytes.last());
        assert(bytes.drop_last().push(bytes.last()) =~= bytes);
    }
}

/// Appending one byte adds a line exactly when the byte is a newline.
pub proof fn lemma_line_count_push(bytes: Seq<u8>, byte: u8)
    ensures
        line_count(bytes.push(byte)) == line_count(bytes) + if byte == NEWLINE {
            1nat
        } else {
            0nat
        },
{
    lemma_line_count_bound(bytes);
    lemma_newline_positions_push(bytes, byte);
}

/// Whether appending `byte` to `bytes` closes a word: `byte` is whitespace
/// and the last byte of `bytes` is not.
pub open spec fn closes_word(bytes: Seq<u8>, byte: u8) -> bool {
    bytes.len() > 0 && !is_ascii_whitespace(bytes.last()) && is_ascii_whitespace(byte)
}

/// The word ends of a sequence that is one byte longer.
proof fn lemma_word_ends_push(bytes: Seq<u8>, byte: u8)
    ensures
        word_ends(bytes.push(byte)) == if closes_word(bytes, byte) {
            word_ends(bytes).insert(bytes.len() - 1)
        } else {
            word_ends(bytes)
        },
{
    let longer = bytes.push(byte);
    assert forall|i: int| is_word_end(longer, i) == (is_word_end(bytes, i) || (i == bytes.len() - 1
        && closes_word(bytes, byte))) by {
        if 0 <= i && i + 1 < bytes.len() {
            assert(longer[i] == bytes[i] && longer[i + 1] == bytes[i + 1]);
        }
    }
    if closes_word(bytes, byte) {
        assert(word_ends(longer) =~= word_ends(bytes).insert(bytes.len() - 1));
    } else {
        assert(word_ends(longer) =~= word_ends(bytes));
    }
}

/// There are finitely many word ends, at most one for each byte.
pub proof fn lemma_word_count_bound(bytes: Seq<u8>)
    ensures
        word_ends(bytes).finite(),
        word_count(bytes) <= bytes.len(),
    decreases bytes.len(),
{
    if bytes.len() == 0 {
        assert(word_ends(bytes) =~= Set::empty());
    } else {
        lemma_word_count_bound(bytes.drop_last());
        lemma_word_ends_push(bytes.drop_last(), bytes.last());
        assert(bytes.drop_last().push(bytes.last()) =~= bytes);
    }
}

/// Appending one byte adds a word exactly when the byte is whitespace and
/// the byte before it is not.
pub proof fn lemma_word_count_push(bytes: Seq<u8>, byte: u8)
    ensures
        word_count(bytes.push(byte)) == word_count(bytes) + if closes_word(bytes, byte) {
            1nat
        } else {
            0nat
        },
{
    lemma_word_count_bound(bytes);
    lemma_word_ends_push(bytes, byte);
}

} // verus!
