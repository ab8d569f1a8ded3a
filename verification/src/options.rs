//! Which counts a report shows.
//!
//! A request is a list of field names. Only the four names below mean
//! anything; what matters of a list is which of them it holds, not how often
//! or in what order.

use vstd::prelude::*;
use vstd::string::*;
use vstd::utf8::{encode_utf8, encode_utf8_decode_utf8};
use clap::ArgMatches;
use crate::matches::{bool_value, bool_values};

verus! {

/// The name that requests the line count.
pub const LINES: &'static str = "lines";

/// The name that requests the word count.
pub const WORDS: &'static str = "words";

/// The name that requests the character count.
pub const CHARS: &'static str = "chars";

/// The name that requests the byte count.
pub const BYTES: &'static str = "bytes";

/// A set of requested fields.
pub struct OptionSet {
    pub lines: bool,
    pub words: bool,
    pub chars: bool,
    pub bytes: bool,
}

impl OptionSet {
    /// No field is requested.
    pub open spec fn is_empty(self) -> bool {
        !self.lines && !self.words && !self.chars && !self.bytes
    }

    /// The fields shown for a file when nothing was asked for: lines, words
    /// and bytes.
    pub open spec fn fallback() -> OptionSet {
        OptionSet { lines: true, words: true, chars: false, bytes: true }
    }
}

/// The names of a list of options, one character sequence for each entry.
pub open spec fn names(options: Seq<&str>) -> Seq<Seq<char>> {
    Seq::new(options.len(), |i: int| options[i]@)
}

/// Whether the list `options` holds the name `field`.
pub open spec fn requested(options: Seq<&str>, field: Seq<char>) -> bool {
    exists|i: int| 0 <= i < options.len() && (#[trigger] options[i])@ == field
}

/// The set of fields that the list `options` requests.
pub open spec fn option_set(options: Seq<&str>) -> OptionSet {
    OptionSet {
        lines: requested(options, LINES@),
        words: requested(options, WORDS@),
        chars: requested(options, CHARS@),
        bytes: requested(options, BYTES@),
    }
}

/// Tells whether `a` and `b` hold the same characters.
pub fn same_text(a: &str, b: &str) -> (same: bool)
    ensures
        same == (a@ == b@),
{
    let left = a.as_bytes();
    let right = b.as_bytes();
    proof {
        encode_utf8_decode_utf8(a@);
        encode_utf8_decode_utf8(b@);
    }
    if left.len() != right.len() {
        return false;
    }
    let mut i: usize = 0;
    while i < left.len()
        invariant
            i <= left@.len(),
            left@.len() == right@.len(),
            left@ == encode_utf8(a@),
            right@ == encode_utf8(b@),
            left@.take(i as int) == right@.take(i as int),
        decreases left@.len() - i,
    {
        if left[i] != right[i] {
            assert(left@[i as int] != right@[i as int]);
            return false;
        }
        assert(left@.take(i + 1) =~= left@.take(i as int).push(left@[i as int]));
        assert(right@.take(i + 1) =~= right@.take(i as int).push(right@[i as int]));
        i += 1;
    }
    assert(left@ =~= left@.take(i as int));
    assert(right@ =~= right@.take(i as int));
    true
}

/// Tells whether the list `options` holds the name `field`.
pub fn has_option(options: &[&str], field: &str) -> (found: bool)
    ensures
        found == requested(options@, field@),
{
    let mut i: usize = 0;
    while i < options.len()
        invariant
            i <= options@.len(),
            forall|j: int| 0 <= j < i ==> (#[trigger] options@[j])@ != field@,
        decreases options@.len() - i,
    {
        if same_text(options[i], field) {
            return true;
        }
        i += 1;
    }
    false
}

/// The list with the one name `name` where `on` holds, and the empty list
/// where it does not.
pub open spec fn name_if(on: bool, name: Seq<char>) -> Seq<Seq<char>> {
    if on {
        seq![name]
    } else {
        Seq::empty()
    }
}

/// The names of the fields of `set`, in the order lines, words, chars, bytes.
pub open spec fn field_names(set: OptionSet) -> Seq<Seq<char>> {
    name_if(set.lines, LINES@) + name_if(set.words, WORDS@) + name_if(set.chars, CHARS@) + name_if(
        set.bytes,
        BYTES@,
    )
}

/// The four field names differ from one another.
pub proof fn lemma_field_names_differ()
    ensures
        LINES@ != WORDS@,
        LINES@ != CHARS@,
        LINES@ != BYTES@,
        WORDS@ != CHARS@,
        WORDS@ != BYTES@,
        CHARS@ != BYTES@,
{
    reveal_strlit("lines");
    reveal_strlit("words");
    reveal_strlit("chars");
    reveal_strlit("bytes");
    assert(LINES@[0] == 'l');
    assert(WORDS@[0] == 'w');
    assert(CHARS@[0] == 'c');
    assert(BYTES@[0] == 'b');
}

/// A list longer by one entry holds a name exactly when the shorter list
/// holds it or the new entry is that name.
pub proof fn lemma_requested_push(options: Seq<&str>, option: &str, field: Seq<char>)
    ensures
        requested(options.push(option), field) == (requested(options, field) || option@ == field),
        names(options.push(option)) == names(options).push(option@),
{
    let longer = options.push(option);
    if requested(options, field) {
        let i = choose|i: int| 0 <= i < options.len() && (#[trigger] options[i])@ == field;
        assert(longer[i]@ == field);
    }
    if option@ == field {
        assert(longer[options.len() as int]@ == field);
    }
    if requested(longer, field) {
        let i = choose|i: int| 0 <= i < longer.len() && (#[trigger] longer[i])@ == field;
        if i < options.len() {
            assert(options[i]@ == field);
        }
    }
    assert(names(longer) =~= names(options).push(option@));
}

/// The list of the fields that are switched on, in the order lines, words,
/// chars, bytes.
pub fn options_from_flags<'a>(lines: bool, words: bool, chars: bool, bytes: bool) -> (options: Vec<
    &'a str,
>)
    ensures
        names(options@) == field_names(OptionSet { lines, words, chars, bytes }),
        option_set(options@) == (OptionSet { lines, words, chars, bytes }),
{
    let mut options: Vec<&'a str> = Vec::new();
    proof {
        lemma_field_names_differ();
        assert(names(options@) =~= Seq::empty());
    }
    if lines {
        proof {
            lemma_requested_push(options@, LINES, LINES@);
            lemma_requested_push(options@, LINES, WORDS@);
            lemma_requested_push(options@, LINES, CHARS@);
            lemma_requested_push(options@, LINES, BYTES@);
        }
        options.push(LINES)
    }
    if words {
        proof {
            lemma_requested_push(options@, WORDS, LINES@);
            lemma_requested_push(options@, WORDS, WORDS@);
            lemma_requested_push(options@, WORDS, CHARS@);
            lemma_requested_push(options@, WORDS, BYTES@);
        }
        options.push(WORDS)
    }
    if chars {
        proof {
            lemma_requested_push(options@, CHARS, LINES@);
            lemma_requested_push(options@, CHARS, WORDS@);
            lemma_requested_push(options@, CHARS, CHARS@);
            lemma_requested_push(options@, CHARS, BYTES@);
        }
        options.push(CHARS)
    }
    if bytes {
        proof {
            lemma_requested_push(options@, BYTES, LINES@);
            lemma_requested_push(options@, BYTES, WORDS@);
            lemma_requested_push(options@, BYTES, CHARS@);
            lemma_requested_push(options@, BYTES, BYTES@);
        }
        options.push(BYTES)
    }
    assert(names(options@) =~= field_names(OptionSet { lines, words, chars, bytes }));
    options
}

/// Whether the parsed command line `matches` holds the flag `id` and the
/// flag is switched on.
pub open spec fn is_set(matches: ArgMatches, id: Seq<char>) -> bool {
    bool_values(matches).contains_key(id) && bool_values(matches)[id]
}

/// The fields that the parsed command line `matches` asks for: those of the
/// four field names that it holds as a flag that is switched on.
pub open spec fn flags_of(matches: ArgMatches) -> OptionSet {
    OptionSet {
        lines: is_set(matches, LINES@),
        words: is_set(matches, WORDS@),
        chars: is_set(matches, CHARS@),
        bytes: is_set(matches, BYTES@),
    }
}

/// Tells whether `matches` holds the flag `id` switched on. A flag that the
/// command line does not define counts as switched off.
fn flag(matches: &ArgMatches, id: &str) -> (on: bool)
    ensures
        on == is_set(*matches, id@),
{
    match bool_value(matches, id) {
        Some(on) => on,
        None => false,
    }
}

/// The list of the fields that the parsed command line asks for, in the
/// order lines, words, chars, bytes, whatever the order of the flags was.
pub fn get_options<'a>(matches: &ArgMatches) -> (options: Vec<&'a str>)
    ensures
        names(options@) == field_names(flags_of(*matches)),
        option_set(options@) == flags_of(*matches),
{
    let lines = flag(matches, LINES);
    let words = flag(matches, WORDS);
    let chars = flag(matches, CHARS);
    let bytes = flag(matches, BYTES);
    options_from_flags(lines, words, chars, bytes)
}

/// Whether a report falls back to the default fields: no field was asked
/// for, the text came from a named file, and the command line had more than
/// one argument, the program's own name counted.
pub open spec fn falls_back(asked: OptionSet, from_file: bool, arg_count: nat) -> bool {
    asked.is_empty() && from_file && arg_count > 1
}

/// The fields that a report shows, given what was asked for.
pub open spec fn selection(asked: OptionSet, from_file: bool, arg_count: nat) -> OptionSet {
    if falls_back(asked, from_file, arg_count) {
        OptionSet::fallback()
    } else {
        asked
    }
}

/// Chooses the fields of a report. `options` is what was asked for,
/// `from_file` tells whether the text came from a named file and not from
/// standard input, and `arg_count` is the length of the whole command line,
/// the program's own name counted. The request stands as it is, an empty one
/// too, unless it falls back to lines, words and bytes.
pub fn select_options<'a>(options: Vec<&'a str>, from_file: bool, arg_count: usize) -> (selected:
    Vec<&'a str>)
    ensures
        option_set(selected@) == selection(option_set(options@), from_file, arg_count as nat),
        falls_back(option_set(options@), from_file, arg_count as nat) ==> names(selected@)
            == field_names(OptionSet::fallback()),
        !falls_back(option_set(options@), from_file, arg_count as nat) ==> selected@ == options@,
{
    let asked = has_option(options.as_slice(), LINES) || has_option(options.as_slice(), WORDS)
        || has_option(options.as_slice(), CHARS) || has_option(options.as_slice(), BYTES);
    if !asked && from_file && arg_count > 1 {
        options_from_flags(true, true, false, true)
    } else {
        options
    }
}

} // verus!
