//! The one-line report of a text's counts.

use vstd::prelude::*;
use vstd::string::*;
use crate::counter::{Counts, FileStats};
use crate::decimal::{decimal, push_decimal};
use crate::options::{has_option, option_set, OptionSet, BYTES, CHARS, LINES, WORDS};

verus! {

/// One field of a report: a space and the count in decimal where the field
/// is shown, nothing where it is not.
pub open spec fn field_text(shown: bool, count: nat) -> Seq<char> {
    if shown {
        seq![' '] + decimal(count)
    } else {
        Seq::empty()
    }
}

/// The report of `counts` that shows `fields`: the fields shown, always in
/// the order lines, words, chars, bytes, then a space, the label and a line
/// break.
pub open spec fn report_line(fields: OptionSet, counts: Counts) -> Seq<char> {
    field_text(fields.lines, counts.lines) + field_text(fields.words, counts.words) + field_text(
        fields.chars,
        counts.chars,
    ) + field_text(fields.bytes, counts.bytes) + seq![' '] + counts.name + seq!['\n']
}

/// Appends to `line` the field with the count `count` where `shown` holds.
fn push_field(line: &mut String, shown: bool, count: usize)
    ensures
        final(line)@ == old(line)@ + field_text(shown, count as nat),
{
    if shown {
        proof {
            reveal_strlit(" ");
        }
        line.append(" ");
        push_decimal(line, count);
        assert(line@ =~= old(line)@ + (seq![' '] + decimal(count as nat)));
    } else {
        assert(line@ =~= old(line)@ + Seq::<char>::empty());
    }
}

/// Writes the report of `stats` that shows the fields that `options` holds.
/// Names in `options` other than the four field names change nothing, nor
/// does the order of the names or a name given twice.
pub fn format_stats(options: &[&str], stats: &FileStats) -> (line: String)
    ensures
        line@ == report_line(option_set(options@), stats@),
{
    let mut line = String::new();
    push_field(&mut line, has_option(options, LINES), stats.lines);
    push_field(&mut line, has_option(options, WORDS), stats.words);
    push_field(&mut line, has_option(options, CHARS), stats.chars);
    push_field(&mut line, has_option(options, BYTES), stats.size);
    proof {
        reveal_strlit(" ");
        reveal_strlit("\n");
    }
    line.append(" ");
    line.append(stats.name);
    line.append("\n");
    assert(line@ =~= report_line(option_set(options@), stats@));
    line
}

} // verus!
