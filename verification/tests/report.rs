use rwct::counter::{get_file_stats, FileStats};
use rwct::decimal::push_decimal;
use rwct::options::{options_from_flags, select_options};
use rwct::report::format_stats;

fn sample(name: &str) -> FileStats<'_> {
    FileStats { name, lines: 3, words: 5, chars: 20, size: 22 }
}

fn decimal(n: usize) -> String {
    let mut out = String::new();
    push_decimal(&mut out, n);
    out
}

#[test]
fn words_and_bytes_of_a_record() {
    let stats = sample("notes.txt");
    assert_eq!(format_stats(&["words", "bytes"], &stats), " 5 22 notes.txt\n");
}

#[test]
fn fields_keep_the_fixed_order() {
    let stats = sample("notes.txt");
    assert_eq!(format_stats(&["bytes", "words"], &stats), " 5 22 notes.txt\n");
    assert_eq!(
        format_stats(&["bytes", "chars", "words", "lines"], &stats),
        " 3 5 20 22 notes.txt\n"
    );
}

#[test]
fn each_field_alone() {
    let stats = sample("f");
    assert_eq!(format_stats(&["lines"], &stats), " 3 f\n");
    assert_eq!(format_stats(&["words"], &stats), " 5 f\n");
    assert_eq!(format_stats(&["chars"], &stats), " 20 f\n");
    assert_eq!(format_stats(&["bytes"], &stats), " 22 f\n");
}

#[test]
fn no_field_leaves_the_label() {
    assert_eq!(format_stats(&[], &sample("notes.txt")), " notes.txt\n");
    assert_eq!(format_stats(&[], &sample("")), " \n");
    assert_eq!(format_stats(&[], &sample("-")), " -\n");
}

#[test]
fn a_name_given_twice_shows_once() {
    assert_eq!(format_stats(&["lines", "lines"], &sample("f")), " 3 f\n");
}

#[test]
fn unknown_names_show_nothing() {
    assert_eq!(format_stats(&["size", "Lines", ""], &sample("f")), " f\n");
}

#[test]
fn the_default_fields_of_a_file() {
    let options = select_options(vec![], true, 2);
    assert_eq!(format_stats(&options, &sample("notes.txt")), " 3 5 22 notes.txt\n");
}

#[test]
fn zero_counts_are_shown() {
    let stats = FileStats { name: "empty", lines: 0, words: 0, chars: 0, size: 0 };
    assert_eq!(format_stats(&["lines", "words", "chars", "bytes"], &stats), " 0 0 0 0 empty\n");
}

#[test]
fn a_label_with_spaces_and_other_scripts() {
    let stats = sample("mes notes \u{e9}t\u{e9}.txt");
    assert_eq!(format_stats(&["lines"], &stats), " 3 mes notes \u{e9}t\u{e9}.txt\n");
}

#[test]
fn counted_and_reported() {
    let mut stats = FileStats { name: "greeting", lines: 0, words: 0, chars: 0, size: 0 };
    get_file_stats(String::from("hello world\n"), &mut stats);
    let all = options_from_flags(true, true, true, true);
    assert_eq!(format_stats(&all, &stats), " 1 2 12 12 greeting\n");
}

#[test]
fn decimal_of_small_numbers() {
    assert_eq!(decimal(0), "0");
    assert_eq!(decimal(7), "7");
    assert_eq!(decimal(9), "9");
    assert_eq!(decimal(10), "10");
    assert_eq!(decimal(99), "99");
    assert_eq!(decimal(100), "100");
    assert_eq!(decimal(1234567890), "1234567890");
}

#[test]
fn decimal_of_the_largest_number() {
    assert_eq!(decimal(usize::MAX), format!("{}", usize::MAX));
}

#[test]
fn decimal_agrees_with_the_standard_formatting() {
    for n in (0..5000usize).chain([65535, 65536, 4294967295, 1000000007]) {
        assert_eq!(decimal(n), format!("{}", n));
    }
}

#[test]
fn decimal_is_appended() {
    let mut out = String::from("n=");
    push_decimal(&mut out, 42);
    push_decimal(&mut out, 0);
    assert_eq!(out, "n=420");
}
