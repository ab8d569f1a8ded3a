use clap::{Arg, ArgAction, ArgMatches, Command};
use rwct::options::{
    get_options, has_option, options_from_flags, same_text, select_options, BYTES, CHARS, LINES,
    WORDS,
};

fn flag(id: &'static str, short: char) -> Arg {
    Arg::new(id).short(short).action(ArgAction::SetTrue)
}

fn parse(args: &[&str]) -> ArgMatches {
    Command::new("rwct")
        .arg(flag("lines", 'l'))
        .arg(flag("words", 'w'))
        .arg(flag("chars", 'm'))
        .arg(flag("bytes", 'c'))
        .arg(Arg::new("file").value_name("text_file"))
        .try_get_matches_from(args.iter().copied())
        .unwrap()
}

#[test]
fn the_field_names() {
    assert_eq!(LINES, "lines");
    assert_eq!(WORDS, "words");
    assert_eq!(CHARS, "chars");
    assert_eq!(BYTES, "bytes");
}

#[test]
fn no_flag_gives_no_option() {
    assert_eq!(get_options(&parse(&["rwct"])), Vec::<&str>::new());
    assert_eq!(get_options(&parse(&["rwct", "notes.txt"])), Vec::<&str>::new());
}

#[test]
fn each_flag_gives_its_option() {
    assert_eq!(get_options(&parse(&["rwct", "-l"])), vec!["lines"]);
    assert_eq!(get_options(&parse(&["rwct", "-w"])), vec!["words"]);
    assert_eq!(get_options(&parse(&["rwct", "-m"])), vec!["chars"]);
    assert_eq!(get_options(&parse(&["rwct", "-c"])), vec!["bytes"]);
}

#[test]
fn options_come_in_the_fixed_order() {
    assert_eq!(get_options(&parse(&["rwct", "-c", "-l"])), vec!["lines", "bytes"]);
    assert_eq!(get_options(&parse(&["rwct", "-cmwl", "f"])), vec!["lines", "words", "chars", "bytes"]);
    assert_eq!(get_options(&parse(&["rwct", "f", "-m", "-w"])), vec!["words", "chars"]);
}

#[test]
fn a_flag_that_is_not_defined_counts_as_off() {
    let matches = Command::new("rwct")
        .arg(flag("lines", 'l'))
        .try_get_matches_from(["rwct", "-l"])
        .unwrap();
    assert_eq!(get_options(&matches), vec!["lines"]);
    let none = Command::new("rwct").try_get_matches_from(["rwct"]).unwrap();
    assert_eq!(get_options(&none), Vec::<&str>::new());
}

#[test]
fn an_argument_that_is_no_flag_counts_as_off() {
    let matches = Command::new("rwct")
        .arg(Arg::new("lines").long("lines").action(ArgAction::Set))
        .arg(flag("bytes", 'c'))
        .try_get_matches_from(["rwct", "--lines", "true", "-c"])
        .unwrap();
    assert_eq!(get_options(&matches), vec!["bytes"]);
}

#[test]
fn options_from_each_combination_of_flags() {
    for bits in 0..16u8 {
        let (l, w, m, c) = (bits & 1 != 0, bits & 2 != 0, bits & 4 != 0, bits & 8 != 0);
        let mut expected = Vec::new();
        if l {
            expected.push("lines");
        }
        if w {
            expected.push("words");
        }
        if m {
            expected.push("chars");
        }
        if c {
            expected.push("bytes");
        }
        assert_eq!(options_from_flags(l, w, m, c), expected);
    }
}

#[test]
fn a_bare_file_name_falls_back_to_the_default_fields() {
    assert_eq!(select_options(vec![], true, 2), vec!["lines", "words", "bytes"]);
    assert_eq!(select_options(vec![], true, 3), vec!["lines", "words", "bytes"]);
}

#[test]
fn a_request_for_a_file_stands() {
    assert_eq!(select_options(vec!["chars"], true, 3), vec!["chars"]);
    assert_eq!(select_options(vec!["bytes", "lines"], true, 4), vec!["bytes", "lines"]);
    assert_eq!(select_options(vec!["words"], true, 2), vec!["words"]);
}

#[test]
fn standard_input_has_no_default() {
    assert_eq!(select_options(vec![], false, 1), Vec::<&str>::new());
    assert_eq!(select_options(vec![], false, 2), Vec::<&str>::new());
    assert_eq!(select_options(vec!["words"], false, 2), vec!["words"]);
}

#[test]
fn a_single_argument_has_no_default() {
    assert_eq!(select_options(vec![], true, 1), Vec::<&str>::new());
    assert_eq!(select_options(vec![], true, 0), Vec::<&str>::new());
}

#[test]
fn names_that_are_no_fields_ask_for_nothing() {
    assert_eq!(select_options(vec!["size"], true, 2), vec!["lines", "words", "bytes"]);
    assert_eq!(select_options(vec!["size"], false, 2), vec!["size"]);
}

#[test]
fn has_option_finds_a_name_anywhere() {
    let options = ["bytes", "lines", "bytes"];
    assert!(has_option(&options, "lines"));
    assert!(has_option(&options, "bytes"));
    assert!(!has_option(&options, "words"));
    assert!(!has_option(&options, "line"));
    assert!(!has_option(&[], "lines"));
}

#[test]
fn same_text_compares_all_characters() {
    assert!(same_text("", ""));
    assert!(same_text("lines", "lines"));
    assert!(!same_text("lines", "line"));
    assert!(!same_text("line", "lines"));
    assert!(!same_text("lines", "lineS"));
    assert!(!same_text("words", "bytes"));
    assert!(same_text("caf\u{e9}", "caf\u{e9}"));
    assert!(!same_text("caf\u{e9}", "caf\u{e8}"));
    assert!(!same_text("", "x"));
}
