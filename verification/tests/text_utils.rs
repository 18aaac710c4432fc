use oshell::commands::ls::moment::TimeFault;
use oshell::error::ShellError;
use oshell::text::{
    append_decimal, chars_of, is_whitespace, join, lex_compare, owned, remove_char, same_text,
    string_of, Rank,
};

fn chars(s: &str) -> Vec<char> {
    s.chars().collect()
}

#[test]
fn characters_go_to_a_vector_and_back() {
    assert_eq!(chars_of("h\u{e9}llo"), vec!['h', '\u{e9}', 'l', 'l', 'o']);
    assert_eq!(chars_of(""), Vec::<char>::new());
    assert_eq!(string_of(&vec!['a', '\u{65e5}', 'b']), "a\u{65e5}b");
    assert_eq!(string_of(&Vec::new()), "");
}

fn numeral(n: u64) -> String {
    let mut out = String::from("n=");
    append_decimal(&mut out, n);
    out
}

#[test]
fn decimal_numerals() {
    assert_eq!(numeral(0), "n=0");
    assert_eq!(numeral(7), "n=7");
    assert_eq!(numeral(10), "n=10");
    assert_eq!(numeral(4096), "n=4096");
    assert_eq!(numeral(1234567890), "n=1234567890");
    assert_eq!(numeral(u64::MAX), "n=18446744073709551615");
}

#[test]
fn lexicographic_order_is_by_code_point() {
    assert_eq!(lex_compare(&chars("a"), &chars("b")), Rank::Before);
    assert_eq!(lex_compare(&chars("b"), &chars("a")), Rank::After);
    assert_eq!(lex_compare(&chars("abc"), &chars("abc")), Rank::Same);
    assert_eq!(lex_compare(&chars("ab"), &chars("abc")), Rank::Before);
    assert_eq!(lex_compare(&chars("abc"), &chars("ab")), Rank::After);
    assert_eq!(lex_compare(&chars(""), &chars("")), Rank::Same);
    assert_eq!(lex_compare(&chars("Z"), &chars("a")), Rank::Before);
    assert_eq!(lex_compare(&chars("a\u{ffff}"), &chars("a\u{10000}")), Rank::Before);
}

#[test]
fn texts_are_the_same_when_all_characters_are() {
    assert!(same_text("abc", "abc"));
    assert!(same_text("", ""));
    assert!(!same_text("abc", "abd"));
    assert!(!same_text("abc", "ab"));
    assert!(!same_text("", "a"));
    assert!(!same_text("-r", "-R"));
}

#[test]
fn a_character_is_removed_wherever_it_stands() {
    assert_eq!(remove_char("\"a\"b\"", '"'), "ab");
    assert_eq!(remove_char("none", '"'), "none");
    assert_eq!(remove_char("\"\"\"", '"'), "");
    assert_eq!(remove_char("", '"'), "");
}

#[test]
fn white_space_is_what_the_standard_library_holds_it_to_be() {
    for code in 0..=0x10ffff_u32 {
        if let Some(c) = char::from_u32(code) {
            assert_eq!(is_whitespace(c), c.is_whitespace(), "U+{:04X}", code);
        }
    }
}

#[test]
fn some_characters_that_are_white_space_and_some_that_are_not() {
    for c in [' ', '\t', '\n', '\r', '\u{b}', '\u{c}', '\u{85}', '\u{a0}', '\u{2003}', '\u{3000}'] {
        assert!(is_whitespace(c));
    }
    for c in ['a', '0', '-', '\u{0}', '\u{8}', '\u{e}', '\u{1f}', '\u{200b}', '\u{feff}', '\u{180e}'] {
        assert!(!is_whitespace(c));
    }
}

#[test]
fn strings_are_joined_with_a_separator() {
    let items = vec!["a".to_string(), "b".to_string(), "".to_string(), "c".to_string()];
    assert_eq!(join(&items, ", "), "a, b, , c");
    assert_eq!(join(&Vec::new(), ", "), "");
    assert_eq!(join(&vec!["x".to_string()], ", "), "x");
}

#[test]
fn arguments_are_copied_in_order() {
    assert_eq!(owned(&["b", "a"]), vec!["b".to_string(), "a".to_string()]);
    assert_eq!(owned(&[]), Vec::<String>::new());
}

#[test]
fn every_failure_has_its_description() {
    assert_eq!(ShellError::CommandNotFound("x".to_string()).message(), "Command 'x' not found");
    assert_eq!(ShellError::CdTooManyArguments.message(), "O-shell: cd: too many arguments");
    assert_eq!(
        ShellError::CdNoSuchDirectory("p".to_string()).message(),
        "O-shell: cd: p: No such file or directory"
    );
    assert_eq!(
        ShellError::CpWrongArguments.message(),
        "cp: takes two arguments source destination"
    );
    assert_eq!(ShellError::MvMissingArguments.message(), "mv: missing arguments");
    assert_eq!(
        ShellError::MvWrongArguments.message(),
        "mv: takes two arguments source destination"
    );
    assert_eq!(ShellError::RmMissingArguments.message(), "rm: missing arguments");
    assert_eq!(
        ShellError::RmCannotRemove("p".to_string()).message(),
        "rm: cannot remove \"p\": No such file or directory"
    );
    assert_eq!(ShellError::NoFileName("/".to_string()).message(), "'/': path has no file name");
    assert_eq!(
        ShellError::Time(TimeFault::BeforeEpoch).message(),
        "second time provided was later than self"
    );
    assert_eq!(ShellError::Time(TimeFault::TooLate).message(), "modification time out of range");
    assert_eq!(
        ShellError::Time(TimeFault::OffsetOutOfRange).message(),
        "local time offset out of range"
    );
    assert_eq!(ShellError::HomeNotSet.message(), "O-shell: cd: HOME not set");
    assert_eq!(ShellError::BlockCountOverflow.message(), "block count out of range");
}
