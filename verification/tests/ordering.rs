use oshell::commands::ls::order::{compare_entries, get_dir_entries, key_of, starts_with_dot};
use std::cmp::Ordering;

fn by_lowercase_then_name(a: &str, b: &str) -> Ordering {
    let a_rest = if a.starts_with('.') { &a[1..] } else { a };
    let b_rest = if b.starts_with('.') { &b[1..] } else { b };
    a_rest.to_lowercase().cmp(&b_rest.to_lowercase()).then_with(|| a.cmp(b))
}

fn names(list: &[&str]) -> Vec<String> {
    list.iter().map(|s| s.to_string()).collect()
}

fn sample() -> Vec<&'static str> {
    vec![
        "", ".", "..", "a", "A", "b", "B", ".a", ".A", ".b", "ab", "aB", "Ab", "a.b", "a b",
        "zebra", "Zebra", ".zebra", "\u{c9}clair", "\u{e9}clair", "eclair", "\u{dc}ber", "\u{fc}ber",
        "\u{65e5}\u{672c}", "a\u{ffff}", "a\u{10000}", "\u{3a3}", "\u{3c3}", ".\u{3a3}", "..a",
        "README", "readme", "Readme.md", "10", "9", "_x", "~x",
    ]
}

#[test]
fn lower_case_decides_before_the_name() {
    assert_eq!(compare_entries("a", "B"), Ordering::Less);
    assert_eq!(compare_entries("B", "a"), Ordering::Greater);
    assert_eq!(compare_entries("Zebra", "apple"), Ordering::Greater);
}

#[test]
fn a_leading_dot_does_not_count_for_the_key() {
    assert_eq!(compare_entries(".b", "a"), Ordering::Greater);
    assert_eq!(compare_entries(".a", "b"), Ordering::Less);
    assert_eq!(compare_entries(".bashrc", "Cargo.toml"), Ordering::Less);
}

#[test]
fn only_one_leading_dot_is_taken_off() {
    assert_eq!(compare_entries("..a", ".a"), Ordering::Less);
    assert_eq!(compare_entries("..", "."), Ordering::Greater);
}

#[test]
fn equal_keys_fall_back_to_the_names() {
    assert_eq!(compare_entries("A", "a"), Ordering::Less);
    assert_eq!(compare_entries("a", "A"), Ordering::Greater);
    assert_eq!(compare_entries(".a", "a"), Ordering::Less);
    assert_eq!(compare_entries(".a", "A"), Ordering::Less);
    assert_eq!(compare_entries("a", ".a"), Ordering::Greater);
}

#[test]
fn a_name_equals_itself_only() {
    assert_eq!(compare_entries("same", "same"), Ordering::Equal);
    assert_eq!(compare_entries("", ""), Ordering::Equal);
    assert_ne!(compare_entries("same", "Same"), Ordering::Equal);
    assert_ne!(compare_entries("same", ".same"), Ordering::Equal);
}

#[test]
fn a_prefix_comes_first() {
    assert_eq!(compare_entries("ab", "abc"), Ordering::Less);
    assert_eq!(compare_entries("abc", "ab"), Ordering::Greater);
    assert_eq!(compare_entries("", "a"), Ordering::Less);
}

#[test]
fn lower_case_is_that_of_unicode() {
    assert_eq!(compare_entries("\u{c9}clair", "\u{e9}clair"), Ordering::Less);
    assert_eq!(compare_entries("\u{c9}a", "\u{e9}b"), Ordering::Less);
    assert_eq!(compare_entries("\u{e9}b", "\u{c9}a"), Ordering::Greater);
}

#[test]
fn comparison_agrees_with_string_order_on_every_pair() {
    let all = sample();
    for a in &all {
        for b in &all {
            assert_eq!(compare_entries(a, b), by_lowercase_then_name(a, b), "{:?} vs {:?}", a, b);
        }
    }
}

#[test]
fn comparison_is_antisymmetric_on_every_pair() {
    let all = sample();
    for a in &all {
        for b in &all {
            assert_eq!(compare_entries(a, b), compare_entries(b, a).reverse());
        }
    }
}

#[test]
fn key_is_lower_case_without_the_dot() {
    assert_eq!(key_of(".Bashrc"), vec!['b', 'a', 's', 'h', 'r', 'c']);
    assert_eq!(key_of("Cargo"), vec!['c', 'a', 'r', 'g', 'o']);
    assert_eq!(key_of("."), Vec::<char>::new());
    assert_eq!(key_of(".."), vec!['.']);
    assert_eq!(key_of(""), Vec::<char>::new());
}

#[test]
fn hidden_names_start_with_a_dot() {
    assert!(starts_with_dot(".git"));
    assert!(starts_with_dot("."));
    assert!(!starts_with_dot("git."));
    assert!(!starts_with_dot(""));
    assert!(!starts_with_dot("\u{e9}.x"));
}

#[test]
fn entries_are_sorted_by_key_then_name() {
    let sorted = get_dir_entries(names(&["b", "A", ".c", "a", "B", ".a"]));
    assert_eq!(sorted, names(&[".a", "A", "a", "B", "b", ".c"]));
}

#[test]
fn sorting_does_not_depend_on_the_order_given() {
    let one = get_dir_entries(names(&["src", ".git", "Cargo.toml", "README.md", ".gitignore"]));
    let two = get_dir_entries(names(&[".gitignore", "README.md", "src", "Cargo.toml", ".git"]));
    assert_eq!(one, two);
    assert_eq!(one, names(&["Cargo.toml", ".git", ".gitignore", "README.md", "src"]));
}

#[test]
fn sorting_keeps_every_name() {
    let given = names(&["x", "x", "X", ".x", "y", ""]);
    let sorted = get_dir_entries(given.clone());
    assert_eq!(sorted.len(), given.len());
    let mut a = given;
    let mut b = sorted.clone();
    a.sort();
    b.sort();
    assert_eq!(a, b);
    assert_eq!(sorted, names(&["", ".x", "X", "x", "x", "y"]));
}

#[test]
fn sorting_agrees_with_a_sort_by_string_order() {
    let given = names(&sample());
    let mut expected = given.clone();
    expected.sort_by(|a, b| by_lowercase_then_name(a, b));
    assert_eq!(get_dir_entries(given), expected);
}

#[test]
fn sorting_nothing_gives_nothing() {
    assert_eq!(get_dir_entries(Vec::new()), Vec::<String>::new());
    assert_eq!(get_dir_entries(names(&["only"])), names(&["only"]));
}
