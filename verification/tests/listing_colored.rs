use oshell::commands::ls::entry::{DirectoryEntry, FileMetadata};
use oshell::commands::ls::identity::Identities;
use oshell::commands::ls::long::long_rows;
use oshell::commands::ls::names::colored_file_name_str;
use oshell::commands::ls::short::display;
use oshell::error::ShellError;
use oshell::shell::{error_line, prompt};

fn colours() {
    colored::control::set_override(true);
}

fn node(is_dir: bool, mode: u32) -> FileMetadata {
    FileMetadata { is_dir, mode, nlink: 1, uid: 0, gid: 0, size: 0, mtime: 0, utc_offset: 0, blocks: 0 }
}

fn entry(name: &str, metadata: FileMetadata) -> DirectoryEntry {
    DirectoryEntry::new(name.to_string(), metadata)
}

#[test]
fn a_directory_name_is_bold_blue() {
    colours();
    assert_eq!(colored_file_name_str("docs", &node(true, 0o755)), "\u{1b}[1;34mdocs\u{1b}[0m");
}

#[test]
fn a_file_name_stays_plain() {
    colours();
    assert_eq!(colored_file_name_str("notes", &node(false, 0o755)), "notes");
}

#[test]
fn short_format_paints_directories_only() {
    colours();
    let entries = vec![entry("a.txt", node(false, 0o644)), entry("docs", node(true, 0o755))];
    assert_eq!(display(&entries, false, false), "a.txt  \u{1b}[1;34mdocs\u{1b}[0m\n");
}

#[test]
fn the_suffix_comes_after_the_paint() {
    colours();
    let entries = vec![entry("docs", node(true, 0o755)), entry("run", node(false, 0o100))];
    assert_eq!(display(&entries, false, true), "\u{1b}[1;34mdocs\u{1b}[0m/  run*\n");
}

#[test]
fn the_two_dots_are_painted_like_directories() {
    colours();
    assert_eq!(
        display(&Vec::new(), true, false),
        "\u{1b}[1;34m.\u{1b}[0m  \u{1b}[1;34m..\u{1b}[0m\n"
    );
    assert_eq!(
        display(&Vec::new(), true, true),
        "\u{1b}[1;34m.\u{1b}[0m/  \u{1b}[1;34m..\u{1b}[0m/\n"
    );
}

#[test]
fn long_rows_carry_painted_names() {
    colours();
    let entries = vec![entry("docs", node(true, 0o755)), entry("f", node(false, 0o644))];
    let rows = long_rows(
        &entries,
        true,
        true,
        &node(true, 0o755),
        &node(false, 0o644),
        &Identities::new(),
    )
    .unwrap();
    assert_eq!(rows[0].name, "\u{1b}[1;34m.\u{1b}[0m/");
    assert_eq!(rows[1].name, "\u{1b}[1;34m..\u{1b}[0m");
    assert_eq!(rows[2].name, "\u{1b}[1;34mdocs\u{1b}[0m/");
    assert_eq!(rows[3].name, "f");
}

#[test]
fn the_prompt_shows_the_directory_in_bold_cyan() {
    colours();
    assert_eq!(prompt("/home/user"), "[\u{1b}[1;36m/home/user\u{1b}[0m] -> $ ");
}

#[test]
fn a_failure_is_reported_in_red() {
    colours();
    assert_eq!(
        error_line(&ShellError::MvMissingArguments.message()),
        "\u{1b}[31mError: mv: missing arguments\u{1b}[0m"
    );
}

#[test]
fn an_escape_in_a_name_does_not_disturb_the_paint() {
    colours();
    assert_eq!(
        colored_file_name_str("a\u{1b}b", &node(true, 0o755)),
        "\u{1b}[1;34ma\u{1b}b\u{1b}[0m"
    );
    assert_eq!(
        colored_file_name_str("a\u{1b}[0", &node(true, 0o755)),
        "\u{1b}[1;34ma\u{1b}[0\u{1b}[0m"
    );
}

#[test]
fn the_style_is_started_again_after_a_reset_in_a_name() {
    colours();
    assert_eq!(
        colored_file_name_str("a\u{1b}[0mb", &node(true, 0o755)),
        "\u{1b}[1;34ma\u{1b}[0m\u{1b}[1;34mb\u{1b}[0m"
    );
    assert_eq!(
        colored_file_name_str("\u{1b}[0m\u{1b}[0m", &node(true, 0o755)),
        "\u{1b}[1;34m\u{1b}[0m\u{1b}[1;34m\u{1b}[0m\u{1b}[1;34m\u{1b}[0m"
    );
    assert_eq!(
        error_line("x\u{1b}[0m"),
        "\u{1b}[31mError: x\u{1b}[0m\u{1b}[31m\u{1b}[0m"
    );
}
