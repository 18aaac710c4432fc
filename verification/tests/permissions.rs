use oshell::commands::ls::entry::FileMetadata;
use oshell::commands::ls::perm::{classify_suffix, get_file_permission};

fn metadata(is_dir: bool, mode: u32) -> FileMetadata {
    FileMetadata { is_dir, mode, nlink: 1, uid: 0, gid: 0, size: 0, mtime: 0, utc_offset: 0, blocks: 0 }
}

#[test]
fn directory_with_mode_755() {
    assert_eq!(get_file_permission(true, 0o755), "drwxr-xr-x");
}

#[test]
fn regular_file_with_mode_644() {
    assert_eq!(get_file_permission(false, 0o644), "-rw-r--r--");
}

#[test]
fn no_bits_and_all_bits() {
    assert_eq!(get_file_permission(false, 0), "----------");
    assert_eq!(get_file_permission(true, 0o777), "drwxrwxrwx");
    assert_eq!(get_file_permission(false, 0o421), "-r---w---x");
}

#[test]
fn bits_above_the_permissions_are_not_shown() {
    assert_eq!(get_file_permission(false, 0o104644), "-rw-r--r--");
    assert_eq!(get_file_permission(true, 0o47755), "drwxr-xr-x");
}

#[test]
fn classify_marks_a_directory_with_a_slash() {
    assert_eq!(classify_suffix(&metadata(true, 0o755), true), "/");
    assert_eq!(classify_suffix(&metadata(true, 0o000), true), "/");
}

#[test]
fn classify_marks_an_executable_with_a_star() {
    assert_eq!(classify_suffix(&metadata(false, 0o100), true), "*");
    assert_eq!(classify_suffix(&metadata(false, 0o010), true), "*");
    assert_eq!(classify_suffix(&metadata(false, 0o001), true), "*");
    assert_eq!(classify_suffix(&metadata(false, 0o755), true), "*");
}

#[test]
fn classify_leaves_a_plain_file_alone() {
    assert_eq!(classify_suffix(&metadata(false, 0o644), true), "");
}

#[test]
fn without_classify_nothing_is_appended() {
    assert_eq!(classify_suffix(&metadata(true, 0o755), false), "");
    assert_eq!(classify_suffix(&metadata(false, 0o755), false), "");
    assert_eq!(classify_suffix(&metadata(false, 0o644), false), "");
}
