use oshell::commands::cat::{cat, CatSource};
use oshell::commands::cd::{cd, home_target, CdTarget};
use oshell::commands::clear::clear;
use oshell::commands::cp::{cp, CpPlan};
use oshell::commands::echo::echo;
use oshell::commands::ls::args::parse_args;
use oshell::commands::mv::{mv, plan_move, MvPlan};
use oshell::commands::pwd::pwd;
use oshell::commands::rm::{remove_path, rm, PathProbe, Removal, RmPlan};
use oshell::error::ShellError;
use oshell::paths::destination;

fn words(list: &[&str]) -> Vec<String> {
    list.iter().map(|s| s.to_string()).collect()
}

#[test]
fn echo_joins_its_arguments_with_spaces() {
    assert_eq!(echo(&["hello", "world"]), "hello world\n");
    assert_eq!(echo(&["one"]), "one\n");
    assert_eq!(echo(&[]), "\n");
}

#[test]
fn echo_drops_double_quotes() {
    assert_eq!(echo(&["\"hello", "world\""]), "hello world\n");
    assert_eq!(echo(&["a\"b\"c", "\"\""]), "abc \n");
    assert_eq!(echo(&["'single'"]), "'single'\n");
}

#[test]
fn cat_without_arguments_reads_the_standard_input() {
    assert_eq!(cat(&[]), CatSource::Stdin);
}

#[test]
fn cat_with_arguments_reads_the_files_in_order() {
    assert_eq!(cat(&["b", "a", "b"]), CatSource::Files(words(&["b", "a", "b"])));
}

#[test]
fn clear_writes_the_clear_and_home_sequence() {
    assert_eq!(clear(), "\x1B[2J\x1B[1;1H");
}

#[test]
fn pwd_prints_the_directory_on_one_line() {
    assert_eq!(pwd("/home/user"), "/home/user\n");
    assert_eq!(pwd("/"), "/\n");
}

#[test]
fn pwd_leaves_the_directory_as_it_is() {
    assert_eq!(pwd("/tmp/a\"b"), "/tmp/a\"b\n");
    assert_eq!(pwd("/tmp/a\\b c"), "/tmp/a\\b c\n");
    assert_eq!(pwd("/tmp/a\nb"), "/tmp/a\nb\n");
    assert_eq!(pwd("/tmp/\u{e9}t\u{e9}/\u{65e5}\u{672c}"), "/tmp/\u{e9}t\u{e9}/\u{65e5}\u{672c}\n");
    assert_eq!(pwd(""), "\n");
}

#[test]
fn home_is_where_the_environment_says() {
    assert_eq!(home_target(Some("/home/user")), Ok("/home/user".to_string()));
    assert_eq!(home_target(Some("")), Ok(String::new()));
}

#[test]
fn without_a_home_going_home_fails() {
    assert_eq!(home_target(None), Err(ShellError::HomeNotSet));
    assert_eq!(ShellError::HomeNotSet.message(), "O-shell: cd: HOME not set");
}

#[test]
fn cd_without_arguments_goes_home() {
    assert_eq!(cd(&[], false), Ok(CdTarget::Home));
    assert_eq!(cd(&[], true), Ok(CdTarget::Home));
}

#[test]
fn cd_to_a_path_that_exists_goes_there() {
    assert_eq!(cd(&["/tmp"], true), Ok(CdTarget::Path("/tmp".to_string())));
}

#[test]
fn cd_to_a_path_that_does_not_exist_fails() {
    let r = cd(&["nonexistent-path"], false);
    assert_eq!(r, Err(ShellError::CdNoSuchDirectory("nonexistent-path".to_string())));
    assert_eq!(
        r.unwrap_err().message(),
        "O-shell: cd: nonexistent-path: No such file or directory"
    );
}

#[test]
fn cd_with_more_than_one_argument_fails() {
    assert_eq!(cd(&["a", "b"], true), Err(ShellError::CdTooManyArguments));
    assert_eq!(cd(&["a", "b", "c"], false), Err(ShellError::CdTooManyArguments));
    assert_eq!(ShellError::CdTooManyArguments.message(), "O-shell: cd: too many arguments");
}

#[test]
fn a_destination_that_is_no_directory_is_taken_as_it_is() {
    assert_eq!(destination("a/b.txt", "c.txt", false), Ok("c.txt".to_string()));
    assert_eq!(destination("..", "c", false), Ok("c".to_string()));
}

#[test]
fn a_destination_that_is_a_directory_takes_the_name_of_the_source() {
    assert_eq!(destination("a/b.txt", "dir", true), Ok("dir/b.txt".to_string()));
    assert_eq!(destination("b.txt", "dir/", true), Ok("dir/b.txt".to_string()));
    assert_eq!(destination("a/sub/", "/dst", true), Ok("/dst/sub".to_string()));
}

#[test]
fn a_source_without_a_name_cannot_go_into_a_directory() {
    assert_eq!(destination("..", "dir", true), Err(ShellError::NoFileName("..".to_string())));
    assert_eq!(destination("/", "dir", true), Err(ShellError::NoFileName("/".to_string())));
    assert_eq!(destination("a/..", "dir", true), Err(ShellError::NoFileName("a/..".to_string())));
}

#[test]
fn cp_copies_a_regular_file() {
    assert_eq!(
        cp(&["a.txt", "b.txt"], true, false),
        Ok(CpPlan::Copy { from: "a.txt".to_string(), to: "b.txt".to_string() })
    );
    assert_eq!(
        cp(&["x/a.txt", "dir"], true, true),
        Ok(CpPlan::Copy { from: "x/a.txt".to_string(), to: "dir/a.txt".to_string() })
    );
}

#[test]
fn cp_leaves_anything_else_alone() {
    assert_eq!(cp(&["dir", "other"], false, false), Ok(CpPlan::Nothing));
    assert_eq!(cp(&["dir", "other"], false, true), Ok(CpPlan::Nothing));
}

#[test]
fn cp_takes_exactly_two_arguments() {
    assert_eq!(cp(&[], true, false), Err(ShellError::CpWrongArguments));
    assert_eq!(cp(&["a"], true, false), Err(ShellError::CpWrongArguments));
    assert_eq!(cp(&["a", "b", "c"], true, false), Err(ShellError::CpWrongArguments));
}

#[test]
fn cp_settles_the_destination_first() {
    assert_eq!(cp(&["..", "dir"], false, true), Err(ShellError::NoFileName("..".to_string())));
}

#[test]
fn mv_without_arguments_fails() {
    assert_eq!(mv(&[], false, false), Err(ShellError::MvMissingArguments));
    assert_eq!(ShellError::MvMissingArguments.message(), "mv: missing arguments");
}

#[test]
fn mv_with_other_than_two_arguments_fails() {
    assert_eq!(mv(&["a"], false, false), Err(ShellError::MvWrongArguments));
    assert_eq!(mv(&["a", "b", "c"], true, true), Err(ShellError::MvWrongArguments));
    assert_eq!(
        ShellError::MvWrongArguments.message(),
        "mv: takes two arguments source destination"
    );
}

#[test]
fn mv_of_a_path_to_itself_does_nothing() {
    assert_eq!(mv(&["a", "a"], false, false), Ok(MvPlan::Nothing));
    assert_eq!(mv(&["dir", "dir"], true, true), Ok(MvPlan::Nothing));
    assert_eq!(mv(&["..", ".."], true, true), Ok(MvPlan::Nothing));
    assert_eq!(mv(&["a", "a"], false, false), mv(&["a", "a"], false, false));
}

#[test]
fn mv_knows_two_spellings_of_one_path() {
    assert_eq!(mv(&["dir/", "dir"], true, true), Ok(MvPlan::Nothing));
    assert_eq!(mv(&["a//b", "a/b"], false, false), Ok(MvPlan::Nothing));
    assert_eq!(mv(&["a/./b", "a/b"], false, false), Ok(MvPlan::Nothing));
    assert_eq!(
        mv(&["./a", "a"], false, false),
        Ok(MvPlan::Rename { from: "./a".to_string(), to: "a".to_string() })
    );
}

#[test]
fn mv_renames_a_file() {
    assert_eq!(
        mv(&["a", "b"], false, false),
        Ok(MvPlan::Rename { from: "a".to_string(), to: "b".to_string() })
    );
    assert_eq!(
        mv(&["x/a", "dir"], false, true),
        Ok(MvPlan::Rename { from: "x/a".to_string(), to: "dir/a".to_string() })
    );
}

#[test]
fn mv_moves_a_directory_with_all_below_it() {
    assert_eq!(
        mv(&["src", "dst"], true, false),
        Ok(MvPlan::MoveDirectory { from: "src".to_string(), to: "dst".to_string() })
    );
    assert_eq!(
        mv(&["a/src", "dst"], true, true),
        Ok(MvPlan::MoveDirectory { from: "a/src".to_string(), to: "dst/src".to_string() })
    );
}

#[test]
fn mv_of_a_source_without_a_name_into_a_directory_fails() {
    assert_eq!(mv(&["..", "dir"], true, true), Err(ShellError::NoFileName("..".to_string())));
    assert_eq!(ShellError::NoFileName("..".to_string()).message(), "'..': path has no file name");
}

#[test]
fn children_are_moved_into_the_new_directory() {
    assert_eq!(
        plan_move("src/sub", "dst", true, true),
        Ok(MvPlan::MoveDirectory { from: "src/sub".to_string(), to: "dst/sub".to_string() })
    );
    assert_eq!(
        plan_move("src/f.txt", "dst", false, true),
        Ok(MvPlan::Rename { from: "src/f.txt".to_string(), to: "dst/f.txt".to_string() })
    );
}

#[test]
fn rm_without_a_path_fails() {
    assert_eq!(rm(&[]), Err(ShellError::RmMissingArguments));
    assert_eq!(rm(&["-r"]), Err(ShellError::RmMissingArguments));
    assert_eq!(rm(&["-R"]), Err(ShellError::RmMissingArguments));
    assert_eq!(ShellError::RmMissingArguments.message(), "rm: missing arguments");
}

#[test]
fn rm_takes_the_flag_in_first_place_only() {
    assert_eq!(rm(&["-r", "a", "b"]), Ok(RmPlan { recursive: true, paths: words(&["a", "b"]) }));
    assert_eq!(rm(&["-R", "a"]), Ok(RmPlan { recursive: true, paths: words(&["a"]) }));
    assert_eq!(rm(&["a", "-r"]), Ok(RmPlan { recursive: false, paths: words(&["a", "-r"]) }));
    assert_eq!(rm(&["-r", "-r"]), Ok(RmPlan { recursive: true, paths: words(&["-r"]) }));
    assert_eq!(rm(&["a"]), Ok(RmPlan { recursive: false, paths: words(&["a"]) }));
    assert_eq!(rm(&["-rf", "a"]), Ok(RmPlan { recursive: false, paths: words(&["-rf", "a"]) }));
}

fn probe(exists: bool, is_dir: bool, is_file: bool, is_symlink: bool) -> PathProbe {
    PathProbe { exists, is_dir, is_file, is_symlink }
}

#[test]
fn a_path_that_does_not_exist_cannot_be_removed() {
    let r = remove_path("gone", false, probe(false, false, false, false));
    assert_eq!(r, Err(ShellError::RmCannotRemove("gone".to_string())));
    assert_eq!(
        r.unwrap_err().message(),
        "rm: cannot remove \"gone\": No such file or directory"
    );
    assert!(remove_path("gone", true, probe(false, true, true, true)).is_err());
}

#[test]
fn a_directory_is_removed_as_a_tree_when_recursive() {
    assert_eq!(remove_path("d", true, probe(true, true, false, false)), Ok(Removal::Tree));
    assert_eq!(
        remove_path("d", false, probe(true, true, false, false)),
        Err(ShellError::RmCannotRemove("d".to_string()))
    );
}

#[test]
fn a_file_is_removed_only_if_it_is_a_link_too() {
    assert_eq!(remove_path("l", false, probe(true, false, true, true)), Ok(Removal::File));
    assert_eq!(remove_path("l", true, probe(true, false, true, true)), Ok(Removal::File));
    assert_eq!(
        remove_path("f", false, probe(true, false, true, false)),
        Err(ShellError::RmCannotRemove("f".to_string()))
    );
    assert_eq!(
        remove_path("f", true, probe(true, false, true, false)),
        Err(ShellError::RmCannotRemove("f".to_string()))
    );
}

#[test]
fn the_message_quotes_the_path_that_cannot_be_removed() {
    assert_eq!(
        ShellError::RmCannotRemove("my \"file\"".to_string()).message(),
        "rm: cannot remove \"my \\\"file\\\"\": No such file or directory"
    );
}

#[test]
fn ls_arguments_are_flags_and_paths() {
    assert_eq!(parse_args(&["-l", "-a", "-F"]), (true, true, true, words(&["."])));
    assert_eq!(parse_args(&["src", "-l", "docs"]), (true, false, false, words(&["src", "docs"])));
    assert_eq!(parse_args(&["-F", "x"]), (false, false, true, words(&["x"])));
    assert_eq!(parse_args(&["-a"]), (false, true, false, words(&["."])));
}

#[test]
fn ls_without_arguments_lists_the_current_directory() {
    assert_eq!(parse_args(&[]), (false, false, false, words(&["."])));
}

#[test]
fn ls_flags_may_come_in_any_order_and_more_than_once() {
    assert_eq!(parse_args(&["-F", "-l"]), parse_args(&["-l", "-F"]));
    assert_eq!(parse_args(&["a", "-a", "b"]), parse_args(&["-a", "a", "b", "-a"]));
    assert_eq!(parse_args(&["-l", "-l"]), (true, false, false, words(&["."])));
}

#[test]
fn ls_takes_anything_else_as_a_path() {
    assert_eq!(parse_args(&["-la"]), (false, false, false, words(&["-la"])));
    assert_eq!(parse_args(&["-x", "-L", "-f"]), (false, false, false, words(&["-x", "-L", "-f"])));
    assert_eq!(parse_args(&["", "."]), (false, false, false, words(&["", "."])));
}
