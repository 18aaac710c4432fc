use oshell::error::ShellError;
use oshell::shell::{error_line, prompt, run_shell, split_words, Builtin, Registry, Step};

fn words(list: &[&str]) -> Vec<String> {
    list.iter().map(|s| s.to_string()).collect()
}

#[test]
fn a_line_is_split_at_white_space() {
    assert_eq!(split_words("ls -l /tmp"), words(&["ls", "-l", "/tmp"]));
    assert_eq!(split_words("  echo   a\tb \n"), words(&["echo", "a", "b"]));
    assert_eq!(split_words("one"), words(&["one"]));
}

#[test]
fn a_line_of_white_space_has_no_words() {
    assert_eq!(split_words(""), Vec::<String>::new());
    assert_eq!(split_words("   \t \r\n"), Vec::<String>::new());
}

#[test]
fn white_space_is_that_of_unicode() {
    assert_eq!(split_words("a\u{3000}b\u{a0}c\u{2003}d\u{85}e"), words(&["a", "b", "c", "d", "e"]));
    assert_eq!(split_words("a\u{200b}b"), words(&["a\u{200b}b"]));
}

#[test]
fn splitting_agrees_with_the_standard_library() {
    for line in ["", " ", "a", " a", "a ", " a b ", "\ta\n\nb\r\nc\u{2028}d", "x  y   z", "\u{e9} \u{65e5}\u{672c}"] {
        let expected: Vec<String> = line.split_whitespace().map(|s| s.to_string()).collect();
        assert_eq!(split_words(line), expected, "{:?}", line);
    }
}

#[test]
fn a_name_resolves_to_what_it_was_registered_as() {
    let mut registry = Registry::new();
    assert_eq!(registry.resolve("ls"), None);
    registry.register("ls", Builtin::Ls);
    registry.register("cat", Builtin::Cat);
    assert_eq!(registry.resolve("ls"), Some(Builtin::Ls));
    assert_eq!(registry.resolve("cat"), Some(Builtin::Cat));
    assert_eq!(registry.resolve("LS"), None);
    assert_eq!(registry.resolve("l"), None);
    assert_eq!(registry.resolve(""), None);
}

#[test]
fn the_last_registration_of_a_name_wins() {
    let mut registry = Registry::new();
    registry.register("x", Builtin::Cat);
    registry.register("y", Builtin::Cd);
    registry.register("x", Builtin::Ls);
    assert_eq!(registry.resolve("x"), Some(Builtin::Ls));
    assert_eq!(registry.resolve("y"), Some(Builtin::Cd));
}

#[test]
fn every_builtin_is_in_the_table_of_the_shell() {
    let registry = Registry::builtins();
    assert_eq!(registry.resolve("cat"), Some(Builtin::Cat));
    assert_eq!(registry.resolve("cd"), Some(Builtin::Cd));
    assert_eq!(registry.resolve("clear"), Some(Builtin::Clear));
    assert_eq!(registry.resolve("cp"), Some(Builtin::Cp));
    assert_eq!(registry.resolve("echo"), Some(Builtin::Echo));
    assert_eq!(registry.resolve("ls"), Some(Builtin::Ls));
    assert_eq!(registry.resolve("mkdir"), Some(Builtin::Mkdir));
    assert_eq!(registry.resolve("mv"), Some(Builtin::Mv));
    assert_eq!(registry.resolve("pwd"), Some(Builtin::Pwd));
    assert_eq!(registry.resolve("rm"), Some(Builtin::Rm));
    assert_eq!(registry.resolve("exit"), None);
    assert_eq!(registry.resolve("touch"), None);
}

#[test]
fn no_byte_read_ends_the_session() {
    let registry = Registry::builtins();
    assert_eq!(run_shell(&registry, 0, ""), Step::Finish);
    assert_eq!(run_shell(&registry, 0, "ls"), Step::Finish);
}

#[test]
fn an_empty_line_does_nothing() {
    let registry = Registry::builtins();
    assert_eq!(run_shell(&registry, 1, "\n"), Step::Idle);
    assert_eq!(run_shell(&registry, 4, "  \t\n"), Step::Idle);
}

#[test]
fn exit_leaves_without_asking_the_table() {
    let mut registry = Registry::builtins();
    assert_eq!(run_shell(&registry, 5, "exit\n"), Step::Exit);
    assert_eq!(run_shell(&registry, 9, "  exit 3\n"), Step::Exit);
    registry.register("exit", Builtin::Echo);
    assert_eq!(run_shell(&registry, 5, "exit\n"), Step::Exit);
    assert_eq!(
        run_shell(&registry, 5, "Exit\n"),
        Step::Fail(ShellError::CommandNotFound("Exit".to_string()))
    );
}

#[test]
fn a_builtin_runs_on_the_other_words() {
    let registry = Registry::builtins();
    assert_eq!(
        run_shell(&registry, 11, "ls -l /tmp\n"),
        Step::Run { command: Builtin::Ls, args: words(&["-l", "/tmp"]) }
    );
    assert_eq!(run_shell(&registry, 4, "pwd\n"), Step::Run { command: Builtin::Pwd, args: Vec::new() });
    assert_eq!(
        run_shell(&registry, 20, "   echo  \"a\"   b  \n"),
        Step::Run { command: Builtin::Echo, args: words(&["\"a\"", "b"]) }
    );
}

#[test]
fn an_unknown_name_fails_and_names_itself() {
    let registry = Registry::builtins();
    let step = run_shell(&registry, 14, "frobnicate x y\n");
    assert_eq!(step, Step::Fail(ShellError::CommandNotFound("frobnicate".to_string())));
    match step {
        Step::Fail(e) => assert_eq!(e.message(), "Command 'frobnicate' not found"),
        _ => panic!("a failure was expected"),
    }
}

#[test]
fn a_failure_is_survived() {
    let registry = Registry::builtins();
    let first = run_shell(&registry, 8, "nothing\n");
    assert!(matches!(first, Step::Fail(_)));
    let second = run_shell(&registry, 8, "echo hi\n");
    assert_eq!(second, Step::Run { command: Builtin::Echo, args: words(&["hi"]) });
}

#[test]
fn the_prompt_shows_the_directory_between_brackets() {
    colored::control::set_override(false);
    assert_eq!(prompt("/home/user"), "[/home/user] -> $ ");
    assert_eq!(prompt("/"), "[/] -> $ ");
    assert_eq!(prompt("/tmp/with space"), "[/tmp/with space] -> $ ");
}

#[test]
fn the_prompt_leaves_the_directory_as_it_is() {
    colored::control::set_override(false);
    assert_eq!(prompt("/tmp/a\"b"), "[/tmp/a\"b] -> $ ");
    assert_eq!(prompt("/tmp/a\\b "), "[/tmp/a\\b ] -> $ ");
    assert_eq!(prompt("/tmp/\u{e9}"), "[/tmp/\u{e9}] -> $ ");
}

#[test]
fn a_failure_is_reported_after_the_word_error() {
    colored::control::set_override(false);
    assert_eq!(
        error_line(&ShellError::CommandNotFound("nope".to_string()).message()),
        "Error: Command 'nope' not found"
    );
    assert_eq!(error_line("No such file or directory (os error 2)"),
        "Error: No such file or directory (os error 2)");
    assert_eq!(error_line(""), "Error: ");
}
