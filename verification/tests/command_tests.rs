use mini_grep::command::CaseSensitive;
use mini_grep::command::Command;
use mini_grep::command::PathStatus;
use mini_grep::errors::InvalidArgumentError;
use mini_grep::errors::InvalidSyntaxError;
use mini_grep::errors::MiniGrepArgsError;
use mini_grep::errors::MiniGrepError;

fn args(list: &[&str]) -> Vec<String> {
    list.iter().map(|a| a.to_string()).collect()
}

#[test]
fn build_accepts_a_plain_pattern_and_a_readable_file() {
    let built = Command::build(
        "needle".to_string(),
        "f.txt".to_string(),
        CaseSensitive::True,
        PathStatus::ReadableFile,
    );
    let command = built.expect("a readable file and a non-blank pattern must build");
    assert_eq!(command.pattern, "needle");
    assert_eq!(command.filename, "f.txt");
    assert!(command.case_sensitive);
}

#[test]
fn built_command_finds_exactly_the_matching_lines() {
    let command = Command::build(
        "Rust".to_string(),
        "f.txt".to_string(),
        CaseSensitive::True,
        PathStatus::ReadableFile,
    )
    .expect("a readable file and a non-blank pattern must build");
    let file = vec![
        "alpha".to_string(),
        "beta Rust".to_string(),
        "gamma RUST end".to_string(),
    ];
    let found = command.search(&file);
    assert_eq!(found, vec![(2usize, "beta Rust".to_string())]);
}

#[test]
fn build_rejects_an_empty_pattern_and_echoes_it() {
    let built = Command::build(
        "".to_string(),
        "f.txt".to_string(),
        CaseSensitive::True,
        PathStatus::ReadableFile,
    );
    match built {
        Err(InvalidArgumentError::BlankPattern(pattern)) => assert_eq!(pattern, ""),
        other => panic!("expected the blank-pattern failure, got {other:?}"),
    }
}

#[test]
fn build_rejects_a_whitespace_pattern_and_echoes_it_untrimmed() {
    let built = Command::build(
        "   ".to_string(),
        "f.txt".to_string(),
        CaseSensitive::True,
        PathStatus::ReadableFile,
    );
    match built {
        Err(InvalidArgumentError::BlankPattern(pattern)) => assert_eq!(pattern, "   "),
        other => panic!("expected the blank-pattern failure, got {other:?}"),
    }
}

#[test]
fn build_keeps_a_pattern_that_trims_to_something() {
    let built = Command::build(
        " x ".to_string(),
        "f.txt".to_string(),
        CaseSensitive::True,
        PathStatus::ReadableFile,
    );
    let command = built.expect("a pattern with a non-whitespace character must build");
    assert_eq!(command.pattern, " x ");
}

#[test]
fn build_checks_the_pattern_before_the_path() {
    let built = Command::build(
        "  ".to_string(),
        "/nonexistent/path".to_string(),
        CaseSensitive::True,
        PathStatus::NotFound,
    );
    assert!(matches!(built, Err(InvalidArgumentError::BlankPattern(_))));
}

#[test]
fn build_classifies_a_directory_as_not_a_file() {
    let built = Command::build(
        "pattern".to_string(),
        "resources".to_string(),
        CaseSensitive::True,
        PathStatus::Directory("/abs/resources".to_string()),
    );
    match built {
        Err(InvalidArgumentError::NotAFile(path, kind)) => {
            assert_eq!(path, "/abs/resources");
            assert_eq!(kind, "directory");
        }
        other => panic!("expected the not-a-file failure, got {other:?}"),
    }
}

#[test]
fn build_classifies_another_node_as_unknown() {
    let built = Command::build(
        "pattern".to_string(),
        "tmp/socket".to_string(),
        CaseSensitive::True,
        PathStatus::UnknownNode("/abs/tmp/socket".to_string()),
    );
    match built {
        Err(InvalidArgumentError::NotAFile(path, kind)) => {
            assert_eq!(path, "/abs/tmp/socket");
            assert_eq!(kind, "unknown");
        }
        other => panic!("expected the not-a-file failure, got {other:?}"),
    }
}

#[test]
fn build_reports_a_missing_path() {
    let built = Command::build(
        "pattern".to_string(),
        "/nonexistent/path".to_string(),
        CaseSensitive::True,
        PathStatus::NotFound,
    );
    match built {
        Err(InvalidArgumentError::FileNotFound(filename)) => {
            assert_eq!(filename, "/nonexistent/path");
        }
        other => panic!("expected the not-found failure, got {other:?}"),
    }
}

#[test]
fn build_reports_an_unresolvable_path_with_its_cause() {
    let built = Command::build(
        "pattern".to_string(),
        "loop".to_string(),
        CaseSensitive::True,
        PathStatus::Unresolvable("too many levels of symbolic links".to_string()),
    );
    match built {
        Err(InvalidArgumentError::CannotResolvePath(filename, cause)) => {
            assert_eq!(filename, "loop");
            assert_eq!(cause, "too many levels of symbolic links");
        }
        other => panic!("expected the cannot-resolve failure, got {other:?}"),
    }
}

#[test]
fn build_reports_an_unreadable_file_with_its_cause() {
    let built = Command::build(
        "pattern".to_string(),
        "locked.txt".to_string(),
        CaseSensitive::True,
        PathStatus::UnreadableFile("permission denied (os error 13)".to_string()),
    );
    match built {
        Err(InvalidArgumentError::NotAReadableFile(filename, cause)) => {
            assert_eq!(filename, "locked.txt");
            assert_eq!(cause, "permission denied (os error 13)");
        }
        other => panic!("expected the not-readable failure, got {other:?}"),
    }
}

#[test]
fn no_positional_arguments_fail_with_missing_and_code_126() {
    let r = Command::try_from_args(args(&["prog"]), None, PathStatus::ReadableFile);
    match r {
        Err(error) => {
            assert_eq!(error.code(), 126);
            assert!(matches!(
                error,
                MiniGrepError::Syntax(InvalidSyntaxError::Missing(_))
            ));
        }
        Ok(_) => panic!("zero positional arguments must not build"),
    }
}

#[test]
fn one_positional_argument_fails_with_missing() {
    let r = Command::try_from_args(args(&["prog", "pattern"]), None, PathStatus::ReadableFile);
    match r {
        Err(MiniGrepError::Syntax(InvalidSyntaxError::Missing(executable))) => {
            assert_eq!(executable, "prog");
        }
        other => panic!("expected the missing-arguments failure, got {other:?}"),
    }
}

#[test]
fn three_positional_arguments_fail_with_too_many_and_code_127() {
    let r = Command::try_from_args(
        args(&["prog", "pattern", "f.txt", "extra"]),
        None,
        PathStatus::ReadableFile,
    );
    match r {
        Err(error) => {
            assert_eq!(error.code(), 127);
            assert!(matches!(
                error,
                MiniGrepError::Syntax(InvalidSyntaxError::TooMany(_))
            ));
        }
        Ok(_) => panic!("three positional arguments must not build"),
    }
}

#[test]
fn two_positional_arguments_build_a_case_sensitive_command() {
    let r = Command::try_from_args(
        args(&["prog", "pattern", "f.txt"]),
        None,
        PathStatus::ReadableFile,
    );
    let command = r.expect("two positional arguments and a readable file must build");
    assert_eq!(command.pattern, "pattern");
    assert_eq!(command.filename, "f.txt");
    assert!(command.case_sensitive);
}

#[test]
fn truthy_environment_values_switch_case_off() {
    for value in ["1", "true", "TRUE", "TrUe"] {
        let r = Command::try_from_args(
            args(&["prog", "pattern", "f.txt"]),
            Some(value.to_string()),
            PathStatus::ReadableFile,
        );
        let command = r.expect("a readable file must build");
        assert!(
            !command.case_sensitive,
            "the value {value:?} must switch matching to case-insensitive"
        );
    }
}

#[test]
fn other_environment_values_keep_case_on() {
    for value in ["0", "false", "FALSE", "tata", "alpha", "", "  "] {
        let r = Command::try_from_args(
            args(&["prog", "pattern", "f.txt"]),
            Some(value.to_string()),
            PathStatus::ReadableFile,
        );
        let command = r.expect("a readable file must build");
        assert!(
            command.case_sensitive,
            "the value {value:?} must keep matching case-sensitive"
        );
    }
}

#[test]
fn argument_failures_keep_their_code_through_the_combined_error() {
    let r = Command::try_from_args(
        args(&["prog", "pattern", "/nonexistent/path"]),
        None,
        PathStatus::NotFound,
    );
    match r {
        Err(error) => {
            assert_eq!(error.code(), 132);
            assert!(matches!(
                error,
                MiniGrepError::Argument(InvalidArgumentError::FileNotFound(_))
            ));
        }
        Ok(_) => panic!("a missing path must not build"),
    }
}

#[test]
fn case_sensitive_defaults_to_true() {
    assert_eq!(CaseSensitive::default(), CaseSensitive::True);
}

#[test]
fn case_sensitive_converts_from_bool_and_back() {
    assert_eq!(CaseSensitive::from(true), CaseSensitive::True);
    assert_eq!(CaseSensitive::from(false), CaseSensitive::False);
    assert!(CaseSensitive::True.is_sensitive());
    assert!(!CaseSensitive::False.is_sensitive());
}

#[test]
fn command_describes_itself() {
    let command = Command {
        pattern: "needle".to_string(),
        filename: "f.txt".to_string(),
        case_sensitive: true,
    };
    assert_eq!(
        command.message(),
        "MiniGrep command searching the pattern 'needle' in the file 'f.txt'."
    );
}

#[test]
fn the_environment_variable_name_is_ignore_case() {
    assert_eq!(Command::IGNORE_CASE_ENV_NAME, "IGNORE_CASE");
}
