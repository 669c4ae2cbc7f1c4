use mini_grep::errors::InvalidArgumentError;
use mini_grep::errors::InvalidSyntaxError;
use mini_grep::errors::MiniGrepArgsError;
use mini_grep::errors::MiniGrepError;

#[test]
fn missing_arguments_have_code_126_and_a_usage_line() {
    let error = InvalidSyntaxError::Missing("prog".to_string());
    assert_eq!(error.code(), 126);
    assert_eq!(
        error.message(),
        "Missing arguments. Call the script like: prog pattern filename"
    );
}

#[test]
fn too_many_arguments_have_code_127_and_a_usage_line() {
    let error = InvalidSyntaxError::TooMany("prog".to_string());
    assert_eq!(error.code(), 127);
    assert_eq!(
        error.message(),
        "Too many arguments. Call the script like: prog pattern filename"
    );
}

#[test]
fn a_blank_pattern_has_code_130_and_echoes_the_pattern() {
    let error = InvalidArgumentError::BlankPattern("  ".to_string());
    assert_eq!(error.code(), 130);
    assert_eq!(error.message(), "Cannot have a blank searched text '  '.");
}

#[test]
fn a_non_file_node_has_code_131_and_names_its_kind() {
    let error = InvalidArgumentError::NotAFile("/abs/resources".to_string(), "directory".to_string());
    assert_eq!(error.code(), 131);
    assert_eq!(
        error.message(),
        "'/abs/resources' is not a file, it is a directory."
    );
}

#[test]
fn a_missing_file_has_code_132_and_names_the_path() {
    let error = InvalidArgumentError::FileNotFound("resources/not_existing_file".to_string());
    assert_eq!(error.code(), 132);
    assert_eq!(
        error.message(),
        "The file 'resources/not_existing_file' does not exist."
    );
}

#[test]
fn an_unresolvable_path_has_code_133_and_names_the_cause() {
    let error =
        InvalidArgumentError::CannotResolvePath("loop".to_string(), "some cause".to_string());
    assert_eq!(error.code(), 133);
    assert_eq!(
        error.message(),
        "Cannot resolve the path ('loop') to the absolute path, due to this error some cause."
    );
}

#[test]
fn an_unreadable_file_has_code_134_and_names_the_cause() {
    let error =
        InvalidArgumentError::NotAReadableFile("locked.txt".to_string(), "some cause".to_string());
    assert_eq!(error.code(), 134);
    assert_eq!(
        error.message(),
        "Cannot open the file 'locked.txt', due to this error some cause."
    );
}

#[test]
fn the_combined_error_keeps_code_and_message_of_a_syntax_failure() {
    let error = MiniGrepError::Syntax(InvalidSyntaxError::Missing("prog".to_string()));
    assert_eq!(error.code(), 126);
    assert_eq!(
        error.message(),
        "Missing arguments. Call the script like: prog pattern filename"
    );
}

#[test]
fn the_combined_error_keeps_code_and_message_of_an_argument_failure() {
    let error = MiniGrepError::Argument(InvalidArgumentError::BlankPattern("".to_string()));
    assert_eq!(error.code(), 130);
    assert_eq!(error.message(), "Cannot have a blank searched text ''.");
}
