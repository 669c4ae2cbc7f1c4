//! The failures a command can be rejected with: a malformed invocation
//! (wrong number of arguments) or a semantically invalid one (blank
//! pattern, bad path).  Each failure carries the offending value and maps
//! to a dedicated process exit code.

use vstd::prelude::*;

verus! {

/// A failure that stops the run before any search happens.  Every such
/// failure names the process exit code to stop the run with and renders
/// itself as one line of text for the error stream.
pub trait MiniGrepArgsError {
    /// The exit code this failure maps to.
    spec fn spec_code(&self) -> int;

    /// Get the code used to stop the run.
    fn code(&self) -> (r: i32)
        ensures
            r as int == self.spec_code(),
    ;
}

/// The invocation carried the wrong number of arguments.  Each variant
/// holds the invoking program's name, for the usage line.
#[derive(Debug, Clone)]
pub enum InvalidSyntaxError {
    /// Fewer than two positional arguments were given.
    Missing(String),
    /// More than two positional arguments were given.
    TooMany(String),
}

impl InvalidSyntaxError {
    /// The one-line description of the failure, naming the expected call
    /// shape.
    pub fn message(&self) -> (r: String)
        ensures
            self matches InvalidSyntaxError::Missing(exe) ==> r@ == "Missing arguments. Call the script like: "@
                + exe@ + " pattern filename"@,
            self matches InvalidSyntaxError::TooMany(exe) ==> r@ == "Too many arguments. Call the script like: "@
                + exe@ + " pattern filename"@,
    {
        let (quantity, executable) = match self {
            InvalidSyntaxError::Missing(exe) => ("Missing", exe),
            InvalidSyntaxError::TooMany(exe) => ("Too many", exe),
        };
        let mut r = String::from_str(quantity);
        r.append(" arguments. Call the script like: ");
        r.append(executable.as_str());
        r.append(" pattern filename");
        proof {
            reveal_strlit("Missing");
            reveal_strlit("Too many");
            reveal_strlit(" arguments. Call the script like: ");
            reveal_strlit("Missing arguments. Call the script like: ");
            reveal_strlit("Too many arguments. Call the script like: ");
            assert("Missing"@ + " arguments. Call the script like: "@
                =~= "Missing arguments. Call the script like: "@);
            assert("Too many"@ + " arguments. Call the script like: "@
                =~= "Too many arguments. Call the script like: "@);
        }
        r
    }
}

impl MiniGrepArgsError for InvalidSyntaxError {
    open spec fn spec_code(&self) -> int {
        match self {
            InvalidSyntaxError::Missing(_) => 126,
            InvalidSyntaxError::TooMany(_) => 127,
        }
    }

    /// Get the code used to stop the run.
    ///
    /// - 126: if not enough arguments were given.
    /// - 127: if too many arguments were given.
    fn code(&self) -> (r: i32) {
        match self {
            InvalidSyntaxError::Missing(_) => 126,
            InvalidSyntaxError::TooMany(_) => 127,
        }
    }
}

/// A syntactically well-formed request was semantically invalid: the
/// pattern was blank, or the path did not lead to a readable regular
/// file.  Each variant carries the offending value and, where an I/O
/// operation failed, the text of the underlying cause.
#[derive(Debug, Clone)]
pub enum InvalidArgumentError {
    /// The pattern trims to the empty string; carries the original,
    /// untrimmed pattern.
    BlankPattern(String),
    /// The path denotes an existing node that is not a regular file;
    /// carries the resolved absolute path and the node's kind
    /// (`directory` or `unknown`).
    NotAFile(String, String),
    /// The path does not exist at all; carries the path as given.
    FileNotFound(String),
    /// The path exists but could not be resolved to an absolute path;
    /// carries the path as given and the cause.
    CannotResolvePath(String, String),
    /// The path is a regular file that could not be opened for reading;
    /// carries the path as given and the cause.
    NotAReadableFile(String, String),
}

impl InvalidArgumentError {
    /// The one-line description of the failure, echoing the offending
    /// value and, where one exists, the underlying cause.
    pub fn message(&self) -> (r: String)
        ensures
            self matches InvalidArgumentError::BlankPattern(pattern) ==> r@
                == "Cannot have a blank searched text '"@ + pattern@ + "'."@,
            self matches InvalidArgumentError::NotAFile(filename, file_type) ==> r@ == "'"@
                + filename@ + "' is not a file, it is a "@ + file_type@ + "."@,
            self matches InvalidArgumentError::FileNotFound(filename) ==> r@ == "The file '"@
                + filename@ + "' does not exist."@,
            self matches InvalidArgumentError::CannotResolvePath(filename, cause) ==> r@
                == "Cannot resolve the path ('"@ + filename@
                + "') to the absolute path, due to this error "@ + cause@ + "."@,
            self matches InvalidArgumentError::NotAReadableFile(filename, cause) ==> r@
                == "Cannot open the file '"@ + filename@ + "', due to this error "@ + cause@
                + "."@,
    {
        match self {
            InvalidArgumentError::BlankPattern(pattern) => {
                let mut r = String::from_str("Cannot have a blank searched text '");
                r.append(pattern.as_str());
                r.append("'.");
                r
            },
            InvalidArgumentError::NotAFile(filename, file_type) => {
                let mut r = String::from_str("'");
                r.append(filename.as_str());
                r.append("' is not a file, it is a ");
                r.append(file_type.as_str());
                r.append(".");
                r
            },
            InvalidArgumentError::FileNotFound(filename) => {
                let mut r = String::from_str("The file '");
                r.append(filename.as_str());
                r.append("' does not exist.");
                r
            },
            InvalidArgumentError::CannotResolvePath(filename, cause) => {
                let mut r = String::from_str("Cannot resolve the path ('");
                r.append(filename.as_str());
                r.append("') to the absolute path, due to this error ");
                r.append(cause.as_str());
                r.append(".");
                r
            },
            InvalidArgumentError::NotAReadableFile(filename, cause) => {
                let mut r = String::from_str("Cannot open the file '");
                r.append(filename.as_str());
                r.append("', due to this error ");
                r.append(cause.as_str());
                r.append(".");
                r
            },
        }
    }
}

impl MiniGrepArgsError for InvalidArgumentError {
    open spec fn spec_code(&self) -> int {
        match self {
            InvalidArgumentError::BlankPattern(_) => 130,
            InvalidArgumentError::NotAFile(_, _) => 131,
            InvalidArgumentError::FileNotFound(_) => 132,
            InvalidArgumentError::CannotResolvePath(_, _) => 133,
            InvalidArgumentError::NotAReadableFile(_, _) => 134,
        }
    }

    /// Get the code used to stop the run.
    ///
    /// - 130: if the pattern was blank.
    /// - 131: if the path leads to a directory or another non-file node.
    /// - 132: if the path does not exist.
    /// - 133: if the path could not be resolved to an absolute path.
    /// - 134: if the file could not be opened for reading.
    fn code(&self) -> (r: i32) {
        match self {
            InvalidArgumentError::BlankPattern(_) => 130,
            InvalidArgumentError::NotAFile(_, _) => 131,
            InvalidArgumentError::FileNotFound(_) => 132,
            InvalidArgumentError::CannotResolvePath(_, _) => 133,
            InvalidArgumentError::NotAReadableFile(_, _) => 134,
        }
    }
}

/// The one failure type a whole invocation can end with: either the
/// invocation was malformed, or a well-formed request failed validation.
#[derive(Debug, Clone)]
pub enum MiniGrepError {
    /// The invocation carried the wrong number of arguments.
    Syntax(InvalidSyntaxError),
    /// The request failed validation.
    Argument(InvalidArgumentError),
}

impl MiniGrepError {
    /// The one-line description of the underlying failure.
    pub fn message(&self) -> (r: String)
        ensures
            self matches MiniGrepError::Syntax(e) ==> e matches InvalidSyntaxError::Missing(exe)
                ==> r@ == "Missing arguments. Call the script like: "@ + exe@
                + " pattern filename"@,
            self matches MiniGrepError::Syntax(e) ==> e matches InvalidSyntaxError::TooMany(exe)
                ==> r@ == "Too many arguments. Call the script like: "@ + exe@
                + " pattern filename"@,
            self matches MiniGrepError::Argument(e) ==> r@ == spec_argument_message(*e),
    {
        match self {
            MiniGrepError::Syntax(e) => e.message(),
            MiniGrepError::Argument(e) => e.message(),
        }
    }
}

/// The text `InvalidArgumentError::message` renders, stated once so that
/// wrappers around the error can promise the same line.
pub open spec fn spec_argument_message(e: InvalidArgumentError) -> Seq<char> {
    match e {
        InvalidArgumentError::BlankPattern(pattern) => "Cannot have a blank searched text '"@
            + pattern@ + "'."@,
        InvalidArgumentError::NotAFile(filename, file_type) => "'"@ + filename@
            + "' is not a file, it is a "@ + file_type@ + "."@,
        InvalidArgumentError::FileNotFound(filename) => "The file '"@ + filename@
            + "' does not exist."@,
        InvalidArgumentError::CannotResolvePath(filename, cause) => "Cannot resolve the path ('"@
            + filename@ + "') to the absolute path, due to this error "@ + cause@ + "."@,
        InvalidArgumentError::NotAReadableFile(filename, cause) => "Cannot open the file '"@
            + filename@ + "', due to this error "@ + cause@ + "."@,
    }
}

impl MiniGrepArgsError for MiniGrepError {
    open spec fn spec_code(&self) -> int {
        match self {
            MiniGrepError::Syntax(e) => e.spec_code(),
            MiniGrepError::Argument(e) => e.spec_code(),
        }
    }

    /// Get the code used to stop the run: the code of the underlying
    /// failure.
    fn code(&self) -> (r: i32) {
        match self {
            MiniGrepError::Syntax(e) => e.code(),
            MiniGrepError::Argument(e) => e.code(),
        }
    }
}

} // verus!
