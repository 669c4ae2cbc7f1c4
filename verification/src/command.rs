//! The command pipeline: raw `(pattern, filename, case mode)` inputs are
//! validated into a [`Command`], or rejected with a typed failure, and a
//! validated command searches the lines of its file for the pattern.

use vstd::prelude::*;

use crate::errors::InvalidArgumentError;
use crate::errors::InvalidSyntaxError;
use crate::errors::MiniGrepError;
use crate::text::contains_substring;
use crate::text::decimal_rep;
use crate::text::decimal_string;
use crate::text::has_substring;
use crate::text::is_blank;
use crate::text::lower_of;
use crate::text::lowercase;
use crate::text::trimmed_empty;

verus! {

/// Whether the pattern is matched against lines exactly or after
/// lower-casing both sides.
#[derive(Debug, Clone, Copy, PartialEq, Eq, Hash, Structural)]
pub enum CaseSensitive {
    /// Match the pattern literally.
    True,
    /// Lower-case both the pattern and each line before matching.
    False,
}

impl CaseSensitive {
    /// The flag as a plain boolean: `true` means case-sensitive.
    pub open spec fn spec_bool(self) -> bool {
        self == CaseSensitive::True
    }

    /// The flag as a plain boolean: `true` means case-sensitive.
    pub fn is_sensitive(self) -> (b: bool)
        ensures
            b == self.spec_bool(),
    {
        match self {
            CaseSensitive::True => true,
            CaseSensitive::False => false,
        }
    }
}

impl Default for CaseSensitive {
    /// Matching is case-sensitive unless asked otherwise.
    fn default() -> (r: Self)
        ensures
            r == CaseSensitive::True,
    {
        CaseSensitive::True
    }
}

impl From<bool> for CaseSensitive {
    fn from(value: bool) -> (r: Self) {
        if value {
            CaseSensitive::True
        } else {
            CaseSensitive::False
        }
    }
}

impl vstd::std_specs::convert::FromSpecImpl<bool> for CaseSensitive {
    open spec fn obeys_from_spec() -> bool {
        true
    }

    open spec fn from_spec(value: bool) -> Self {
        if value {
            CaseSensitive::True
        } else {
            CaseSensitive::False
        }
    }
}

/// What examining the filename as a filesystem path found, gathered in the
/// documented order: a node that is a regular file is opened for reading;
/// any other path is classified by existence, resolvability and node kind.
#[derive(Debug, Clone)]
pub enum PathStatus {
    /// The path denotes a regular file that was opened for reading.
    ReadableFile,
    /// The path denotes a regular file that could not be opened for
    /// reading; carries the text of the cause.
    UnreadableFile(String),
    /// The path does not exist at all.
    NotFound,
    /// The path exists but is not a regular file, and resolving it to an
    /// absolute path failed; carries the text of the cause.
    Unresolvable(String),
    /// The path exists, is not a regular file, and resolves to this
    /// absolute path, which is a directory.
    Directory(String),
    /// The path exists, is not a regular file, and resolves to this
    /// absolute path, which is neither a regular file nor a directory.
    UnknownNode(String),
}

/// A validated line-search command: a non-blank pattern bound to the name
/// of a readable regular file and a case mode.
#[derive(Debug, Clone)]
pub struct Command {
    /// The literal text searched for.  Never blank.
    pub pattern: String,
    /// The name of the file the lines come from, as given on invocation.
    pub filename: String,
    /// Whether matching is case-sensitive.
    pub case_sensitive: bool,
}

/// What `Command::build` returns for every combination of pattern and path
/// status: the first violated precondition decides, and the pattern check
/// comes before every path check.
pub open spec fn build_post(
    pattern: String,
    filename: String,
    case_sensitive: bool,
    status: PathStatus,
    r: Result<Command, InvalidArgumentError>,
) -> bool {
    &&& is_blank(pattern@) ==> (r matches Err(e) && e matches InvalidArgumentError::BlankPattern(
        p,
    ) && p == pattern)
    &&& !is_blank(pattern@) ==> match status {
        PathStatus::ReadableFile => (r matches Ok(c) && c.pattern == pattern && c.filename
            == filename && c.case_sensitive == case_sensitive),
        PathStatus::UnreadableFile(cause) => (r matches Err(e) && e
            matches InvalidArgumentError::NotAReadableFile(f, c) && f == filename && c == cause),
        PathStatus::NotFound => (r matches Err(e) && e matches InvalidArgumentError::FileNotFound(
            f,
        ) && f == filename),
        PathStatus::Unresolvable(cause) => (r matches Err(e) && e
            matches InvalidArgumentError::CannotResolvePath(f, c) && f == filename && c == cause),
        PathStatus::Directory(abs) => (r matches Err(e) && e
            matches InvalidArgumentError::NotAFile(f, k) && f == abs && k@ == "directory"@),
        PathStatus::UnknownNode(abs) => (r matches Err(e) && e
            matches InvalidArgumentError::NotAFile(f, k) && f == abs && k@ == "unknown"@),
    }
}

/// Whether an environment value asks for case-insensitive matching: it
/// must equal `true` or `1`, compared case-insensitively.
pub open spec fn truthy(value: Seq<char>) -> bool {
    lower_of(value) == "true"@ || lower_of(value) == "1"@
}

/// The case mode derived from the optional environment value: an absent
/// value means case-sensitive, and a present one means case-insensitive
/// exactly when it is truthy.
pub open spec fn case_mode_of(value: Option<String>) -> bool {
    match value {
        Option::None => true,
        Option::Some(s) => !truthy(s@),
    }
}

/// Whether the value, lower-cased, is one of the accepted truthy values.
fn is_truthy(value: &str) -> (r: bool)
    ensures
        r == truthy(value@),
{
    let lowered = lowercase(value);
    let accepted_true = String::from_str("true");
    let accepted_one = String::from_str("1");
    lowered == accepted_true || lowered == accepted_one
}

/// The views of a vector of lines.
pub open spec fn lines_view(lines: Seq<String>) -> Seq<Seq<char>> {
    lines.map_values(|l: String| l@)
}

/// The match predicate of one line: literal substring containment of the
/// pattern, or containment after lower-casing both sides when matching is
/// case-insensitive.
pub open spec fn line_matches(line: Seq<char>, pattern: Seq<char>, case_sensitive: bool) -> bool {
    if case_sensitive {
        has_substring(line, pattern)
    } else {
        has_substring(lower_of(line), lower_of(pattern))
    }
}

/// The matches among the first `n` lines, in ascending line-number order:
/// each matching line paired with its 1-indexed line number.
pub open spec fn search_up_to(
    lines: Seq<Seq<char>>,
    pattern: Seq<char>,
    case_sensitive: bool,
    n: int,
) -> Seq<(int, Seq<char>)>
    decreases n,
{
    if n <= 0 {
        Seq::empty()
    } else {
        search_up_to(lines, pattern, case_sensitive, n - 1) + if line_matches(
            lines[n - 1],
            pattern,
            case_sensitive,
        ) {
            seq![(n, lines[n - 1])]
        } else {
            Seq::empty()
        }
    }
}

/// All matches of the pattern over the whole sequence of lines.
pub open spec fn spec_search(
    lines: Seq<Seq<char>>,
    pattern: Seq<char>,
    case_sensitive: bool,
) -> Seq<(int, Seq<char>)> {
    search_up_to(lines, pattern, case_sensitive, lines.len() as int)
}

/// The views of a vector of search results.
pub open spec fn match_views(r: Seq<(usize, String)>) -> Seq<(int, Seq<char>)> {
    r.map_values(|p: (usize, String)| (p.0 as int, p.1@))
}

/// The word naming the case mode in the report.
pub open spec fn mode_word(case_sensitive: bool) -> Seq<char> {
    if case_sensitive {
        "sensitive"@
    } else {
        "insensitive"@
    }
}

/// The summary line printed when no line matched.
pub open spec fn no_match_header(pattern: Seq<char>, filename: Seq<char>, cs: bool) -> Seq<char> {
    "The file '"@ + filename + "' does not contain any line with the case "@ + mode_word(cs)
        + " pattern '"@ + pattern + "'."@
}

/// The header line printed above the matching lines.
pub open spec fn found_header(pattern: Seq<char>, filename: Seq<char>, cs: bool) -> Seq<char> {
    "The file '"@ + filename + "' contains these lines with the case "@ + mode_word(cs)
        + " pattern '"@ + pattern + "':"@
}

/// One report entry: the 1-indexed line number, a separator, and the
/// line's content.
pub open spec fn match_line(m: (int, Seq<char>)) -> Seq<char> {
    decimal_rep(m.0) + ": "@ + m.1
}

/// The report entries of a sequence of matches, one per match.
pub open spec fn match_lines(found: Seq<(int, Seq<char>)>) -> Seq<Seq<char>> {
    found.map_values(|m: (int, Seq<char>)| match_line(m))
}

/// The whole report of one run, line by line: the no-match summary when
/// nothing matched, else the found header followed by one entry per
/// match, in ascending line-number order.
pub open spec fn report(
    pattern: Seq<char>,
    filename: Seq<char>,
    cs: bool,
    found: Seq<(int, Seq<char>)>,
) -> Seq<Seq<char>> {
    if found.len() == 0 {
        seq![no_match_header(pattern, filename, cs)]
    } else {
        seq![found_header(pattern, filename, cs)] + match_lines(found)
    }
}

impl Command {
    /// The environment variable that switches matching to
    /// case-insensitive.
    pub const IGNORE_CASE_ENV_NAME: &'static str = "IGNORE_CASE";

    /// Whether the command is well formed: its pattern does not trim to
    /// the empty string.
    pub open spec fn wf(self) -> bool {
        !is_blank(self.pattern@)
    }

    /// Validate a request and bind it into a [`Command`].
    ///
    /// The checks form an ordered cascade: a blank pattern is rejected
    /// before any path check, and the path's own classification follows
    /// the order in which [`PathStatus`] was gathered — existence before
    /// node kind before readability.  The returned failure is always the
    /// first violated precondition.
    pub fn build(
        pattern: String,
        filename: String,
        case_sensitive: CaseSensitive,
        status: PathStatus,
    ) -> (r: Result<Command, InvalidArgumentError>)
        ensures
            build_post(pattern, filename, case_sensitive.spec_bool(), status, r),
            r matches Ok(c) ==> c.wf(),
    {
        if trimmed_empty(pattern.as_str()) {
            return Err(InvalidArgumentError::BlankPattern(pattern));
        }
        match status {
            PathStatus::ReadableFile => Ok(
                Command { pattern, filename, case_sensitive: case_sensitive.is_sensitive() },
            ),
            PathStatus::UnreadableFile(cause) => Err(
                InvalidArgumentError::NotAReadableFile(filename, cause),
            ),
            PathStatus::NotFound => Err(InvalidArgumentError::FileNotFound(filename)),
            PathStatus::Unresolvable(cause) => Err(
                InvalidArgumentError::CannotResolvePath(filename, cause),
            ),
            PathStatus::Directory(abs) => Err(
                InvalidArgumentError::NotAFile(abs, String::from_str("directory")),
            ),
            PathStatus::UnknownNode(abs) => Err(
                InvalidArgumentError::NotAFile(abs, String::from_str("unknown")),
            ),
        }
    }

    /// Build a [`Command`] from the raw invocation: the argument list as
    /// handed to the process (the program name first), the value of the
    /// case-mode environment variable if it was set, and what examining
    /// the named path found.
    ///
    /// Exactly two positional arguments are required after the program
    /// name: the pattern and the filename.  Fewer fail with
    /// [`InvalidSyntaxError::Missing`], more with
    /// [`InvalidSyntaxError::TooMany`]; with exactly two the request is
    /// validated as [`Command::build`] does.
    pub fn try_from_args(
        args: Vec<String>,
        ignore_case: Option<String>,
        status: PathStatus,
    ) -> (r: Result<Command, MiniGrepError>)
        requires
            args@.len() >= 1,
        ensures
            args@.len() < 3 ==> (r matches Err(e) && e matches MiniGrepError::Syntax(s) && s
                matches InvalidSyntaxError::Missing(exe) && exe == args@[0]),
            args@.len() > 3 ==> (r matches Err(e) && e matches MiniGrepError::Syntax(s) && s
                matches InvalidSyntaxError::TooMany(exe) && exe == args@[0]),
            args@.len() == 3 ==> match r {
                Ok(c) => build_post(
                    args@[1],
                    args@[2],
                    case_mode_of(ignore_case),
                    status,
                    Ok(c),
                ) && c.wf(),
                Err(e) => e matches MiniGrepError::Argument(ae) && build_post(
                    args@[1],
                    args@[2],
                    case_mode_of(ignore_case),
                    status,
                    Err(ae),
                ),
            },
    {
        if args.len() < 3 {
            let executable = args[0].clone();
            return Err(MiniGrepError::Syntax(InvalidSyntaxError::Missing(executable)));
        }
        if args.len() > 3 {
            let executable = args[0].clone();
            return Err(MiniGrepError::Syntax(InvalidSyntaxError::TooMany(executable)));
        }
        let pattern = args[1].clone();
        let filename = args[2].clone();
        let ignore = match &ignore_case {
            Option::Some(value) => is_truthy(value.as_str()),
            Option::None => false,
        };
        let case_sensitive = CaseSensitive::from(!ignore);
        match Command::build(pattern, filename, case_sensitive, status) {
            Ok(command) => Ok(command),
            Err(error) => Err(MiniGrepError::Argument(error)),
        }
    }

    /// Search the given lines of the file for the pattern.
    ///
    /// Returns every matching line paired with its 1-indexed line number,
    /// in ascending line-number order; an empty result means no match,
    /// not a failure.  The returned line content is the original line,
    /// also when matching lower-cased both sides.
    pub fn search(&self, lines: &Vec<String>) -> (r: Vec<(usize, String)>)
        ensures
            match_views(r@) == spec_search(lines_view(lines@), self.pattern@, self.case_sensitive),
    {
        let pattern_key: String = if self.case_sensitive {
            self.pattern.clone()
        } else {
            lowercase(self.pattern.as_str())
        };
        let mut r: Vec<(usize, String)> = Vec::new();
        let n = lines.len();
        let mut i: usize = 0;
        while i < n
            invariant
                n == lines@.len(),
                i <= n,
                self.case_sensitive ==> pattern_key@ == self.pattern@,
                !self.case_sensitive ==> pattern_key@ == lower_of(self.pattern@),
                match_views(r@) == search_up_to(
                    lines_view(lines@),
                    self.pattern@,
                    self.case_sensitive,
                    i as int,
                ),
            decreases n - i,
        {
            let line = &lines[i];
            let matched = if self.case_sensitive {
                contains_substring(line.as_str(), pattern_key.as_str())
            } else {
                let lowered = lowercase(line.as_str());
                contains_substring(lowered.as_str(), pattern_key.as_str())
            };
            if matched {
                let ghost old_r = r@;
                r.push((i + 1, line.clone()));
                proof {
                    assert(match_views(r@) =~~= match_views(old_r).push(
                        ((i + 1) as int, lines@[i as int]@),
                    ));
                    assert(search_up_to(
                        lines_view(lines@),
                        self.pattern@,
                        self.case_sensitive,
                        i + 1,
                    ) =~~= match_views(r@));
                }
            } else {
                proof {
                    assert(search_up_to(
                        lines_view(lines@),
                        self.pattern@,
                        self.case_sensitive,
                        i + 1,
                    ) =~~= match_views(r@));
                }
            }
            i += 1;
        }
        r
    }

    /// Execute the command over the given lines of its file.
    ///
    /// Returns the report, line by line, that a run prints: when nothing
    /// matched, one summary line naming the file, the case mode and the
    /// pattern; otherwise a header followed by one `number: line` entry
    /// per match, in ascending line-number order.
    pub fn execute(&self, lines: &Vec<String>) -> (out: Vec<String>)
        ensures
            lines_view(out@) == report(
                self.pattern@,
                self.filename@,
                self.case_sensitive,
                spec_search(lines_view(lines@), self.pattern@, self.case_sensitive),
            ),
    {
        let found = self.search(lines);
        let mode = if self.case_sensitive {
            "sensitive"
        } else {
            "insensitive"
        };
        let mut out: Vec<String> = Vec::new();
        if found.len() == 0 {
            let mut header = String::from_str("The file '");
            header.append(self.filename.as_str());
            header.append("' does not contain any line with the case ");
            header.append(mode);
            header.append(" pattern '");
            header.append(self.pattern.as_str());
            header.append("'.");
            out.push(header);
            proof {
                assert(lines_view(out@) =~~= report(
                    self.pattern@,
                    self.filename@,
                    self.case_sensitive,
                    spec_search(lines_view(lines@), self.pattern@, self.case_sensitive),
                ));
            }
        } else {
            let mut header = String::from_str("The file '");
            header.append(self.filename.as_str());
            header.append("' contains these lines with the case ");
            header.append(mode);
            header.append(" pattern '");
            header.append(self.pattern.as_str());
            header.append("':");
            out.push(header);
            let n = found.len();
            let mut j: usize = 0;
            while j < n
                invariant
                    n == found@.len(),
                    j <= n,
                    match_views(found@) == spec_search(
                        lines_view(lines@),
                        self.pattern@,
                        self.case_sensitive,
                    ),
                    lines_view(out@) == seq![
                        found_header(self.pattern@, self.filename@, self.case_sensitive),
                    ] + match_lines(match_views(found@).take(j as int)),
                decreases n - j,
            {
                let pair = &found[j];
                let mut entry = decimal_string(pair.0);
                entry.append(": ");
                entry.append(pair.1.as_str());
                let ghost old_out = out@;
                let ghost entry_snapshot = entry@;
                out.push(entry);
                proof {
                    let fh = found_header(self.pattern@, self.filename@, self.case_sensitive);
                    let fv = match_views(found@);
                    assert(entry_snapshot == match_line(fv[j as int]));
                    assert(lines_view(out@) =~~= lines_view(old_out).push(entry_snapshot));
                    assert(match_lines(fv.take(j + 1)) =~~= match_lines(fv.take(j as int)).push(
                        match_line(fv[j as int]),
                    ));
                    assert(lines_view(out@) =~~= seq![fh] + match_lines(fv.take(j + 1)));
                }
                j += 1;
            }
            proof {
                assert(match_views(found@).take(n as int) =~~= match_views(found@));
                assert(match_lines(match_views(found@).take(n as int)) =~~= match_lines(
                    match_views(found@),
                ));
                assert(lines_view(out@) =~~= report(
                    self.pattern@,
                    self.filename@,
                    self.case_sensitive,
                    spec_search(lines_view(lines@), self.pattern@, self.case_sensitive),
                ));
            }
        }
        out
    }

    /// The one-line description of the command.
    pub fn message(&self) -> (r: String)
        ensures
            r@ == "MiniGrep command searching the pattern '"@ + self.pattern@ + "' in the file '"@
                + self.filename@ + "'."@,
    {
        let mut r = String::from_str("MiniGrep command searching the pattern '");
        r.append(self.pattern.as_str());
        r.append("' in the file '");
        r.append(self.filename.as_str());
        r.append("'.");
        r
    }
}

proof fn lemma_search_up_to_sound(lines: Seq<Seq<char>>, pattern: Seq<char>, cs: bool, n: int)
    requires
        0 <= n <= lines.len(),
    ensures
        forall|k: int|
            0 <= k < search_up_to(lines, pattern, cs, n).len() ==> {
                let m = #[trigger] search_up_to(lines, pattern, cs, n)[k];
                &&& 1 <= m.0 <= n
                &&& m.1 == lines[m.0 - 1]
                &&& line_matches(m.1, pattern, cs)
            },
    decreases n,
{
    if n > 0 {
        lemma_search_up_to_sound(lines, pattern, cs, n - 1);
        let prev = search_up_to(lines, pattern, cs, n - 1);
        let cur = search_up_to(lines, pattern, cs, n);
        assert forall|k: int| 0 <= k < cur.len() implies {
            let m = #[trigger] cur[k];
            &&& 1 <= m.0 <= n
            &&& m.1 == lines[m.0 - 1]
            &&& line_matches(m.1, pattern, cs)
        } by {
            if k < prev.len() {
                assert(cur[k] == prev[k]);
            } else {
                assert(cur[k] == (n, lines[n - 1]));
            }
        }
    }
}

/// Soundness of the search: every reported match pairs a line number in
/// range with the original content of that very line, and that content
/// satisfies the match predicate — no line that does not contain the
/// pattern is ever reported.
pub proof fn lemma_search_sound(lines: Seq<Seq<char>>, pattern: Seq<char>, cs: bool)
    ensures
        forall|k: int|
            0 <= k < spec_search(lines, pattern, cs).len() ==> {
                let m = #[trigger] spec_search(lines, pattern, cs)[k];
                &&& 1 <= m.0 <= lines.len()
                &&& m.1 == lines[m.0 - 1]
                &&& line_matches(m.1, pattern, cs)
            },
{
    lemma_search_up_to_sound(lines, pattern, cs, lines.len() as int);
}

proof fn lemma_search_up_to_complete(
    lines: Seq<Seq<char>>,
    pattern: Seq<char>,
    cs: bool,
    n: int,
    i: int,
)
    requires
        0 <= i < n <= lines.len(),
        line_matches(lines[i], pattern, cs),
    ensures
        search_up_to(lines, pattern, cs, n).contains((i + 1, lines[i])),
    decreases n,
{
    let cur = search_up_to(lines, pattern, cs, n);
    let prev = search_up_to(lines, pattern, cs, n - 1);
    if i == n - 1 {
        assert(cur[prev.len() as int] == (n, lines[n - 1]));
    } else {
        lemma_search_up_to_complete(lines, pattern, cs, n - 1, i);
        let k = choose|k: int| 0 <= k < prev.len() && prev[k] == (i + 1, lines[i]);
        assert(cur[k] == (i + 1, lines[i]));
    }
}

/// Completeness of the search: every line that satisfies the match
/// predicate appears in the result, paired with its 1-indexed line
/// number — no matching line is missed.
pub proof fn lemma_search_complete(lines: Seq<Seq<char>>, pattern: Seq<char>, cs: bool, i: int)
    requires
        0 <= i < lines.len(),
        line_matches(lines[i], pattern, cs),
    ensures
        spec_search(lines, pattern, cs).contains((i + 1, lines[i])),
{
    lemma_search_up_to_complete(lines, pattern, cs, lines.len() as int, i);
}

proof fn lemma_search_up_to_ordered(lines: Seq<Seq<char>>, pattern: Seq<char>, cs: bool, n: int)
    requires
        0 <= n <= lines.len(),
    ensures
        forall|k1: int, k2: int|
            #![trigger search_up_to(lines, pattern, cs, n)[k1], search_up_to(lines, pattern, cs, n)[k2]]
            0 <= k1 < k2 < search_up_to(lines, pattern, cs, n).len() ==> search_up_to(
                lines,
                pattern,
                cs,
                n,
            )[k1].0 < search_up_to(lines, pattern, cs, n)[k2].0,
    decreases n,
{
    if n > 0 {
        lemma_search_up_to_ordered(lines, pattern, cs, n - 1);
        lemma_search_up_to_sound(lines, pattern, cs, n - 1);
        let prev = search_up_to(lines, pattern, cs, n - 1);
        let cur = search_up_to(lines, pattern, cs, n);
        assert forall|k1: int, k2: int| 0 <= k1 < k2 < cur.len() implies cur[k1].0 < cur[k2].0 by {
            assert(cur[k1] == prev[k1]);
            if k2 < prev.len() {
                assert(cur[k2] == prev[k2]);
            } else {
                assert(cur[k2] == (n, lines[n - 1]));
            }
        }
    }
}

/// The result of a search is strictly ascending in its line numbers: the
/// matches come out in the order the lines came in, each at most once.
pub proof fn lemma_search_ordered(lines: Seq<Seq<char>>, pattern: Seq<char>, cs: bool)
    ensures
        forall|k1: int, k2: int|
            #![trigger spec_search(lines, pattern, cs)[k1], spec_search(lines, pattern, cs)[k2]]
            0 <= k1 < k2 < spec_search(lines, pattern, cs).len() ==> spec_search(
                lines,
                pattern,
                cs,
            )[k1].0 < spec_search(lines, pattern, cs)[k2].0,
{
    lemma_search_up_to_ordered(lines, pattern, cs, lines.len() as int);
}

/// Searching twice over the same unmodified lines with the same command
/// yields identical results: any two results that meet the contract of
/// [`Command::search`] for the same inputs agree pair by pair, in line
/// number and in content.
pub proof fn lemma_search_deterministic(
    lines: Seq<Seq<char>>,
    pattern: Seq<char>,
    cs: bool,
    r1: Seq<(usize, String)>,
    r2: Seq<(usize, String)>,
)
    requires
        match_views(r1) == spec_search(lines, pattern, cs),
        match_views(r2) == spec_search(lines, pattern, cs),
    ensures
        r1.len() == r2.len(),
        forall|k: int| 0 <= k < r1.len() ==> #[trigger] r1[k].0 == r2[k].0 && r1[k].1@ == r2[k].1@,
{
    assert forall|k: int| 0 <= k < r1.len() implies #[trigger] r1[k].0 == r2[k].0 && r1[k].1@
        == r2[k].1@ by {
        assert(match_views(r1)[k] == match_views(r2)[k]);
    }
}

} // verus!
