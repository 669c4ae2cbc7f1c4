//! A small line-search library: given a literal pattern and the lines of a
//! text file, report every line that contains the pattern, optionally
//! ignoring case.
//!
//! The library holds the validated core of the tool: turning raw
//! `(pattern, filename, case mode)` inputs into a ready-to-run [`Command`]
//! or a typed failure, and scanning lines for matches.  Reading the file,
//! looking up the environment and printing belong to the thin binary around
//! the library, which hands plain values in and takes plain values back.

pub mod command;
pub mod errors;
pub mod text;

pub use command::CaseSensitive;
pub use command::Command;
pub use command::PathStatus;
