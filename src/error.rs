use vstd::prelude::*;

use crate::builtin::BuiltIn;

verus! {

/// Every way a line can fail to parse or a command can fail to run.
///
/// Causes reported by the operating system are carried as their text.
#[derive(Debug, Clone, PartialEq, Eq)]
pub enum ShellError {
    /// The line holds no command: nothing to dispatch, nothing to show.
    NoInput,
    /// A quote was opened and never closed.
    UnterminatedQuote,
    /// A redirection operator is not followed by a target path.
    InvalidSyntax,
    /// Used while classifying a command name: it names no builtin.
    NotABuiltinCommand,
    /// Neither a builtin nor an executable on the search path.
    CommandNotFound(String),
    /// The target of a directory change does not exist or is no directory.
    DirectoryNotExist { builtin: BuiltIn, dir: String },
    /// The operating system could not start the program.
    ProcessStartError { cmd: String, cause: String },
    /// The program ran and exited with a nonzero status (-1: no exit code).
    ProcessExitError { cmd: String, code: i32 },
    /// A redirection target could not be opened or written.
    Io(String),
}

} // verus!
