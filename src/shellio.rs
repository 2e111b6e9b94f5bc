use vstd::prelude::*;

use crate::parse::{ParsedCommand, Redirect, WriteMode};

verus! {

/// Where one standard stream of a command goes.
#[derive(PartialEq, Eq, Structural, Debug, Clone, Copy)]
pub enum IOMode {
    /// Connected to another process (not produced by the parser).
    PIPED,
    /// Written to a file that is created or emptied first.
    FILE,
    /// Written at the end of a file that is created if absent.
    APPEND,
    /// The interpreter's own stream.
    INHERIT,
    /// Discarded.
    NULL,
}

/// Severity of a diagnostic message, lowest first.
#[derive(PartialEq, Eq, Structural, PartialOrd, Ord, Debug, Clone, Copy)]
pub enum OutLevel {
    DEBUG,
    INFO,
    WARN,
    ERROR,
}

/// The redirection state of the command being dispatched.
#[derive(Debug)]
pub struct IOHandler {
    pub stdin_mode: IOMode,
    pub stdout_mode: IOMode,
    pub stderr_mode: IOMode,
    pub stdin_redirect_path: String,
    pub stdout_redirect_path: String,
    pub stderr_redirect_path: String,
}

/// The mode and path that a parsed redirection gives a stream.
pub open spec fn mode_for(t: Option<Redirect>) -> IOMode {
    match t {
        Some(r) => match r.mode {
            WriteMode::Truncate => IOMode::FILE,
            WriteMode::Append => IOMode::APPEND,
        },
        None => IOMode::INHERIT,
    }
}

pub open spec fn path_for(t: Option<Redirect>) -> Seq<char> {
    match t {
        Some(r) => r.path@,
        None => Seq::empty(),
    }
}

fn stream_setting(t: &Option<Redirect>) -> (r: (IOMode, String))
    ensures
        r.0 == mode_for(*t),
        r.1@ == path_for(*t),
{
    match t {
        Some(r) => match r.mode {
            WriteMode::Truncate => (IOMode::FILE, r.path.clone()),
            WriteMode::Append => (IOMode::APPEND, r.path.clone()),
        },
        None => (IOMode::INHERIT, String::new()),
    }
}

impl IOHandler {
    /// The least severity of diagnostic messages that are shown.
    pub const OUT_LEVEL: OutLevel = OutLevel::INFO;

    /// Every stream inherited.
    pub open spec fn is_reset(&self) -> bool {
        &&& self.stdin_mode == IOMode::INHERIT
        &&& self.stdout_mode == IOMode::INHERIT
        &&& self.stderr_mode == IOMode::INHERIT
        &&& self.stdin_redirect_path@.len() == 0
        &&& self.stdout_redirect_path@.len() == 0
        &&& self.stderr_redirect_path@.len() == 0
    }

    pub fn new() -> (r: IOHandler)
        ensures
            r.is_reset(),
    {
        IOHandler {
            stdin_mode: IOMode::INHERIT,
            stdout_mode: IOMode::INHERIT,
            stderr_mode: IOMode::INHERIT,
            stdin_redirect_path: String::new(),
            stdout_redirect_path: String::new(),
            stderr_redirect_path: String::new(),
        }
    }

    /// Sets the streams as the command's redirections say; standard input
    /// stays inherited.
    pub fn configure(&mut self, parsed_command: &ParsedCommand)
        ensures
            final(self).stdin_mode == IOMode::INHERIT,
            final(self).stdin_redirect_path@.len() == 0,
            final(self).stdout_mode == mode_for(parsed_command.stdout_target),
            final(self).stdout_redirect_path@ == path_for(parsed_command.stdout_target),
            final(self).stderr_mode == mode_for(parsed_command.stderr_target),
            final(self).stderr_redirect_path@ == path_for(parsed_command.stderr_target),
    {
        let (out_mode, out_path) = stream_setting(&parsed_command.stdout_target);
        let (err_mode, err_path) = stream_setting(&parsed_command.stderr_target);
        self.stdin_mode = IOMode::INHERIT;
        self.stdin_redirect_path = String::new();
        self.stdout_mode = out_mode;
        self.stdout_redirect_path = out_path;
        self.stderr_mode = err_mode;
        self.stderr_redirect_path = err_path;
    }

    /// Back to inherited streams, for the next command.
    pub fn reset(&mut self)
        ensures
            final(self).is_reset(),
    {
        self.stdin_mode = IOMode::INHERIT;
        self.stdout_mode = IOMode::INHERIT;
        self.stderr_mode = IOMode::INHERIT;
        self.stdin_redirect_path = String::new();
        self.stdout_redirect_path = String::new();
        self.stderr_redirect_path = String::new();
    }
}

} // verus!
