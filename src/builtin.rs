use vstd::prelude::*;

use crate::error::ShellError;
use crate::text::{eq_ignoring_case, same_ignoring_case};

verus! {

/// The closed set of commands that run inside the interpreter.
#[derive(PartialEq, Eq, Structural, Debug, Clone, Copy, Hash)]
pub enum BuiltIn {
    ECHO,
    EXIT,
    CD,
    PWD,
    TYPE,
}

impl BuiltIn {
    /// The lower-case name under which the builtin is invoked.
    pub open spec fn spec_name(self) -> Seq<char> {
        match self {
            BuiltIn::ECHO => seq!['e', 'c', 'h', 'o'],
            BuiltIn::EXIT => seq!['e', 'x', 'i', 't'],
            BuiltIn::CD => seq!['c', 'd'],
            BuiltIn::PWD => seq!['p', 'w', 'd'],
            BuiltIn::TYPE => seq!['t', 'y', 'p', 'e'],
        }
    }

    /// The builtin that `s` names, ignoring the case of ASCII letters.
    pub open spec fn named(s: Seq<char>) -> Option<BuiltIn> {
        if same_ignoring_case(s, BuiltIn::ECHO.spec_name()) {
            Some(BuiltIn::ECHO)
        } else if same_ignoring_case(s, BuiltIn::EXIT.spec_name()) {
            Some(BuiltIn::EXIT)
        } else if same_ignoring_case(s, BuiltIn::CD.spec_name()) {
            Some(BuiltIn::CD)
        } else if same_ignoring_case(s, BuiltIn::PWD.spec_name()) {
            Some(BuiltIn::PWD)
        } else if same_ignoring_case(s, BuiltIn::TYPE.spec_name()) {
            Some(BuiltIn::TYPE)
        } else {
            None
        }
    }

    pub fn name(&self) -> (r: String)
        ensures
            r@ == self.spec_name(),
    {
        proof {
            reveal_strlit("echo");
            reveal_strlit("exit");
            reveal_strlit("cd");
            reveal_strlit("pwd");
            reveal_strlit("type");
        }
        match self {
            BuiltIn::ECHO => String::from_str("echo"),
            BuiltIn::EXIT => String::from_str("exit"),
            BuiltIn::CD => String::from_str("cd"),
            BuiltIn::PWD => String::from_str("pwd"),
            BuiltIn::TYPE => String::from_str("type"),
        }
    }

    /// Looks a command name up in the builtin set, ignoring ASCII case.
    pub fn from_name(s: &str) -> (r: Result<BuiltIn, ShellError>)
        ensures
            match BuiltIn::named(s@) {
                Some(b) => r == Ok::<BuiltIn, ShellError>(b),
                None => r matches Err(ShellError::NotABuiltinCommand),
            },
    {
        proof {
            reveal_strlit("echo");
            reveal_strlit("exit");
            reveal_strlit("cd");
            reveal_strlit("pwd");
            reveal_strlit("type");
        }
        if eq_ignoring_case(s, "echo") {
            Ok(BuiltIn::ECHO)
        } else if eq_ignoring_case(s, "exit") {
            Ok(BuiltIn::EXIT)
        } else if eq_ignoring_case(s, "cd") {
            Ok(BuiltIn::CD)
        } else if eq_ignoring_case(s, "pwd") {
            Ok(BuiltIn::PWD)
        } else if eq_ignoring_case(s, "type") {
            Ok(BuiltIn::TYPE)
        } else {
            Err(ShellError::NotABuiltinCommand)
        }
    }
}

impl core::str::FromStr for BuiltIn {
    type Err = ShellError;

    /// The same lookup as `from_name`.
    fn from_str(s: &str) -> (r: Result<BuiltIn, ShellError>)
        ensures
            match BuiltIn::named(s@) {
                Some(b) => r == Ok::<BuiltIn, ShellError>(b),
                None => r matches Err(ShellError::NotABuiltinCommand),
            },
    {
        BuiltIn::from_name(s)
    }
}

/// A builtin's own name looks up that builtin again.
pub proof fn lemma_name_round_trip(b: BuiltIn)
    ensures
        BuiltIn::named(b.spec_name()) == Some(b),
{
    let n = b.spec_name();
    assert(same_ignoring_case(n, n));
}

} // verus!
