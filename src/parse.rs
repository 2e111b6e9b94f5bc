use vstd::prelude::*;

use crate::error::ShellError;
use crate::text::push_char;

verus! {

/// How a redirected stream writes its file.
#[derive(PartialEq, Eq, Structural, Debug, Clone, Copy)]
pub enum WriteMode {
    /// Create the file, or empty it if it exists (`>`, `1>`, `2>`).
    Truncate,
    /// Create the file if absent and write at its end (`>>`, `1>>`, `2>>`).
    Append,
}

/// One of the two output streams that a line can redirect.
#[derive(PartialEq, Eq, Structural, Debug, Clone, Copy)]
pub enum Stream {
    Stdout,
    Stderr,
}

/// A file that a stream of the command writes to.
#[derive(Debug, Clone)]
pub struct Redirect {
    pub path: String,
    pub mode: WriteMode,
}

pub struct RedirectView {
    pub path: Seq<char>,
    pub mode: WriteMode,
}

impl View for Redirect {
    type V = RedirectView;

    open spec fn view(&self) -> RedirectView {
        RedirectView { path: self.path@, mode: self.mode }
    }
}

pub open spec fn target_view(t: Option<Redirect>) -> Option<RedirectView> {
    match t {
        Some(r) => Some(r@),
        None => None,
    }
}

/// What one input line asks for: a command, its arguments in order, and
/// where its standard output and standard error go (`None`: inherited).
#[derive(Debug, Clone)]
pub struct ParsedCommand {
    pub command: String,
    pub args: Vec<String>,
    pub stdout_target: Option<Redirect>,
    pub stderr_target: Option<Redirect>,
}

pub struct ParsedView {
    pub command: Seq<char>,
    pub args: Seq<Seq<char>>,
    pub stdout_target: Option<RedirectView>,
    pub stderr_target: Option<RedirectView>,
}

impl View for ParsedCommand {
    type V = ParsedView;

    open spec fn view(&self) -> ParsedView {
        ParsedView {
            command: self.command@,
            args: self.args.deep_view(),
            stdout_target: target_view(self.stdout_target),
            stderr_target: target_view(self.stderr_target),
        }
    }
}

/// Whether two strings hold the same characters.
fn same_text(a: &str, b: &str) -> (r: bool)
    ensures
        r == (a@ == b@),
{
    let n = a.unicode_len();
    if n != b.unicode_len() {
        return false;
    }
    let mut i: usize = 0;
    while i < n
        invariant
            n == a@.len(),
            n == b@.len(),
            i <= n,
            forall|j: int| 0 <= j < i ==> #[trigger] a@[j] == b@[j],
        decreases n - i,
    {
        if a.get_char(i) != b.get_char(i) {
            return false;
        }
        i += 1;
    }
    assert(a@ =~= b@);
    true
}

/// A parsed command equals a string when its command name is that string.
impl<'a> PartialEq<&'a str> for ParsedCommand {
    fn eq(&self, target: &&'a str) -> (r: bool) {
        same_text(self.command.as_str(), *target)
    }
}

impl<'a> vstd::std_specs::cmp::PartialEqSpecImpl<&'a str> for ParsedCommand {
    open spec fn obeys_eq_spec() -> bool {
        true
    }

    open spec fn eq_spec(&self, target: &&'a str) -> bool {
        self.command@ == target@
    }
}

/// A string equals a parsed command when it is the command name.
impl<'a> PartialEq<ParsedCommand> for &'a str {
    fn eq(&self, parsed_command: &ParsedCommand) -> (r: bool) {
        same_text(*self, parsed_command.command.as_str())
    }
}

impl<'a> vstd::std_specs::cmp::PartialEqSpecImpl<ParsedCommand> for &'a str {
    open spec fn obeys_eq_spec() -> bool {
        true
    }

    open spec fn eq_spec(&self, parsed_command: &ParsedCommand) -> bool {
        self@ == parsed_command.command@
    }
}

impl<'a> AsRef<str> for ParsedCommand {
    /// The command name.
    fn as_ref(&self) -> (r: &str)
        ensures
            r@ == self.command@,
    {
        self.command.as_str()
    }
}

/// The quoting context that the lexer is in.
#[derive(PartialEq, Eq, Structural, Debug, Clone, Copy)]
pub enum ParseMode {
    SingleQuote,
    DoubleQuote,
    Plain,
}

/// Field separators: the Unicode white-space characters other than the
/// newline, which ends a line.
pub open spec fn is_blank(c: char) -> bool {
    ||| c == '\t'
    ||| c == '\x0B'
    ||| c == '\x0C'
    ||| c == '\r'
    ||| c == ' '
    ||| c == '\u{85}'
    ||| c == '\u{A0}'
    ||| c == '\u{1680}'
    ||| ('\u{2000}' <= c && c <= '\u{200A}')
    ||| c == '\u{2028}'
    ||| c == '\u{2029}'
    ||| c == '\u{202F}'
    ||| c == '\u{205F}'
    ||| c == '\u{3000}'
}

/// Whether `c` separates fields.
pub fn is_blank_char(c: char) -> (r: bool)
    ensures
        r == is_blank(c),
{
    c == '\t' || c == '\x0B' || c == '\x0C' || c == '\r' || c == ' ' || c == '\u{85}'
        || c == '\u{A0}' || c == '\u{1680}' || ('\u{2000}' <= c && c <= '\u{200A}')
        || c == '\u{2028}' || c == '\u{2029}' || c == '\u{202F}' || c == '\u{205F}'
        || c == '\u{3000}'
}

/// The characters that a backslash escapes inside double quotes.
pub open spec fn escapable_in_double(c: char) -> bool {
    c == '\\' || c == '"' || c == '$' || c == '`' || c == '\n'
}

/// Where the lexer stands after a prefix of the line.
pub struct LexState {
    pub mode: ParseMode,
    /// Completed tokens that are not redirection targets: the command, then its arguments.
    pub words: Seq<Seq<char>>,
    /// The token being accumulated.
    pub current: Seq<char>,
    /// A redirection operator whose target has not been read yet.
    pub pending: Option<(Stream, WriteMode)>,
    pub stdout_target: Option<RedirectView>,
    pub stderr_target: Option<RedirectView>,
    /// An operator came while an earlier one still waited for its target.
    pub dangling: bool,
}

impl LexState {
    pub open spec fn start() -> LexState {
        LexState {
            mode: ParseMode::Plain,
            words: Seq::empty(),
            current: Seq::empty(),
            pending: None,
            stdout_target: None,
            stderr_target: None,
            dangling: false,
        }
    }

    pub open spec fn with_mode(self, mode: ParseMode) -> LexState {
        LexState { mode, ..self }
    }

    pub open spec fn push(self, c: char) -> LexState {
        LexState { current: self.current.push(c), ..self }
    }

    /// Ends the current token, if any: it becomes the pending redirection's
    /// target, or else the next word.
    pub open spec fn flush(self) -> LexState {
        if self.current.len() == 0 {
            self
        } else {
            match self.pending {
                Some((Stream::Stdout, mode)) => LexState {
                    current: Seq::empty(),
                    pending: None,
                    stdout_target: Some(RedirectView { path: self.current, mode }),
                    ..self
                },
                Some((Stream::Stderr, mode)) => LexState {
                    current: Seq::empty(),
                    pending: None,
                    stderr_target: Some(RedirectView { path: self.current, mode }),
                    ..self
                },
                None => LexState {
                    words: self.words.push(self.current),
                    current: Seq::empty(),
                    ..self
                },
            }
        }
    }

    /// A redirection operator: the current token ends, and the next one is
    /// the target of `stream`.
    pub open spec fn redirect(self, stream: Stream, mode: WriteMode) -> LexState {
        let f = self.flush();
        LexState { pending: Some((stream, mode)), dangling: f.dangling || f.pending is Some, ..f }
    }
}

/// The lexer run over `s` from index `i` on, starting in state `st`.
pub open spec fn lex(s: Seq<char>, i: int, st: LexState) -> LexState
    decreases s.len() - i,
{
    if i < 0 || i >= s.len() {
        st
    } else {
        let c = s[i];
        let has_next = i + 1 < s.len();
        match st.mode {
            ParseMode::Plain => {
                if c == '\n' {
                    st
                } else if c == '\'' {
                    lex(s, i + 1, st.with_mode(ParseMode::SingleQuote))
                } else if c == '"' {
                    lex(s, i + 1, st.with_mode(ParseMode::DoubleQuote))
                } else if c == '\\' {
                    if has_next {
                        lex(s, i + 2, st.push(s[i + 1]))
                    } else {
                        st
                    }
                } else if is_blank(c) {
                    lex(s, i + 1, st.flush())
                } else if c == '>' {
                    if has_next && s[i + 1] == '>' {
                        lex(s, i + 2, st.redirect(Stream::Stdout, WriteMode::Append))
                    } else {
                        lex(s, i + 1, st.redirect(Stream::Stdout, WriteMode::Truncate))
                    }
                } else if (c == '1' || c == '2') && has_next && s[i + 1] == '>' {
                    let stream = if c == '1' {
                        Stream::Stdout
                    } else {
                        Stream::Stderr
                    };
                    if i + 2 < s.len() && s[i + 2] == '>' {
                        lex(s, i + 3, st.redirect(stream, WriteMode::Append))
                    } else {
                        lex(s, i + 2, st.redirect(stream, WriteMode::Truncate))
                    }
                } else {
                    lex(s, i + 1, st.push(c))
                }
            },
            ParseMode::SingleQuote => {
                if c == '\'' {
                    lex(s, i + 1, st.with_mode(ParseMode::Plain))
                } else {
                    lex(s, i + 1, st.push(c))
                }
            },
            ParseMode::DoubleQuote => {
                if c == '"' {
                    lex(s, i + 1, st.with_mode(ParseMode::Plain))
                } else if c == '\\' && has_next && escapable_in_double(s[i + 1]) {
                    if s[i + 1] == '\n' {
                        lex(s, i + 2, st)
                    } else {
                        lex(s, i + 2, st.push(s[i + 1]))
                    }
                } else if c == '\\' && !has_next {
                    lex(s, i + 1, st)
                } else {
                    lex(s, i + 1, st.push(c))
                }
            },
        }
    }
}

/// What a whole line parses to.
pub enum ParseOutcome {
    Parsed(ParsedView),
    NoInput,
    UnterminatedQuote,
    MissingTarget,
}

pub open spec fn outcome(st: LexState) -> ParseOutcome {
    if st.mode != ParseMode::Plain {
        ParseOutcome::UnterminatedQuote
    } else {
        let f = st.flush();
        if f.dangling || f.pending is Some {
            ParseOutcome::MissingTarget
        } else if f.words.len() == 0 {
            ParseOutcome::NoInput
        } else {
            ParseOutcome::Parsed(
                ParsedView {
                    command: f.words[0],
                    args: f.words.drop_first(),
                    stdout_target: f.stdout_target,
                    stderr_target: f.stderr_target,
                },
            )
        }
    }
}

pub open spec fn spec_parse(line: Seq<char>) -> ParseOutcome {
    outcome(lex(line, 0, LexState::start()))
}

/// A line of blanks and newlines only: it leaves the lexer where it was.
proof fn lemma_blanks_leave_state(s: Seq<char>, i: int, st: LexState)
    requires
        0 <= i,
        st.mode == ParseMode::Plain,
        st.current.len() == 0,
        forall|j: int| i <= j < s.len() ==> is_blank(#[trigger] s[j]) || s[j] == '\n',
    ensures
        lex(s, i, st) == st,
    decreases s.len() - i,
{
    if i < s.len() && s[i] != '\n' {
        lemma_blanks_leave_state(s, i + 1, st.flush());
    }
}

/// A line made only of white space (any Unicode white-space character, the
/// newline included) parses to "no input", never to an error or a command.
pub proof fn lemma_blank_line_is_no_input(line: Seq<char>)
    requires
        forall|j: int| 0 <= j < line.len() ==> is_blank(#[trigger] line[j]) || line[j] == '\n',
    ensures
        spec_parse(line) == ParseOutcome::NoInput,
{
    lemma_blanks_leave_state(line, 0, LexState::start());
}

/// The lexer's state in executable form.
struct Lexer {
    mode: ParseMode,
    words: Vec<String>,
    current: String,
    pending: Option<(Stream, WriteMode)>,
    stdout_target: Option<Redirect>,
    stderr_target: Option<Redirect>,
    dangling: bool,
}

impl View for Lexer {
    type V = LexState;

    closed spec fn view(&self) -> LexState {
        LexState {
            mode: self.mode,
            words: self.words.deep_view(),
            current: self.current@,
            pending: self.pending,
            stdout_target: target_view(self.stdout_target),
            stderr_target: target_view(self.stderr_target),
            dangling: self.dangling,
        }
    }
}

impl Lexer {
    fn new() -> (r: Lexer)
        ensures
            r@ == LexState::start(),
    {
        let r = Lexer {
            mode: ParseMode::Plain,
            words: Vec::new(),
            current: String::new(),
            pending: None,
            stdout_target: None,
            stderr_target: None,
            dangling: false,
        };
        assert(r.words.deep_view() =~= Seq::<Seq<char>>::empty());
        r
    }

    fn push(&mut self, c: char)
        ensures
            final(self)@ == old(self)@.push(c),
    {
        push_char(&mut self.current, c);
    }

    fn flush(&mut self)
        ensures
            final(self)@ == old(self)@.flush(),
    {
        if self.current.as_str().is_empty() {
            return;
        }
        let token = self.current.clone();
        self.current = String::new();
        match self.pending {
            Some((Stream::Stdout, mode)) => {
                self.stdout_target = Some(Redirect { path: token, mode });
                self.pending = None;
            },
            Some((Stream::Stderr, mode)) => {
                self.stderr_target = Some(Redirect { path: token, mode });
                self.pending = None;
            },
            None => {
                let ghost before = self.words.deep_view();
                self.words.push(token);
                assert(self.words.deep_view() =~= before.push(token@));
            },
        }
    }

    fn redirect(&mut self, stream: Stream, mode: WriteMode)
        ensures
            final(self)@ == old(self)@.redirect(stream, mode),
    {
        self.flush();
        if self.pending.is_some() {
            self.dangling = true;
        }
        self.pending = Some((stream, mode));
    }
}

/// Splits one input line into a command, its arguments and its redirections.
///
/// Blanks separate fields outside quotes; single quotes keep everything
/// literally; inside double quotes a backslash escapes only `\`, `"`, `$`,
/// a backtick and a newline (which it removes); outside quotes a backslash
/// keeps the next character literally; an unquoted newline ends the line.
/// `>`, `1>`, `2>` (and `>>`, `1>>`, `2>>` to append) outside quotes make the
/// next token the target of a stream rather than an argument.
pub fn parse(raw_command: &mut String) -> (r: Result<ParsedCommand, ShellError>)
    ensures
        final(raw_command)@ == old(raw_command)@,
        match spec_parse(old(raw_command)@) {
            ParseOutcome::Parsed(v) => r matches Ok(p) && p@ == v,
            ParseOutcome::NoInput => r matches Err(ShellError::NoInput),
            ParseOutcome::UnterminatedQuote => r matches Err(ShellError::UnterminatedQuote),
            ParseOutcome::MissingTarget => r matches Err(ShellError::InvalidSyntax),
        },
{
    let s: &str = raw_command.as_str();
    let n = s.unicode_len();
    let mut lx = Lexer::new();
    let mut i: usize = 0;
    let mut stopped = false;
    while i < n && !stopped
        invariant
            n == s@.len(),
            i <= n,
            lex(s@, i as int, lx@) == lex(s@, 0, LexState::start()),
            stopped ==> lex(s@, i as int, lx@) == lx@,
        decreases n - i + (if stopped { 0int } else { 1int }),
    {
        let c = s.get_char(i);
        let has_next = i + 1 < n;
        match lx.mode {
            ParseMode::Plain => {
                if c == '\n' {
                    stopped = true;
                } else if c == '\'' {
                    lx.mode = ParseMode::SingleQuote;
                    i += 1;
                } else if c == '"' {
                    lx.mode = ParseMode::DoubleQuote;
                    i += 1;
                } else if c == '\\' {
                    if has_next {
                        let d = s.get_char(i + 1);
                        lx.push(d);
                        i += 2;
                    } else {
                        stopped = true;
                    }
                } else if is_blank_char(c) {
                    lx.flush();
                    i += 1;
                } else if c == '>' {
                    if has_next && s.get_char(i + 1) == '>' {
                        lx.redirect(Stream::Stdout, WriteMode::Append);
                        i += 2;
                    } else {
                        lx.redirect(Stream::Stdout, WriteMode::Truncate);
                        i += 1;
                    }
                } else if (c == '1' || c == '2') && has_next && s.get_char(i + 1) == '>' {
                    let stream = if c == '1' {
                        Stream::Stdout
                    } else {
                        Stream::Stderr
                    };
                    if i + 2 < n && s.get_char(i + 2) == '>' {
                        lx.redirect(stream, WriteMode::Append);
                        i += 3;
                    } else {
                        lx.redirect(stream, WriteMode::Truncate);
                        i += 2;
                    }
                } else {
                    lx.push(c);
                    i += 1;
                }
            },
            ParseMode::SingleQuote => {
                if c == '\'' {
                    lx.mode = ParseMode::Plain;
                } else {
                    lx.push(c);
                }
                i += 1;
            },
            ParseMode::DoubleQuote => {
                if c == '"' {
                    lx.mode = ParseMode::Plain;
                    i += 1;
                } else if c == '\\' && has_next {
                    let d = s.get_char(i + 1);
                    if d == '\\' || d == '"' || d == '$' || d == '`' || d == '\n' {
                        if d != '\n' {
                            lx.push(d);
                        }
                        i += 2;
                    } else {
                        lx.push(c);
                        i += 1;
                    }
                } else if c == '\\' {
                    i += 1;
                } else {
                    lx.push(c);
                    i += 1;
                }
            },
        }
    }
    if lx.mode != ParseMode::Plain {
        return Err(ShellError::UnterminatedQuote);
    }
    lx.flush();
    if lx.dangling || lx.pending.is_some() {
        return Err(ShellError::InvalidSyntax);
    }
    if lx.words.len() == 0 {
        return Err(ShellError::NoInput);
    }
    let mut args = lx.words;
    let ghost words = args.deep_view();
    let command = args.remove(0);
    assert(args.deep_view() =~= words.drop_first());
    Ok(ParsedCommand {
        command,
        args,
        stdout_target: lx.stdout_target,
        stderr_target: lx.stderr_target,
    })
}

} // verus!
