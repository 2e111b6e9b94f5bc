use vstd::prelude::*;

use crate::builtin::BuiltIn;
use crate::error::ShellError;
use crate::parse::ParsedCommand;
use crate::path::{candidate_paths, joined, resolved, search_file_in_paths};
use crate::text::push_char;

verus! {

/// What a dispatched command comes to: a status (1: handled) or a failure.
pub type ShellResult = Result<i32, ShellError>;

/// The words joined by single spaces.
pub open spec fn joined_words(words: Seq<Seq<char>>) -> Seq<char>
    decreases words.len(),
{
    if words.len() == 0 {
        Seq::empty()
    } else if words.len() == 1 {
        words[0]
    } else {
        joined_words(words.drop_last()) + seq![' '] + words.last()
    }
}

/// The directory that `cd` goes to: home for no argument or a bare `~`,
/// else its first argument.
pub open spec fn cd_target(home: Seq<char>, args: Seq<Seq<char>>) -> Seq<char> {
    if args.len() == 0 || args[0] == seq!['~'] {
        home
    } else {
        args[0]
    }
}

/// The line that `type` writes for a name that is no builtin.
pub open spec fn description(name: Seq<char>, found: Option<Seq<char>>) -> Seq<char> {
    match found {
        Some(p) => name + " is "@ + p,
        None => name + ": not found"@,
    }
}

/// The line that `type` writes for a builtin.
pub open spec fn builtin_description(b: BuiltIn) -> Seq<char> {
    b.spec_name() + " is a shell builtin"@
}

/// Joins the words with single spaces.
pub fn join_words(words: &Vec<String>) -> (r: String)
    ensures
        r@ == joined_words(words.deep_view()),
{
    let ghost all = words.deep_view();
    let mut r = String::new();
    let mut i: usize = 0;
    while i < words.len()
        invariant
            i <= words.len(),
            all == words.deep_view(),
            r@ == joined_words(all.subrange(0, i as int)),
        decreases words.len() - i,
    {
        proof {
            let next = all.subrange(0, i + 1);
            assert(next.drop_last() =~= all.subrange(0, i as int));
            assert(next.last() == words[i as int]@);
            assert(i == 0 ==> next =~= seq![words[0]@]);
        }
        if i > 0 {
            push_char(&mut r, ' ');
        }
        r.append(words[i].as_str());
        i += 1;
    }
    assert(all.subrange(0, words.len() as int) =~= all);
    r
}

/// A search for a name along the search path, and what it is for.
#[derive(Debug)]
pub struct Lookup {
    pub name: String,
    pub dirs: Vec<String>,
    pub purpose: LookupFor,
}

#[derive(Debug)]
pub enum LookupFor {
    /// `type` asked: say where the name resolves.
    Describe,
    /// Run the program that the name resolves to, with these arguments.
    Launch(Vec<String>),
}

/// An external program to run, found at `program` under the name `name`.
#[derive(Debug)]
pub struct Launch {
    pub name: String,
    pub program: String,
    pub args: Vec<String>,
}

/// The next thing a dispatch needs: outside work, or its end.
///
/// After the work of a step, the caller hands its result to the function
/// that the step names, which makes the next decision.
#[derive(Debug)]
pub enum Step {
    /// Terminate the process at once.
    Exit,
    /// The dispatch is over, with this outcome.
    Done(ShellResult),
    /// Write the text and a newline to the command's standard output; then `after_write`.
    Write(String),
    /// Write the working directory as a line to the command's standard output; then `after_write`.
    PrintWorkingDir,
    /// Make this the process's working directory; then `after_change_dir`.
    ChangeDir(String),
    /// Test each of `candidates()` for a regular file with an execute bit; then `after_probe`.
    Probe(Lookup),
    /// Run the program with its streams as the command's redirections say, and wait; then `after_spawn`.
    Spawn(Launch),
}

impl Lookup {
    /// The paths to test, one per directory of the search, in order.
    pub fn candidates(&self) -> (r: Vec<String>)
        ensures
            r.len() == self.dirs.len(),
            forall|i: int|
                0 <= i < self.dirs.len() ==> #[trigger] r[i]@ == joined(self.dirs[i]@, self.name@),
    {
        candidate_paths(&self.name, &self.dirs)
    }
}

/// The step to take once the command's redirection files were opened, or
/// failed to be: the command runs only when all of them opened.
pub fn after_open(step: Step, opened: Result<(), String>) -> (r: Step)
    ensures
        match opened {
            Ok(_) => r == step,
            Err(cause) => r == Step::Done(Err(ShellError::Io(cause))),
        },
{
    match opened {
        Ok(_) => step,
        Err(cause) => Step::Done(Err(ShellError::Io(cause))),
    }
}

/// The outcome of a builtin once its line was written, or failed to be.
pub fn after_write(written: Result<(), String>) -> (r: ShellResult)
    ensures
        match written {
            Ok(_) => r == Ok::<i32, ShellError>(1),
            Err(cause) => r == Err::<i32, ShellError>(ShellError::Io(cause)),
        },
{
    match written {
        Ok(_) => Ok(1),
        Err(cause) => Err(ShellError::Io(cause)),
    }
}

/// The outcome of `cd` once the working directory was changed, or not.
pub fn after_change_dir(target: String, changed: bool) -> (r: ShellResult)
    ensures
        changed ==> r == Ok::<i32, ShellError>(1),
        !changed ==> r == Err::<i32, ShellError>(
            ShellError::DirectoryNotExist { builtin: BuiltIn::CD, dir: target },
        ),
{
    if changed {
        Ok(1)
    } else {
        Err(ShellError::DirectoryNotExist { builtin: BuiltIn::CD, dir: target })
    }
}

/// The outcome of an external program: `Ok(code)` when it ran (`None`: it
/// ended without an exit code), `Err(cause)` when it could not be started.
pub fn after_spawn(name: String, status: Result<Option<i32>, String>) -> (r: ShellResult)
    ensures
        match status {
            Ok(Some(0)) => r == Ok::<i32, ShellError>(1),
            Ok(Some(code)) => r == Err::<i32, ShellError>(
                ShellError::ProcessExitError { cmd: name, code },
            ),
            Ok(None) => r == Err::<i32, ShellError>(
                ShellError::ProcessExitError { cmd: name, code: -1i32 },
            ),
            Err(cause) => r == Err::<i32, ShellError>(
                ShellError::ProcessStartError { cmd: name, cause },
            ),
        },
{
    match status {
        Ok(Some(0)) => Ok(1),
        Ok(Some(code)) => Err(ShellError::ProcessExitError { cmd: name, code }),
        Ok(None) => Err(ShellError::ProcessExitError { cmd: name, code: -1 }),
        Err(cause) => Err(ShellError::ProcessStartError { cmd: name, cause }),
    }
}

/// The next step once the candidates of a lookup were tested:
/// `executable[i]` for the `i`-th candidate (a missing entry: not executable).
pub fn after_probe(lookup: Lookup, executable: &Vec<bool>) -> (r: Step)
    ensures
        match lookup.purpose {
            LookupFor::Describe => r matches Step::Write(t) && t@ == description(
                lookup.name@,
                resolved(lookup.name@, lookup.dirs.deep_view(), executable@),
            ),
            LookupFor::Launch(args) => match resolved(
                lookup.name@,
                lookup.dirs.deep_view(),
                executable@,
            ) {
                Some(p) => r matches Step::Spawn(l) && l.program@ == p && l.name == lookup.name
                    && l.args == args,
                None => r matches Step::Done(Err(ShellError::CommandNotFound(n))) && n
                    == lookup.name,
            },
        },
{
    let found = search_file_in_paths(&lookup.name, &lookup.dirs, executable);
    match lookup.purpose {
        LookupFor::Describe => {
            let mut t = lookup.name;
            match found {
                Some(p) => {
                    t.append(" is ");
                    t.append(p.as_str());
                },
                None => {
                    t.append(": not found");
                },
            }
            Step::Write(t)
        },
        LookupFor::Launch(args) => match found {
            Some(program) => Step::Spawn(Launch { name: lookup.name, program, args }),
            None => Step::Done(Err(ShellError::CommandNotFound(lookup.name))),
        },
    }
}

/// Copies the strings one by one.
fn copy_strings(v: &Vec<String>) -> (r: Vec<String>)
    ensures
        r@ == v@,
{
    let mut r: Vec<String> = Vec::new();
    let mut i: usize = 0;
    while i < v.len()
        invariant
            i <= v.len(),
            r@ == v@.subrange(0, i as int),
        decreases v.len() - i,
    {
        r.push(v[i].clone());
        i += 1;
        assert(r@ =~= v@.subrange(0, i as int));
    }
    assert(v@.subrange(0, v.len() as int) =~= v@);
    r
}

/// The dispatcher: classifies each command as a builtin or an external
/// program and decides what to do with it.
///
/// It owns the search path: a base list of directories, fixed for the
/// session, and a temporary overlay that lasts for one dispatch. The
/// effective path (base, then overlay) is computed when first asked for
/// and kept until the overlay changes.
pub struct CommandHandler {
    local_path: Vec<String>,
    temp_path: Vec<String>,
    runtime_path: Option<Vec<String>>,
    home: String,
}

pub struct HandlerView {
    pub base: Seq<Seq<char>>,
    pub overlay: Seq<Seq<char>>,
    pub home: Seq<char>,
}

impl HandlerView {
    /// The directories searched, in order.
    pub open spec fn effective(self) -> Seq<Seq<char>> {
        self.base + self.overlay
    }
}

impl View for CommandHandler {
    type V = HandlerView;

    closed spec fn view(&self) -> HandlerView {
        HandlerView {
            base: self.local_path.deep_view(),
            overlay: self.temp_path.deep_view(),
            home: self.home@,
        }
    }
}

/// What `run` decides for a command, given the dispatcher before it.
pub open spec fn planned(h: HandlerView, p: crate::parse::ParsedView, r: Step) -> bool {
    match BuiltIn::named(p.command) {
        Some(BuiltIn::EXIT) => r is Exit,
        Some(BuiltIn::ECHO) => r matches Step::Write(t) && t@ == joined_words(p.args),
        Some(BuiltIn::PWD) => r is PrintWorkingDir,
        Some(BuiltIn::CD) => r matches Step::ChangeDir(t) && t@ == cd_target(h.home, p.args),
        Some(BuiltIn::TYPE) => {
            let name = joined_words(p.args);
            match BuiltIn::named(name) {
                Some(b) => r matches Step::Write(t) && t@ == builtin_description(b),
                None => r matches Step::Probe(l) && l.name@ == name && l.dirs.deep_view()
                    == h.effective() && l.purpose is Describe,
            }
        },
        None => r matches Step::Probe(l) && l.name@ == p.command && l.dirs.deep_view()
            == h.effective() && (l.purpose matches LookupFor::Launch(a) && a.deep_view()
            == p.args),
    }
}

impl CommandHandler {
    /// The cached effective path, when present, is the base then the overlay.
    pub closed spec fn wf(&self) -> bool {
        match self.runtime_path {
            Some(c) => c@ == self.local_path@ + self.temp_path@,
            None => true,
        }
    }

    /// A dispatcher searching `local_path`, with `home` as the home directory.
    pub fn new(local_path: Vec<String>, home: String) -> (r: CommandHandler)
        ensures
            r.wf(),
            r@.base == local_path.deep_view(),
            r@.overlay.len() == 0,
            r@.home == home@,
    {
        let r = CommandHandler { local_path, temp_path: Vec::new(), runtime_path: None, home };
        assert(r.temp_path.deep_view() =~= Seq::<Seq<char>>::empty());
        r
    }

    /// Sets the temporary overlay for the next dispatch.
    pub fn set_temp_path(&mut self, dirs: Vec<String>)
        ensures
            final(self).wf(),
            final(self)@.base == old(self)@.base,
            final(self)@.home == old(self)@.home,
            final(self)@.overlay == dirs.deep_view(),
    {
        self.temp_path = dirs;
        self.runtime_path = None;
    }

    /// The temporary overlay.
    pub fn temp_path(&self) -> (r: &Vec<String>)
        ensures
            r.deep_view() == self@.overlay,
    {
        &self.temp_path
    }

    /// The effective search path: the base directories, then the overlay.
    pub fn get_runtime_path(&mut self) -> (r: Vec<String>)
        requires
            old(self).wf(),
        ensures
            final(self).wf(),
            final(self)@ == old(self)@,
            r.deep_view() == old(self)@.effective(),
    {
        if self.runtime_path.is_none() {
            let mut path = copy_strings(&self.local_path);
            let mut overlay = copy_strings(&self.temp_path);
            path.append(&mut overlay);
            self.runtime_path = Some(path);
        }
        let r = match &self.runtime_path {
            Some(c) => copy_strings(c),
            None => Vec::new(),
        };
        proof {
            assert(r@ == self.local_path@ + self.temp_path@);
            assert(r.deep_view() =~= self.local_path.deep_view() + self.temp_path.deep_view());
        }
        r
    }

    fn run_built_in_command(&mut self, command: BuiltIn, parsed_command: ParsedCommand) -> (r: Step)
        requires
            old(self).wf(),
            BuiltIn::named(parsed_command.command@) == Some(command),
        ensures
            final(self).wf(),
            final(self)@ == old(self)@,
            planned(old(self)@, parsed_command@, r),
    {
        match command {
            BuiltIn::EXIT => Step::Exit,
            BuiltIn::ECHO => Step::Write(join_words(&parsed_command.args)),
            BuiltIn::PWD => Step::PrintWorkingDir,
            BuiltIn::CD => {
                let args = &parsed_command.args;
                proof {
                    reveal_strlit("~");
                }
                let tilde = String::from_str("~");
                assert(tilde@ == seq!['~']);
                if args.len() == 0 || args[0] == tilde {
                    Step::ChangeDir(self.home.clone())
                } else {
                    Step::ChangeDir(args[0].clone())
                }
            },
            BuiltIn::TYPE => {
                let name = join_words(&parsed_command.args);
                match BuiltIn::from_name(name.as_str()) {
                    Ok(b) => {
                        let mut t = b.name();
                        t.append(" is a shell builtin");
                        Step::Write(t)
                    },
                    Err(_) => {
                        let dirs = self.get_runtime_path();
                        Step::Probe(Lookup { name, dirs, purpose: LookupFor::Describe })
                    },
                }
            },
        }
    }

    fn run_external_command(&mut self, parsed_command: ParsedCommand) -> (r: Step)
        requires
            old(self).wf(),
            BuiltIn::named(parsed_command.command@) is None,
        ensures
            final(self).wf(),
            final(self)@ == old(self)@,
            planned(old(self)@, parsed_command@, r),
    {
        let dirs = self.get_runtime_path();
        Step::Probe(
            Lookup {
                name: parsed_command.command,
                dirs,
                purpose: LookupFor::Launch(parsed_command.args),
            },
        )
    }

    /// Begins the dispatch of one command: builtins are matched first,
    /// ignoring ASCII case; any other name is looked up along the search
    /// path. The overlay is consulted here and cleared before returning,
    /// whatever the command.
    pub fn run(&mut self, parsed_command: ParsedCommand) -> (r: Step)
        requires
            old(self).wf(),
        ensures
            final(self).wf(),
            final(self)@.base == old(self)@.base,
            final(self)@.home == old(self)@.home,
            final(self)@.overlay.len() == 0,
            planned(old(self)@, parsed_command@, r),
    {
        let result = match BuiltIn::from_name(parsed_command.command.as_str()) {
            Ok(command) => self.run_built_in_command(command, parsed_command),
            Err(_) => self.run_external_command(parsed_command),
        };
        self.temp_path.clear();
        self.runtime_path = None;
        assert(self.temp_path.deep_view() =~= Seq::<Seq<char>>::empty());
        result
    }
}

} // verus!
