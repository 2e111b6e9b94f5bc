use shell::builtin::BuiltIn;
use shell::dispatch::{
    after_change_dir, after_open, after_probe, after_spawn, after_write, join_words, CommandHandler,
    LookupFor, Step,
};
use shell::error::ShellError;
use shell::parse::{parse, ParsedCommand};

fn strings(v: &[&str]) -> Vec<String> {
    v.iter().map(|s| s.to_string()).collect()
}

fn parsed(line: &str) -> ParsedCommand {
    let mut s = String::from(line);
    parse(&mut s).unwrap()
}

fn handler() -> CommandHandler {
    CommandHandler::new(strings(&["/usr/local/bin", "/usr/bin", "/bin"]), "/home/me".to_string())
}

#[test]
fn builtin_names_ignore_ascii_case() {
    assert_eq!(BuiltIn::from_name("echo"), Ok(BuiltIn::ECHO));
    assert_eq!(BuiltIn::from_name("ECHO"), Ok(BuiltIn::ECHO));
    assert_eq!(BuiltIn::from_name("Cd"), Ok(BuiltIn::CD));
    assert_eq!(BuiltIn::from_name("pWd"), Ok(BuiltIn::PWD));
    assert_eq!(BuiltIn::from_name("TYPE"), Ok(BuiltIn::TYPE));
    assert_eq!(BuiltIn::from_name("exit"), Ok(BuiltIn::EXIT));
    assert_eq!(BuiltIn::from_name("ls"), Err(ShellError::NotABuiltinCommand));
    assert_eq!(BuiltIn::from_name("echoo"), Err(ShellError::NotABuiltinCommand));
    assert_eq!(BuiltIn::from_name(""), Err(ShellError::NotABuiltinCommand));
    assert_eq!("type".parse::<BuiltIn>(), Ok(BuiltIn::TYPE));
}

#[test]
fn builtin_names() {
    assert_eq!(BuiltIn::ECHO.name(), "echo");
    assert_eq!(BuiltIn::EXIT.name(), "exit");
    assert_eq!(BuiltIn::CD.name(), "cd");
    assert_eq!(BuiltIn::PWD.name(), "pwd");
    assert_eq!(BuiltIn::TYPE.name(), "type");
}

#[test]
fn words_join_with_spaces() {
    assert_eq!(join_words(&strings(&[])), "");
    assert_eq!(join_words(&strings(&["a"])), "a");
    assert_eq!(join_words(&strings(&["a", "b c", "d"])), "a b c d");
}

#[test]
fn echo_writes_joined_arguments() {
    let mut h = handler();
    match h.run(parsed("echo hello   world > /tmp/out.txt")) {
        Step::Write(t) => assert_eq!(t, "hello world"),
        s => panic!("{:?}", s),
    }
}

#[test]
fn exit_and_pwd() {
    let mut h = handler();
    assert!(matches!(h.run(parsed("exit")), Step::Exit));
    assert!(matches!(h.run(parsed("exit 3")), Step::Exit));
    assert!(matches!(h.run(parsed("pwd")), Step::PrintWorkingDir));
}

#[test]
fn cd_tilde_goes_home() {
    let mut h = handler();
    match h.run(parsed("cd ~")) {
        Step::ChangeDir(t) => assert_eq!(t, "/home/me"),
        s => panic!("{:?}", s),
    }
    match h.run(parsed("cd")) {
        Step::ChangeDir(t) => assert_eq!(t, "/home/me"),
        s => panic!("{:?}", s),
    }
    match h.run(parsed("cd /tmp")) {
        Step::ChangeDir(t) => assert_eq!(t, "/tmp"),
        s => panic!("{:?}", s),
    }
    match h.run(parsed("cd ~/x")) {
        Step::ChangeDir(t) => assert_eq!(t, "~/x"),
        s => panic!("{:?}", s),
    }
}

#[test]
fn cd_to_missing_directory_fails() {
    assert_eq!(after_change_dir("/home/me".to_string(), true), Ok(1));
    assert_eq!(
        after_change_dir("/does/not/exist".to_string(), false),
        Err(ShellError::DirectoryNotExist { builtin: BuiltIn::CD, dir: "/does/not/exist".to_string() })
    );
}

#[test]
fn type_reports_builtins() {
    let mut h = handler();
    match h.run(parsed("type echo")) {
        Step::Write(t) => assert_eq!(t, "echo is a shell builtin"),
        s => panic!("{:?}", s),
    }
    match h.run(parsed("TYPE Type")) {
        Step::Write(t) => assert_eq!(t, "type is a shell builtin"),
        s => panic!("{:?}", s),
    }
}

#[test]
fn type_reports_not_found() {
    let mut h = handler();
    let lookup = match h.run(parsed("type nonexistent_binary_xyz")) {
        Step::Probe(l) => l,
        s => panic!("{:?}", s),
    };
    assert_eq!(lookup.name, "nonexistent_binary_xyz");
    assert!(matches!(lookup.purpose, LookupFor::Describe));
    assert_eq!(lookup.candidates().len(), 3);
    match after_probe(lookup, &vec![false, false, false]) {
        Step::Write(t) => assert_eq!(t, "nonexistent_binary_xyz: not found"),
        s => panic!("{:?}", s),
    }
}

#[test]
fn type_reports_resolved_path() {
    let mut h = handler();
    let lookup = match h.run(parsed("type ls")) {
        Step::Probe(l) => l,
        s => panic!("{:?}", s),
    };
    assert_eq!(
        lookup.candidates(),
        strings(&["/usr/local/bin/ls", "/usr/bin/ls", "/bin/ls"])
    );
    match after_probe(lookup, &vec![false, true, true]) {
        Step::Write(t) => assert_eq!(t, "ls is /usr/bin/ls"),
        s => panic!("{:?}", s),
    }
}

#[test]
fn external_command_is_looked_up_then_spawned() {
    let mut h = handler();
    let lookup = match h.run(parsed("ls -l 'a b'")) {
        Step::Probe(l) => l,
        s => panic!("{:?}", s),
    };
    assert_eq!(lookup.name, "ls");
    assert_eq!(lookup.dirs, strings(&["/usr/local/bin", "/usr/bin", "/bin"]));
    match after_probe(lookup, &vec![false, false, true]) {
        Step::Spawn(l) => {
            assert_eq!(l.name, "ls");
            assert_eq!(l.program, "/bin/ls");
            assert_eq!(l.args, strings(&["-l", "a b"]));
        }
        s => panic!("{:?}", s),
    }
}

#[test]
fn unknown_command_is_not_found() {
    let mut h = handler();
    let lookup = match h.run(parsed("frobnicate x")) {
        Step::Probe(l) => l,
        s => panic!("{:?}", s),
    };
    match after_probe(lookup, &vec![false, false, false]) {
        Step::Done(r) => assert_eq!(r, Err(ShellError::CommandNotFound("frobnicate".to_string()))),
        s => panic!("{:?}", s),
    }
}

#[test]
fn spawn_outcomes() {
    assert_eq!(after_spawn("ls".to_string(), Ok(Some(0))), Ok(1));
    assert_eq!(
        after_spawn("ls".to_string(), Ok(Some(2))),
        Err(ShellError::ProcessExitError { cmd: "ls".to_string(), code: 2 })
    );
    assert_eq!(
        after_spawn("ls".to_string(), Ok(None)),
        Err(ShellError::ProcessExitError { cmd: "ls".to_string(), code: -1 })
    );
    assert_eq!(
        after_spawn("ls".to_string(), Err("permission denied".to_string())),
        Err(ShellError::ProcessStartError { cmd: "ls".to_string(), cause: "permission denied".to_string() })
    );
}

#[test]
fn write_outcomes() {
    assert_eq!(after_write(Ok(())), Ok(1));
    assert_eq!(after_write(Err("disk full".to_string())), Err(ShellError::Io("disk full".to_string())));
}

#[test]
fn overlay_is_searched_after_base_then_cleared() {
    let mut h = handler();
    h.set_temp_path(strings(&["/opt/extra"]));
    assert_eq!(h.temp_path(), &strings(&["/opt/extra"]));
    assert_eq!(
        h.get_runtime_path(),
        strings(&["/usr/local/bin", "/usr/bin", "/bin", "/opt/extra"])
    );
    let lookup = match h.run(parsed("tool")) {
        Step::Probe(l) => l,
        s => panic!("{:?}", s),
    };
    assert_eq!(lookup.dirs, strings(&["/usr/local/bin", "/usr/bin", "/bin", "/opt/extra"]));
    assert!(h.temp_path().is_empty());
    assert_eq!(h.get_runtime_path(), strings(&["/usr/local/bin", "/usr/bin", "/bin"]));
}

#[test]
fn overlay_is_cleared_after_every_kind_of_dispatch() {
    for line in ["echo a", "exit", "pwd", "cd /nowhere", "type ls", "type cd", "missing_cmd"] {
        let mut h = handler();
        h.set_temp_path(strings(&["/opt/extra"]));
        let _ = h.run(parsed(line));
        assert!(h.temp_path().is_empty(), "{}", line);
    }
}

#[test]
fn builtin_names_parse_back() {
    for b in [BuiltIn::ECHO, BuiltIn::EXIT, BuiltIn::CD, BuiltIn::PWD, BuiltIn::TYPE] {
        assert_eq!(b.name().parse::<BuiltIn>(), Ok(b));
    }
    assert_eq!("ECHO".parse::<BuiltIn>(), Ok(BuiltIn::ECHO));
    assert_eq!("Cd".parse::<BuiltIn>(), Ok(BuiltIn::CD));
    assert_eq!("ls".parse::<BuiltIn>(), Err(ShellError::NotABuiltinCommand));
    assert_eq!("echo ".parse::<BuiltIn>(), Err(ShellError::NotABuiltinCommand));
}

#[test]
fn unopened_redirection_skips_the_command() {
    let mut h = handler();
    let step = h.run(parsed("echo hi > /no/such/dir/f"));
    match after_open(step, Err("cannot open".to_string())) {
        Step::Done(r) => assert_eq!(r, Err(ShellError::Io("cannot open".to_string()))),
        s => panic!("{:?}", s),
    }
    let step = h.run(parsed("echo hi"));
    match after_open(step, Ok(())) {
        Step::Write(t) => assert_eq!(t, "hi"),
        s => panic!("{:?}", s),
    }
}
