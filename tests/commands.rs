use oxide::builtins::{
    cd_plan, cd_report, cd_target, echo, external_plan, external_plan_for, join, pwd, type_report,
    type_report_for, CdOutcome, CdPlan, ExternalPlan,
};
use oxide::output::Sink;
use oxide::{split_redirect, Redirect, ShellCommand};

#[test]
fn append_stdout_has_precedence() {
    let words = ["x", ">>", "f", ">", "g"];
    let (operands, r) = split_redirect(&words);
    assert_eq!(operands, vec!["x"]);
    assert!(matches!(r, Some(Redirect::AppendStdout("f"))));
}

#[test]
fn redirect_operators_are_recognized() {
    let (ops, r) = split_redirect(&["a", "1>>", "f"]);
    assert_eq!(ops, vec!["a"]);
    assert!(matches!(r, Some(Redirect::AppendStdout("f"))));
    let (ops, r) = split_redirect(&["a", "b", "2>>", "f"]);
    assert_eq!(ops, vec!["a", "b"]);
    assert!(matches!(r, Some(Redirect::AppendStderr("f"))));
    let (ops, r) = split_redirect(&["a", "2>", "e", ">", "o"]);
    assert_eq!(ops, vec!["a"]);
    assert!(matches!(r, Some(Redirect::Stderr("e"))));
    let (ops, r) = split_redirect(&["1>", "o", "a"]);
    assert!(ops.is_empty());
    assert!(matches!(r, Some(Redirect::Stdout("o"))));
}

#[test]
fn operator_without_target_is_no_redirect() {
    let (ops, r) = split_redirect(&["a", ">"]);
    assert_eq!(ops, vec!["a", ">"]);
    assert!(r.is_none());
    let (ops, r) = split_redirect(&["a", "2>", "f", ">>"]);
    assert_eq!(ops, vec!["a"]);
    assert!(matches!(r, Some(Redirect::Stderr("f"))));
    let (ops, r) = split_redirect(&["a", ">>", "2>", "f"]);
    assert_eq!(ops, vec!["a"]);
    assert!(matches!(r, Some(Redirect::AppendStdout("2>"))));
}

#[test]
fn parse_classifies_by_first_word() {
    assert!(matches!(ShellCommand::parse(&["exit", "0"]), ShellCommand::Exit));
    assert!(matches!(ShellCommand::parse(&["pwd"]), ShellCommand::Pwd));
    match ShellCommand::parse(&["echo", "a", "b"]) {
        ShellCommand::Echo(args) => assert_eq!(args, vec!["a", "b"]),
        _ => panic!("expected echo"),
    }
    match ShellCommand::parse(&["type", "ls", ">", "f"]) {
        ShellCommand::Type(name, args) => {
            assert_eq!(name, "ls");
            assert_eq!(args, vec![">", "f"]);
        }
        _ => panic!("expected type"),
    }
    match ShellCommand::parse(&["cd", "/tmp"]) {
        ShellCommand::Cd(path, args) => {
            assert_eq!(path, "/tmp");
            assert!(args.is_empty());
        }
        _ => panic!("expected cd"),
    }
    match ShellCommand::parse(&["Echo", "x"]) {
        ShellCommand::External(cmd, args) => {
            assert_eq!(cmd, "Echo");
            assert_eq!(args, vec!["x"]);
        }
        _ => panic!("expected external"),
    }
}

#[test]
fn operand_is_not_read_as_a_redirect() {
    match ShellCommand::parse(&["type", "echo", ">", "f"]) {
        ShellCommand::Type(name, args) => {
            assert_eq!(name, "echo");
            assert_eq!(args, vec![">", "f"]);
        }
        _ => panic!("expected type"),
    }
    match ShellCommand::parse(&["cd", "2>", "err"]) {
        ShellCommand::Cd(path, args) => {
            assert_eq!(path, "2>");
            assert_eq!(args, vec!["err"]);
            let out = cd_report(path, &args, CdOutcome::NotADirectory);
            assert_eq!(out.len(), 1);
            assert_eq!(out[0].sink, Sink::Stderr);
            assert_eq!(out[0].text, "cd: 2>: No such file or directory\n");
        }
        _ => panic!("expected cd"),
    }
}

#[test]
fn type_or_cd_without_operand_is_empty() {
    assert!(matches!(ShellCommand::parse(&["type"]), ShellCommand::Empty));
    assert!(matches!(ShellCommand::parse(&["cd"]), ShellCommand::Empty));
}

#[test]
fn join_uses_single_spaces() {
    assert_eq!(join(&[]), "");
    assert_eq!(join(&["a"]), "a");
    assert_eq!(join(&["a", "b c", "d"]), "a b c d");
}

#[test]
fn echo_prints_to_terminal() {
    let out = echo(&["hello"]);
    assert_eq!(out.len(), 1);
    assert_eq!(out[0].sink, Sink::Stdout);
    assert_eq!(out[0].text, "hello\n");
}

#[test]
fn echo_redirected_to_file_writes_only_the_file() {
    let out = echo(&["hi", ">", "out.txt"]);
    assert_eq!(out.len(), 1);
    assert_eq!(out[0].sink, Sink::Overwrite("out.txt"));
    assert_eq!(out[0].text, "hi\n");
    let out = echo(&["a", "b", ">>", "log"]);
    assert_eq!(out.len(), 1);
    assert_eq!(out[0].sink, Sink::Append("log"));
    assert_eq!(out[0].text, "a b\n");
}

#[test]
fn echo_with_stderr_redirect_prints_and_touches_file() {
    let out = echo(&["hi", "2>", "err.txt"]);
    assert_eq!(out.len(), 2);
    assert_eq!(out[0].sink, Sink::Stdout);
    assert_eq!(out[0].text, "hi\n");
    assert_eq!(out[1].sink, Sink::Overwrite("err.txt"));
    assert_eq!(out[1].text, "");
    let out = echo(&["hi", "2>>", "err.txt"]);
    assert_eq!(out.len(), 2);
    assert_eq!(out[1].sink, Sink::Append("err.txt"));
    assert_eq!(out[1].text, "");
}

#[test]
fn echo_without_words_prints_empty_line() {
    let out = echo(&[]);
    assert_eq!(out.len(), 1);
    assert_eq!(out[0].text, "\n");
}

#[test]
fn type_of_builtin() {
    let out = type_report("echo", &[]);
    assert_eq!(out.len(), 1);
    assert_eq!(out[0].sink, Sink::Stdout);
    assert_eq!(out[0].text, "echo is a shell builtin\n");
}

#[test]
fn type_of_unknown_name() {
    let out = type_report("nonexistent123", &[]);
    assert_eq!(out.len(), 1);
    assert_eq!(out[0].sink, Sink::Stdout);
    assert_eq!(out[0].text, "nonexistent123: not found\n");
}

#[test]
fn type_of_found_program_names_its_path() {
    let out = type_report_for("ls", &[], Some("/bin/ls"));
    assert_eq!(out[0].text, "ls is /bin/ls\n");
    let out = type_report_for("cd", &[], Some("/usr/bin/cd"));
    assert_eq!(out[0].text, "cd is a shell builtin\n");
}

#[test]
fn type_redirected_writes_bare_line_to_file() {
    let out = type_report_for("x", &[">", "f"], None);
    assert_eq!(out.len(), 1);
    assert_eq!(out[0].sink, Sink::Overwrite("f"));
    assert_eq!(out[0].text, "x: not found");
    let out = type_report_for("pwd", &["2>>", "g"], None);
    assert_eq!(out[0].sink, Sink::Append("g"));
    assert_eq!(out[0].text, "pwd is a shell builtin");
}

#[test]
fn cd_to_missing_directory_reports_error() {
    let out = cd_report("/does/not/exist", &[], CdOutcome::NotADirectory);
    assert_eq!(out.len(), 1);
    assert_eq!(out[0].sink, Sink::Stderr);
    assert_eq!(out[0].text, "cd: /does/not/exist: No such file or directory\n");
}

#[test]
fn cd_error_follows_redirect() {
    let out = cd_report("d", &["2>", "e"], CdOutcome::Failed("Permission denied".to_string()));
    assert_eq!(out.len(), 1);
    assert_eq!(out[0].sink, Sink::Overwrite("e"));
    assert_eq!(out[0].text, "cd: Permission denied");
}

#[test]
fn cd_success_writes_nothing() {
    assert!(cd_report("/", &[], CdOutcome::Changed).is_empty());
}

#[test]
fn cd_target_resolves_home() {
    assert_eq!(cd_target("~", Some("/home/u".to_string())), "/home/u");
    assert_eq!(cd_target("~", None), "/");
    assert_eq!(cd_target("/tmp", Some("/home/u".to_string())), "/tmp");
    assert_eq!(cd_target("~/x", None), "~/x");
}

#[test]
fn missing_program_is_reported_and_not_run() {
    match external_plan("nonexistent_prog", &[]) {
        ExternalPlan::Missing(out) => {
            assert_eq!(out.len(), 1);
            assert_eq!(out[0].sink, Sink::Stdout);
            assert_eq!(out[0].text, "nonexistent_prog: command not found\n");
        }
        ExternalPlan::Run { .. } => panic!("must not run"),
    }
}

#[test]
fn missing_program_message_ignores_redirect() {
    match external_plan_for("p", &[">", "f"], false) {
        ExternalPlan::Missing(out) => {
            assert_eq!(out[0].sink, Sink::Stdout);
            assert_eq!(out[0].text, "p: command not found\n");
        }
        ExternalPlan::Run { .. } => panic!("must not run"),
    }
}

#[test]
fn found_program_streams_are_routed() {
    match external_plan_for("ls", &["-l", "2>>", "e"], true) {
        ExternalPlan::Run { operands, stdout, stderr } => {
            assert_eq!(operands, vec!["-l"]);
            assert_eq!(stdout, Sink::Stdout);
            assert_eq!(stderr, Sink::Append("e"));
        }
        ExternalPlan::Missing(_) => panic!("expected a run"),
    }
    match external_plan_for("ls", &["a", ">", "o"], true) {
        ExternalPlan::Run { operands, stdout, stderr } => {
            assert_eq!(operands, vec!["a"]);
            assert_eq!(stdout, Sink::Overwrite("o"));
            assert_eq!(stderr, Sink::Stderr);
        }
        ExternalPlan::Missing(_) => panic!("expected a run"),
    }
    match external_plan_for("ls", &["a"], true) {
        ExternalPlan::Run { operands, stdout, stderr } => {
            assert_eq!(operands, vec!["a"]);
            assert_eq!(stdout, Sink::Stdout);
            assert_eq!(stderr, Sink::Stderr);
        }
        ExternalPlan::Missing(_) => panic!("expected a run"),
    }
}

#[test]
fn pwd_is_repeatable() {
    let a = pwd("/home/u");
    let b = pwd("/home/u");
    assert_eq!(a.len(), 1);
    assert_eq!(a[0].sink, Sink::Stdout);
    assert_eq!(a[0].text, "/home/u\n");
    assert_eq!(a[0].text, b[0].text);
    assert_eq!(a[0].sink, b[0].sink);
}

#[test]
fn cd_moves_only_into_a_directory() {
    assert!(matches!(cd_plan("/tmp", &[], true), CdPlan::Move));
    match cd_plan("/does/not/exist", &[], false) {
        CdPlan::Refuse(out) => {
            assert_eq!(out.len(), 1);
            assert_eq!(out[0].sink, Sink::Stderr);
            assert_eq!(out[0].text, "cd: /does/not/exist: No such file or directory\n");
        }
        CdPlan::Move => panic!("must not move"),
    }
    match cd_plan("f", &[">>", "log"], false) {
        CdPlan::Refuse(out) => {
            assert_eq!(out[0].sink, Sink::Append("log"));
            assert_eq!(out[0].text, "cd: f: No such file or directory");
        }
        CdPlan::Move => panic!("must not move"),
    }
}
