use vstd::prelude::*;
use crate::command::{is_builtin, is_builtin_name};
use crate::output::{emits_view, file_sink, report, report_emits, route, routes, Emit, Sink};
use crate::redirect::{resolve, split_redirect, Redirect};
use crate::lookup::find_executable;
use crate::text::same_word;

verus! {

/// The words joined by single spaces.
pub open spec fn join_words(ws: Seq<&str>) -> Seq<char>
    decreases ws.len(),
{
    if ws.len() == 0 {
        Seq::empty()
    } else if ws.len() == 1 {
        ws[0]@
    } else {
        join_words(ws.drop_last()) + " "@ + ws.last()@
    }
}

/// What `echo` writes: the operands joined by spaces and a newline go where
/// standard output goes; a redirected standard error gets an empty write, so
/// that its file is still created.
pub open spec fn echo_emits<'a>(args: Seq<&'a str>) -> Seq<(Sink<'a>, Seq<char>)> {
    let (operands, r) = resolve(args);
    let line = join_words(operands) + "\n"@;
    let (out, err) = routes(r);
    if err == Sink::<'a>::Stderr {
        seq![(out, line)]
    } else {
        seq![(out, line), (err, Seq::empty())]
    }
}

/// What `pwd` writes: the working directory and a newline, to the terminal.
pub open spec fn pwd_emits<'a>(cwd: Seq<char>) -> Seq<(Sink<'a>, Seq<char>)> {
    seq![(Sink::Stdout, cwd + "\n"@)]
}

/// The answer of `type name`, given what the search path holds under that
/// name.
pub open spec fn type_message(name: Seq<char>, found: Option<Seq<char>>) -> Seq<char> {
    if is_builtin_name(name) {
        name + " is a shell builtin"@
    } else {
        match found {
            Some(p) => name + " is "@ + p,
            None => name + ": not found"@,
        }
    }
}

/// What `type` writes: its answer, as a report to standard output.
pub open spec fn type_emits<'a>(name: Seq<char>, args: Seq<&'a str>, found: Option<Seq<char>>)
    -> Seq<(Sink<'a>, Seq<char>)>
{
    report_emits(type_message(name, found), resolve(args).1, Sink::Stdout)
}

/// Joins words with single spaces.
pub fn join(ws: &[&str]) -> (r: String)
    ensures
        r@ == join_words(ws@),
{
    let mut out = String::new();
    let mut i: usize = 0;
    while i < ws.len()
        invariant
            i <= ws@.len(),
            out@ == join_words(ws@.take(i as int)),
        decreases ws@.len() - i,
    {
        let ghost prev = ws@.take(i as int);
        if i > 0 {
            out.append(" ");
        }
        out.append(ws[i]);
        i = i + 1;
        assert(ws@.take(i as int).drop_last() =~= prev);
        assert(ws@.take(i as int).last() == ws@[i - 1]);
        if i == 1 {
            assert(Seq::<char>::empty() + ws@[0]@ =~= ws@[0]@);
        }
    }
    assert(ws@.take(ws@.len() as int) =~= ws@);
    out
}

/// The writes of `echo` with the given words.
pub fn echo<'a>(args: &[&'a str]) -> (out: Vec<Emit<'a>>)
    ensures
        emits_view(out@) == echo_emits(args@),
{
    let (operands, r) = split_redirect(args);
    let line = join(operands.as_slice()).concat("\n");
    let (to_out, to_err) = route(&r);
    let mut out: Vec<Emit<'a>> = Vec::new();
    match to_err {
        Sink::Stderr => {
            out.push(Emit { sink: to_out, text: line });
        },
        _ => {
            out.push(Emit { sink: to_out, text: line });
            out.push(Emit { sink: to_err, text: String::new() });
        },
    }
    assert(emits_view(out@) =~= echo_emits(args@));
    out
}

/// The writes of `pwd` in the working directory `cwd`.
pub fn pwd<'a>(cwd: &str) -> (out: Vec<Emit<'a>>)
    ensures
        emits_view(out@) == pwd_emits(cwd@),
{
    let mut out: Vec<Emit<'a>> = Vec::new();
    out.push(Emit { sink: Sink::Stdout, text: String::from_str(cwd).concat("\n") });
    assert(emits_view(out@) =~= pwd_emits(cwd@));
    out
}

/// The writes of `type`, given the path found for `name` on the search path,
/// if any.
pub fn type_report_for<'a>(name: &str, args: &[&'a str], found: Option<&str>) -> (out: Vec<Emit<'a>>)
    ensures
        emits_view(out@) == type_emits(name@, args@, match found {
            Some(p) => Some(p@),
            None => None,
        }),
{
    let (_, r) = split_redirect(args);
    let msg = if is_builtin(name) {
        String::from_str(name).concat(" is a shell builtin")
    } else {
        match found {
            Some(p) => String::from_str(name).concat(" is ").concat(p),
            None => String::from_str(name).concat(": not found"),
        }
    };
    report(msg, &r, Sink::Stdout)
}

/// The writes of `type`, with `name` looked up on the search path unless
/// it is one of the shell's own commands. Whatever the lookup finds, the
/// answer is the one that `type_report_for` gives on it.
pub fn type_report<'a>(name: &str, args: &[&'a str]) -> (out: Vec<Emit<'a>>)
    ensures
        exists|found: Option<Seq<char>>| emits_view(out@) == type_emits(name@, args@, found),
        is_builtin_name(name@) ==> emits_view(out@) == type_emits(name@, args@, None),
{
    if is_builtin(name) {
        type_report_for(name, args, None)
    } else {
        let found = find_executable(name);
        match found {
            Some(p) => {
                let out = type_report_for(name, args, Some(p.as_str()));
                assert(emits_view(out@) == type_emits(name@, args@, Some(p@)));
                out
            },
            None => type_report_for(name, args, None),
        }
    }
}

/// The directory that `cd` goes to: the home directory for `~` (the root
/// when there is none), else the word as written.
pub open spec fn cd_destination(path: Seq<char>, home: Option<Seq<char>>) -> Seq<char> {
    if path == "~"@ {
        match home {
            Some(h) => h,
            None => "/"@,
        }
    } else {
        path
    }
}

/// The directory that `cd path` goes to, given the value of `HOME`.
pub fn cd_target(path: &str, home: Option<String>) -> (r: String)
    ensures
        r@ == cd_destination(path@, match home {
            Some(h) => Some(h@),
            None => None,
        }),
{
    if same_word(path, "~") {
        match home {
            Some(h) => h,
            None => String::from_str("/"),
        }
    } else {
        String::from_str(path)
    }
}

/// What came of an attempt to change the working directory.
pub enum CdOutcome {
    /// The working directory is now the target.
    Changed,
    /// The target is not a directory, so no change was made.
    NotADirectory,
    /// The change was refused, with the system's reason.
    Failed(String),
}

/// The error message of `cd` for an outcome, if any.
pub open spec fn cd_message(target: Seq<char>, outcome: CdOutcome) -> Option<Seq<char>> {
    match outcome {
        CdOutcome::Changed => None,
        CdOutcome::NotADirectory => Some("cd: "@ + target + ": No such file or directory"@),
        CdOutcome::Failed(e) => Some("cd: "@ + e@),
    }
}

/// What `cd` writes: nothing on success, else its error message as a report
/// to standard error.
pub open spec fn cd_emits<'a>(target: Seq<char>, args: Seq<&'a str>, outcome: CdOutcome)
    -> Seq<(Sink<'a>, Seq<char>)>
{
    match cd_message(target, outcome) {
        None => Seq::empty(),
        Some(m) => report_emits(m, resolve(args).1, Sink::Stderr),
    }
}

/// The writes of `cd` to `target`, given what came of the attempt.
pub fn cd_report<'a>(target: &str, args: &[&'a str], outcome: CdOutcome) -> (out: Vec<Emit<'a>>)
    ensures
        emits_view(out@) == cd_emits(target@, args@, outcome),
{
    let (_, r) = split_redirect(args);
    match outcome {
        CdOutcome::Changed => {
            let out: Vec<Emit<'a>> = Vec::new();
            assert(emits_view(out@) =~= Seq::empty());
            out
        },
        CdOutcome::NotADirectory => {
            let msg = String::from_str("cd: ").concat(target).concat(": No such file or directory");
            report(msg, &r, Sink::Stderr)
        },
        CdOutcome::Failed(e) => {
            let msg = String::from_str("cd: ").concat(e.as_str());
            report(msg, &r, Sink::Stderr)
        },
    }
}

/// What `cd` does once it is known whether its target is a directory.
pub enum CdPlan<'a> {
    /// Change the working directory to the target, then report what came
    /// of it with `cd_report`.
    Move,
    /// Leave the working directory as it is and make these writes.
    Refuse(Vec<Emit<'a>>),
}

/// Decides `cd` to `target`: it moves only into a directory; for anything
/// else it stays where it is and reports that there is no such directory.
pub fn cd_plan<'a>(target: &str, args: &[&'a str], is_dir: bool) -> (p: CdPlan<'a>)
    ensures
        (p is Move) <==> is_dir,
        !is_dir ==> emits_view(p->Refuse_0@) == cd_emits(target@, args@, CdOutcome::NotADirectory),
{
    if is_dir {
        CdPlan::Move
    } else {
        CdPlan::Refuse(cd_report(target, args, CdOutcome::NotADirectory))
    }
}

/// What to do for an outside program.
pub enum ExternalPlan<'a> {
    /// The program is not on the search path: write these and spawn nothing.
    Missing(Vec<Emit<'a>>),
    /// Run the program with these arguments, then send its captured standard
    /// output and standard error to the two sinks.
    Run { operands: Vec<&'a str>, stdout: Sink<'a>, stderr: Sink<'a> },
}

/// The mathematical form of a plan.
pub enum PlanModel<'a> {
    Missing(Seq<(Sink<'a>, Seq<char>)>),
    Run { operands: Seq<&'a str>, stdout: Sink<'a>, stderr: Sink<'a> },
}

impl<'a> View for ExternalPlan<'a> {
    type V = PlanModel<'a>;

    open spec fn view(&self) -> PlanModel<'a> {
        match self {
            ExternalPlan::Missing(e) => PlanModel::Missing(emits_view(e@)),
            ExternalPlan::Run { operands, stdout, stderr } => PlanModel::Run {
                operands: operands@,
                stdout: *stdout,
                stderr: *stderr,
            },
        }
    }
}

/// The plan for `program args`: when the program is not found, the message
/// `<program>: command not found` on the terminal, whatever the redirection;
/// else a run with the operands, its streams routed by the redirection.
pub open spec fn external_plan_of<'a>(program: Seq<char>, args: Seq<&'a str>, found: bool) -> PlanModel<'a> {
    if !found {
        PlanModel::Missing(seq![(Sink::Stdout, program + ": command not found\n"@)])
    } else {
        let (operands, r) = resolve(args);
        let (o, e) = routes(r);
        PlanModel::Run { operands, stdout: o, stderr: e }
    }
}

/// The plan for `program args`, given whether the program is on the search
/// path.
pub fn external_plan_for<'a>(program: &str, args: &[&'a str], found: bool) -> (p: ExternalPlan<'a>)
    ensures
        p@ == external_plan_of(program@, args@, found),
{
    if !found {
        let mut out: Vec<Emit<'a>> = Vec::new();
        out.push(Emit { sink: Sink::Stdout, text: String::from_str(program).concat(": command not found\n") });
        assert(emits_view(out@) =~= seq![(Sink::Stdout, program@ + ": command not found\n"@)]);
        ExternalPlan::Missing(out)
    } else {
        let (operands, r) = split_redirect(args);
        let (o, e) = route(&r);
        ExternalPlan::Run { operands, stdout: o, stderr: e }
    }
}

/// The plan for `program args`, with the program looked up on the search
/// path. Whatever the lookup finds, the plan is the one that
/// `external_plan_for` gives on it.
pub fn external_plan<'a>(program: &str, args: &[&'a str]) -> (p: ExternalPlan<'a>)
    ensures
        p@ == external_plan_of(program@, args@, true) || p@ == external_plan_of(program@, args@, false),
{
    let found = find_executable(program);
    external_plan_for(program, args, found.is_some())
}

} // verus!
