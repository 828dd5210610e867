use vstd::prelude::*;
use crate::builtins::{echo, echo_emits, external_plan, external_plan_of, type_emits, type_report, ExternalPlan, PlanModel};
use crate::command::{CommandModel, ShellCommand};
use crate::output::{emits_view, Emit, Sink};

verus! {

/// What the shell does next for one command.
pub enum Step<'a> {
    /// Stop reading input.
    Stop,
    /// Make these writes, then read the next line.
    Write(Vec<Emit<'a>>),
    /// Write the working directory (see `pwd`).
    ShowCwd,
    /// Try to change the working directory (see `cd_target` and
    /// `cd_report`).
    ChangeDir { path: &'a str, args: Vec<&'a str> },
    /// Act on the plan for an outside program.
    Program { program: &'a str, plan: ExternalPlan<'a> },
}

/// The mathematical form of a step.
pub enum StepModel<'a> {
    Stop,
    Write(Seq<(Sink<'a>, Seq<char>)>),
    ShowCwd,
    ChangeDir { path: &'a str, args: Seq<&'a str> },
    Program { program: &'a str, plan: PlanModel<'a> },
}

impl<'a> View for Step<'a> {
    type V = StepModel<'a>;

    open spec fn view(&self) -> StepModel<'a> {
        match self {
            Step::Stop => StepModel::Stop,
            Step::Write(e) => StepModel::Write(emits_view(e@)),
            Step::ShowCwd => StepModel::ShowCwd,
            Step::ChangeDir { path, args } => StepModel::ChangeDir { path: *path, args: args@ },
            Step::Program { program, plan } => StepModel::Program { program: *program, plan: plan@ },
        }
    }
}

/// The step for `type`: its writes, for whatever the lookup found.
pub open spec fn type_step<'a>(r: StepModel<'a>, name: &'a str, args: Seq<&'a str>) -> bool {
    exists|f: Option<Seq<char>>| r == StepModel::Write(type_emits(name@, args, f))
}

/// The step for an outside program: its plan, with the program either
/// found on the search path or not.
pub open spec fn program_step<'a>(r: StepModel<'a>, program: &'a str, args: Seq<&'a str>) -> bool {
    ||| r == (StepModel::Program { program, plan: external_plan_of(program@, args, true) })
    ||| r == (StepModel::Program { program, plan: external_plan_of(program@, args, false) })
}

impl<'a> ShellCommand<'a> {
    /// Decides what to do for this command. The shell stops exactly on
    /// `exit`; every other command leaves it running. Only `cd` asks to
    /// move the working directory, so the output of `pwd`, which depends on
    /// that directory alone, repeats until a `cd` comes.
    pub fn step(self) -> (r: Step<'a>)
        ensures
            (r@ is Stop) <==> (self@ is Exit),
            (r@ is ChangeDir) <==> (self@ is Cd),
            self@ is Exit ==> r@ == StepModel::<'a>::Stop,
            self@ is Echo ==> r@ == StepModel::Write(echo_emits(self@->Echo_0)),
            self@ is Pwd ==> r@ == StepModel::<'a>::ShowCwd,
            self@ is Type ==> type_step(r@, self@->Type_0, self@->Type_1),
            self@ is Cd ==> r@ == (StepModel::ChangeDir { path: self@->Cd_0, args: self@->Cd_1 }),
            self@ is External ==> program_step(r@, self@->External_0, self@->External_1),
            self@ is Empty ==> r@ == StepModel::<'a>::Write(Seq::empty()),
    {
        match self {
            ShellCommand::Exit => Step::Stop,
            ShellCommand::Echo(args) => Step::Write(echo(args.as_slice())),
            ShellCommand::Pwd => Step::ShowCwd,
            ShellCommand::Type(name, args) => {
                let out = type_report(name, args.as_slice());
                let r = Step::Write(out);
                proof {
                    let f = choose|f: Option<Seq<char>>|
                        emits_view(out@) == type_emits(name@, args@, f);
                    assert(r@ == StepModel::Write(type_emits(name@, args@, f)));
                    assert(type_step(r@, name, args@));
                }
                r
            },
            ShellCommand::Cd(path, args) => Step::ChangeDir { path, args },
            ShellCommand::External(program, args) => {
                let plan = external_plan(program, args.as_slice());
                Step::Program { program, plan }
            },
            ShellCommand::Empty => {
                let out: Vec<Emit<'a>> = Vec::new();
                assert(emits_view(out@) =~= Seq::empty());
                Step::Write(out)
            },
        }
    }
}

} // verus!
