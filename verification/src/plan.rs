use vstd::prelude::*;

use crate::edits::{Edit, EditModel};
use crate::text::owned;

verus! {

/// A program to start, with everything the installer hands it.
#[derive(Debug, Clone, PartialEq, Eq)]
pub struct CommandSpec {
    /// The program to run.
    pub program: String,
    /// Its arguments, in order.
    pub args: Vec<String>,
    /// `Some(vars)`: the environment is cleared and holds only `vars`;
    /// `None`: the program inherits the installer's environment.
    pub env: Option<Vec<(String, String)>>,
    /// The directory to run it in (`None`: the installer's own).
    pub cwd: Option<String>,
    /// Text written to its standard input (`None`: stdin is inherited).
    pub stdin: Option<String>,
}

/// A [`CommandSpec`] in terms of plain values.
pub struct CommandModel {
    pub program: Seq<char>,
    pub args: Seq<Seq<char>>,
    pub env: Option<Seq<(Seq<char>, Seq<char>)>>,
    pub cwd: Option<Seq<char>>,
    pub stdin: Option<Seq<char>>,
}

impl View for CommandSpec {
    type V = CommandModel;

    open spec fn view(&self) -> CommandModel {
        CommandModel {
            program: self.program@,
            args: self.args.deep_view(),
            env: self.env.deep_view(),
            cwd: self.cwd.deep_view(),
            stdin: self.stdin.deep_view(),
        }
    }
}

/// A command run in the installer's own directory and environment, with
/// nothing written to it.
pub open spec fn plain_command(program: Seq<char>, args: Seq<Seq<char>>) -> CommandModel {
    CommandModel { program, args, env: None, cwd: None, stdin: None }
}

/// One thing the installer does.
#[derive(Debug, Clone, PartialEq, Eq)]
pub enum Step {
    /// Print a line.
    Say(String),
    /// Run a command and wait for it; with `failure: Some(m)` the run stops
    /// with message `m` unless the command exits successfully.
    Run { command: CommandSpec, failure: Option<String> },
    /// Write `contents` to the file at `path`.
    WriteFile { path: String, contents: String },
    /// Read the file at `path`, change its text with `edit`, and write it back.
    EditFile { path: String, edit: Edit },
    /// Make `link` a symbolic link to `target`.
    Symlink { target: String, link: String },
    /// Create the directory at `path` with its parents.
    CreateDir(String),
    /// Remove the file at `path`; a failure is ignored.
    RemoveFile(String),
    /// Remove the directory at `path` with its contents; a failure is ignored.
    RemoveDir(String),
    /// Stop the run with this message.
    Fail(String),
}

/// A [`Step`] in terms of plain values.
pub enum StepModel {
    Say(Seq<char>),
    Run { command: CommandModel, failure: Option<Seq<char>> },
    WriteFile { path: Seq<char>, contents: Seq<char> },
    EditFile { path: Seq<char>, edit: EditModel },
    Symlink { target: Seq<char>, link: Seq<char> },
    CreateDir(Seq<char>),
    RemoveFile(Seq<char>),
    RemoveDir(Seq<char>),
    Fail(Seq<char>),
}

impl View for Step {
    type V = StepModel;

    open spec fn view(&self) -> StepModel {
        match self {
            Step::Say(m) => StepModel::Say(m@),
            Step::Run { command, failure } => StepModel::Run {
                command: command@,
                failure: failure.deep_view(),
            },
            Step::WriteFile { path, contents } => StepModel::WriteFile {
                path: path@,
                contents: contents@,
            },
            Step::EditFile { path, edit } => StepModel::EditFile { path: path@, edit: edit@ },
            Step::Symlink { target, link } => StepModel::Symlink { target: target@, link: link@ },
            Step::CreateDir(p) => StepModel::CreateDir(p@),
            Step::RemoveFile(p) => StepModel::RemoveFile(p@),
            Step::RemoveDir(p) => StepModel::RemoveDir(p@),
            Step::Fail(m) => StepModel::Fail(m@),
        }
    }
}

/// Why a run stopped.
#[derive(Debug, Clone, PartialEq, Eq)]
pub enum SetupError {
    /// The installer was not started by `root`.
    NotRoot,
    /// The two passwords typed did not match.
    PasswordMismatch,
    /// A step failed; the message says which.
    Failed(String),
}

impl SetupError {
    /// The message the installer reports.
    pub fn message(&self) -> (res: String)
        ensures
            res@ == match self {
                SetupError::NotRoot => "You must run this script as root"@,
                SetupError::PasswordMismatch => "Passwords do not match!"@,
                SetupError::Failed(m) => m@,
            },
    {
        match self {
            SetupError::NotRoot => owned("You must run this script as root"),
            SetupError::PasswordMismatch => owned("Passwords do not match!"),
            SetupError::Failed(m) => owned(m.as_str()),
        }
    }
}

impl StepModel {
    /// The step stops the run, given whether the command it ran (if any)
    /// exited successfully.
    pub open spec fn stops(self, success: bool) -> bool {
        match self {
            StepModel::Fail(_) => true,
            StepModel::Run { failure, .. } => failure is Some && !success,
            _ => false,
        }
    }

    /// The message with which the step stops the run.
    pub open spec fn stop_message(self) -> Seq<char> {
        match self {
            StepModel::Fail(m) => m,
            StepModel::Run { failure, .. } => failure->0,
            _ => Seq::empty(),
        }
    }
}

impl Step {
    /// What the run concludes once this step has been performed: `success`
    /// tells whether the command it ran exited successfully (it is not read
    /// for steps that run no command).
    pub fn conclude(&self, success: bool) -> (res: Result<(), SetupError>)
        ensures
            res is Err <==> self@.stops(success),
            res matches Err(e) ==> e matches SetupError::Failed(m) && m@ == self@.stop_message(),
            is_plain_step(self@) ==> res is Ok,
            self@ matches StepModel::Run { failure: None, .. } ==> res is Ok,
            self@ matches StepModel::Run { failure: Some(m), .. } ==> (res is Ok <==> success) && (
            res matches Err(e) ==> e matches SetupError::Failed(t) && t@ == m),
            self@ matches StepModel::Fail(m) ==> (res matches Err(e) && e matches SetupError::Failed(t)
                && t@ == m),
    {
        match self {
            Step::Fail(m) => Err(SetupError::Failed(owned(m.as_str()))),
            Step::Run { command: _, failure } => match failure {
                Some(m) => {
                    if success {
                        Ok(())
                    } else {
                        Err(SetupError::Failed(owned(m.as_str())))
                    }
                },
                None => Ok(()),
            },
            _ => Ok(()),
        }
    }
}

/// A sequence of steps, performed in order.
#[derive(Debug, Clone, PartialEq, Eq)]
pub struct Plan {
    pub steps: Vec<Step>,
}

/// The plain values of a sequence of steps.
pub open spec fn steps_model(steps: Seq<Step>) -> Seq<StepModel> {
    steps.map_values(|s: Step| s@)
}

impl View for Plan {
    type V = Seq<StepModel>;

    open spec fn view(&self) -> Seq<StepModel> {
        steps_model(self.steps@)
    }
}

impl Plan {
    /// A plan with no steps.
    pub fn new() -> (res: Plan)
        ensures
            res@ == Seq::<StepModel>::empty(),
    {
        let res = Plan { steps: Vec::new() };
        assert(res@ =~= Seq::<StepModel>::empty());
        res
    }

    /// Adds a step at the end.
    pub fn push(&mut self, step: Step)
        ensures
            final(self)@ == old(self)@.push(step@),
    {
        self.steps.push(step);
        assert(self@ =~= old(self)@.push(step@));
    }

    /// Adds the steps of `other` at the end.
    pub fn append(&mut self, other: Plan)
        ensures
            final(self)@ == old(self)@ + other@,
    {
        let ghost added = other@;
        let mut other = other;
        self.steps.append(&mut other.steps);
        assert(self@ =~= old(self)@ + added);
    }
}

/// Where a run goes once a step has been performed.
#[derive(Debug, Clone, PartialEq, Eq)]
pub enum Progress {
    /// Perform the step at this index next.
    Next(usize),
    /// Every step has been performed.
    Finished,
    /// The run stops with this error.
    Stopped(SetupError),
}

/// The index of the first step, from index `i` on, that stops a run when
/// the command of each step `j` succeeded exactly where `successes[j]` holds;
/// `None` where no step does.
pub open spec fn first_stop_from(plan: Seq<StepModel>, successes: Seq<bool>, i: nat) -> Option<int>
    decreases plan.len() - i,
{
    if i >= plan.len() {
        None
    } else if plan[i as int].stops(successes[i as int]) {
        Some(i as int)
    } else {
        first_stop_from(plan, successes, i + 1)
    }
}

/// What a run of `plan` does when the command of each step `j` succeeds
/// exactly where `successes[j]` holds: it performs the steps in order up to
/// and including the first one that stops it, and stops with that step's
/// message; where none stops it, it performs them all. The result is the
/// number of steps performed and the message, if the run stopped.
pub open spec fn run_outcome(plan: Seq<StepModel>, successes: Seq<bool>) -> (int, Option<Seq<char>>) {
    match first_stop_from(plan, successes, 0) {
        Some(k) => (k + 1, Some(plan[k].stop_message())),
        None => (plan.len() as int, None),
    }
}

impl Plan {
    /// Where a run of the plan begins: at the first step, if there is one.
    pub fn start(&self) -> (res: Progress)
        ensures
            self@.len() == 0 ==> res is Finished,
            self@.len() > 0 ==> res == Progress::Next(0),
    {
        if self.steps.len() == 0 {
            Progress::Finished
        } else {
            Progress::Next(0)
        }
    }

    /// Where a run goes once the step at `index` has been performed;
    /// `success` tells whether its command (if any) exited successfully.
    pub fn after(&self, index: usize, success: bool) -> (res: Progress)
        requires
            index < self@.len(),
        ensures
            self@[index as int].stops(success) ==> (res matches Progress::Stopped(e) && e matches SetupError::Failed(m)
                && m@ == self@[index as int].stop_message()),
            !self@[index as int].stops(success) && index + 1 < self@.len() ==> res == Progress::Next(
                (index + 1) as usize,
            ),
            !self@[index as int].stops(success) && index + 1 == self@.len() ==> res is Finished,
            is_plain_step(self@[index as int]) && index + 1 < self@.len() ==> res == Progress::Next(
                (index + 1) as usize,
            ),
            is_plain_step(self@[index as int]) && index + 1 == self@.len() ==> res is Finished,
    {
        assert(self@.len() == self.steps@.len());
        assert(self@[index as int] == self.steps@[index as int]@);
        match self.steps[index].conclude(success) {
            Err(e) => Progress::Stopped(e),
            Ok(()) => {
                let n = self.steps.len();
                if index < n - 1 {
                    Progress::Next(index + 1)
                } else {
                    Progress::Finished
                }
            },
        }
    }

    /// What a run of the plan does when the command of each step `j`
    /// succeeds exactly where `successes[j]` holds, following [`Plan::start`]
    /// and [`Plan::after`] as the installer does: the number of steps
    /// performed and the error the run stops with, if any.
    pub fn replay(&self, successes: &Vec<bool>) -> (res: (usize, Option<SetupError>))
        requires
            successes@.len() == self@.len(),
        ensures
            res.0 == run_outcome(self@, successes@).0,
            res.1 is Some <==> run_outcome(self@, successes@).1 is Some,
            res.1 matches Some(e) ==> e matches SetupError::Failed(m) && m@ == run_outcome(
                self@,
                successes@,
            ).1->0,
    {
        assert(self@.len() == self.steps@.len());
        let n = self.steps.len();
        let mut i: usize = match self.start() {
            Progress::Next(j) => j,
            _ => {
                return (0, None);
            },
        };
        loop
            invariant
                i < self@.len(),
                self@.len() == n,
                successes@.len() == self@.len(),
                first_stop_from(self@, successes@, 0) == first_stop_from(self@, successes@, i as nat),
            decreases self@.len() - i,
        {
            match self.after(i, successes[i]) {
                Progress::Next(j) => {
                    i = j;
                },
                Progress::Finished => {
                    assert(first_stop_from(self@, successes@, (i + 1) as nat) is None);
                    return (i + 1, None);
                },
                Progress::Stopped(e) => {
                    return (i + 1, Some(e));
                },
            }
        }
    }
}

/// A step that runs no command and is not a `Fail` step: it prints,
/// writes, edits, links, creates or removes.
pub open spec fn is_plain_step(step: StepModel) -> bool {
    ||| step is Say
    ||| step is WriteFile
    ||| step is EditFile
    ||| step is Symlink
    ||| step is CreateDir
    ||| step is RemoveFile
    ||| step is RemoveDir
}

/// Law: what stops a run. A step that prints, writes, edits, links,
/// creates or removes never stops it, whatever happened; a `Fail` step
/// always stops it, with its own message; a command stops it exactly when
/// it has a failure message and did not succeed, and then with that
/// message; an unchecked command never stops it.
pub proof fn law_what_stops_a_run(step: StepModel, success: bool)
    ensures
        is_plain_step(step) ==> !step.stops(success),
        step matches StepModel::Fail(m) ==> step.stops(success) && step.stop_message() == m,
        step matches StepModel::Run { failure: None, .. } ==> !step.stops(success),
        step matches StepModel::Run { failure: Some(m), .. } ==> (step.stops(success) <==> !success)
            && step.stop_message() == m,
{
}

/// No step from index `i` on stops a run when every such step is plain.
proof fn lemma_plain_steps_never_stop(plan: Seq<StepModel>, successes: Seq<bool>, i: nat)
    requires
        forall|j: int| 0 <= j < plan.len() ==> is_plain_step(#[trigger] plan[j]),
    ensures
        first_stop_from(plan, successes, i) is None,
    decreases plan.len() - i,
{
    if i < plan.len() {
        law_what_stops_a_run(plan[i as int], successes[i as int]);
        lemma_plain_steps_never_stop(plan, successes, i + 1);
    }
}

/// Law: a run of a plan whose steps only print, write, edit, link, create
/// or remove performs every step and does not stop, whatever the outcomes.
pub proof fn law_plain_plan_runs_through(plan: Seq<StepModel>, successes: Seq<bool>)
    requires
        forall|j: int| 0 <= j < plan.len() ==> is_plain_step(#[trigger] plan[j]),
    ensures
        run_outcome(plan, successes) == (plan.len() as int, None::<Seq<char>>),
{
    lemma_plain_steps_never_stop(plan, successes, 0);
}

/// Law: a run of a plan whose commands all succeed stops exactly at its
/// first `Fail` step, if it has one.
pub proof fn law_successful_run_stops_only_at_fail(plan: Seq<StepModel>, successes: Seq<bool>, i: nat)
    requires
        successes.len() == plan.len(),
        forall|j: int| 0 <= j < plan.len() ==> #[trigger] successes[j],
    ensures
        first_stop_from(plan, successes, i) matches Some(k) ==> plan[k] is Fail && i <= k
            && forall|j: int| i <= j < k ==> !(#[trigger] plan[j] is Fail),
        first_stop_from(plan, successes, i) is None ==> forall|j: int|
            i <= j < plan.len() ==> !(#[trigger] plan[j] is Fail),
    decreases plan.len() - i,
{
    if i < plan.len() {
        law_what_stops_a_run(plan[i as int], successes[i as int]);
        law_successful_run_stops_only_at_fail(plan, successes, i + 1);
    }
}

/// Owned copies of `items`.
pub fn texts(items: Vec<&str>) -> (res: Vec<String>)
    ensures
        res.deep_view() == items@.map_values(|s: &str| s@),
{
    let mut res: Vec<String> = Vec::new();
    let mut i: usize = 0;
    while i < items.len()
        invariant
            i <= items.len(),
            res.deep_view() == items@.take(i as int).map_values(|s: &str| s@),
        decreases items.len() - i,
    {
        let ghost old_dv = res.deep_view();
        res.push(owned(items[i]));
        assert(res.deep_view() =~= old_dv.push(items@[i as int]@));
        assert(items@.take(i + 1).map_values(|s: &str| s@) =~= items@.take(i as int).map_values(
            |s: &str| s@,
        ).push(items@[i as int]@));
        i += 1;
    }
    assert(items@.take(items.len() as int) == items@);
    res
}

} // verus!
