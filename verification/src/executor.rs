//! Running a pipeline, step by step. The execution decides what has to be
//! done next: change the working directory, start a program, wait for the
//! last one. Whoever drives it does that and tells how it went; the execution
//! takes it from there. No process, stream or directory is touched here.

use crate::pipeline::{plan, plan_of, stage_views, Resolution, Stage, StageView};
use crate::text::{same, texts};
use vstd::prelude::*;
use vstd::string::*;

verus! {

/// Where a started program reads its standard input from.
#[derive(Clone, Copy, Debug, PartialEq, Eq, Structural)]
pub enum Source {
    /// The shell's own standard input.
    Shell,
    /// The standard output of the stage with this index, which was started
    /// with `Sink::Pipe`.
    Stage(usize),
}

/// Where a started program writes its standard output to.
#[derive(Clone, Copy, Debug, PartialEq, Eq, Structural)]
pub enum Sink {
    /// The shell's own standard output.
    Shell,
    /// A pipe that the next stage can read from.
    Pipe,
}

/// What has to be done next for a pipeline.
#[derive(Debug, PartialEq, Eq)]
pub enum Command {
    /// Make `target` the working directory. No program is started.
    ChangeDirectory { target: String },
    /// Start `program` with `arguments` in `directory`, wired to `input` and
    /// `output`, and do not wait for it.
    Start { program: String, arguments: Vec<String>, input: Source, output: Sink, directory: String },
    /// Wait until the program of the stage with this index has ended.
    Wait { stage: usize },
    /// Nothing: the pipeline is through.
    Finished,
}

/// A `Command`, as sequences of characters.
pub enum CommandView {
    ChangeDirectory { target: Seq<char> },
    Start {
        program: Seq<char>,
        arguments: Seq<Seq<char>>,
        input: Source,
        output: Sink,
        directory: Seq<char>,
    },
    Wait { stage: usize },
    Finished,
}

impl View for Command {
    type V = CommandView;

    open spec fn view(&self) -> CommandView {
        match self {
            Command::ChangeDirectory { target } => CommandView::ChangeDirectory { target: target@ },
            Command::Start { program, arguments, input, output, directory } => CommandView::Start {
                program: program@,
                arguments: texts(arguments@),
                input: *input,
                output: *output,
                directory: directory@,
            },
            Command::Wait { stage } => CommandView::Wait { stage: *stage },
            Command::Finished => CommandView::Finished,
        }
    }
}

/// What went wrong at one step of a pipeline. None of these ends the
/// pipeline, let alone the shell.
#[derive(Debug, PartialEq, Eq)]
pub enum Failure {
    /// The program could not be started.
    Spawn { program: String, reason: String },
    /// The working directory could not be changed to `path`.
    Directory { path: String, reason: String },
    /// The end of the last program could not be observed.
    Wait { reason: String },
}

/// A `Failure`, as sequences of characters.
pub enum FailureView {
    Spawn { program: Seq<char>, reason: Seq<char> },
    Directory { path: Seq<char>, reason: Seq<char> },
    Wait { reason: Seq<char> },
}

impl View for Failure {
    type V = FailureView;

    open spec fn view(&self) -> FailureView {
        match self {
            Failure::Spawn { program, reason } => FailureView::Spawn {
                program: program@,
                reason: reason@,
            },
            Failure::Directory { path, reason } => FailureView::Directory {
                path: path@,
                reason: reason@,
            },
            Failure::Wait { reason } => FailureView::Wait { reason: reason@ },
        }
    }
}

impl FailureView {
    /// The line that tells of this failure: its kind, what it was about, and
    /// the reason.
    pub open spec fn describe(self) -> Seq<char> {
        match self {
            FailureView::Spawn { program, reason } => "SpawnError: "@ + program + ": "@ + reason,
            FailureView::Directory { path, reason } => "DirectoryError: "@ + path + ": "@ + reason,
            FailureView::Wait { reason } => "WaitError: "@ + reason,
        }
    }
}

impl Failure {
    /// The line that tells of this failure.
    pub fn describe(&self) -> (r: String)
        ensures
            r@ == self@.describe(),
    {
        match self {
            Failure::Spawn { program, reason } => {
                let mut text = "SpawnError: ".to_owned();
                text.append(program.as_str());
                text.append(": ");
                text.append(reason.as_str());
                text
            },
            Failure::Directory { path, reason } => {
                let mut text = "DirectoryError: ".to_owned();
                text.append(path.as_str());
                text.append(": ");
                text.append(reason.as_str());
                text
            },
            Failure::Wait { reason } => {
                let mut text = "WaitError: ".to_owned();
                text.append(reason.as_str());
                text
            },
        }
    }
}

/// How a step went, as a sequence of characters where it failed.
pub open spec fn outcome_view(outcome: Result<(), String>) -> Result<(), Seq<char>> {
    match outcome {
        Ok(_) => Ok(()),
        Err(reason) => Err(reason@),
    }
}

/// The failure that is reported, as a sequence of characters where there is
/// one.
pub open spec fn report_view(report: Option<Failure>) -> Option<FailureView> {
    match report {
        Some(failure) => Some(failure@),
        None => None,
    }
}

/// Whether `path` starts at the root.
pub open spec fn is_absolute(path: Seq<char>) -> bool {
    path.len() > 0 && path[0] == '/'
}

/// The directory that `path` names when `base` is the working directory:
/// `path` itself where it is absolute or `base` is empty, else `path` joined
/// to `base` with one slash between them.
pub open spec fn resolved(base: Seq<char>, path: Seq<char>) -> Seq<char> {
    if is_absolute(path) || base.len() == 0 {
        path
    } else if base.last() == '/' {
        base + path
    } else {
        base + seq!['/'] + path
    }
}

/// Whether `stage` changes the working directory instead of starting a
/// program.
pub open spec fn changes_directory(stage: StageView) -> bool {
    stage.program == "cd"@
}

/// The directory that a directory-change stage asks for: its first
/// argument, or the root where it has none.
pub open spec fn requested(stage: StageView) -> Seq<char> {
    if stage.arguments.len() > 0 {
        stage.arguments[0]
    } else {
        "/"@
    }
}

/// The state of a pipeline run.
pub struct ExecutionView {
    /// The stages, in the order in which they are taken up.
    pub stages: Seq<StageView>,
    /// How many stages have been taken up.
    pub cursor: nat,
    /// The index of the stage whose program is running and whose handle is
    /// held, if there is one.
    pub upstream: Option<usize>,
}

/// A state after a step: the run, the working directory, and the failure to
/// report, if the step failed.
pub struct Settled {
    pub execution: ExecutionView,
    pub directory: Seq<char>,
    pub report: Option<FailureView>,
}

impl ExecutionView {
    /// The handle that is held, if any, is that of the stage taken up last.
    pub open spec fn well_formed(self) -> bool {
        &&& self.cursor <= self.stages.len()
        &&& self.stages.len() <= usize::MAX
        &&& match self.upstream {
            Some(i) => i + 1 == self.cursor,
            None => true,
        }
    }

    /// The run of `stages` before its first step.
    pub open spec fn fresh(stages: Seq<StageView>) -> ExecutionView {
        ExecutionView { stages, cursor: 0, upstream: None }
    }

    /// What has to be done next when `directory` is the working directory.
    pub open spec fn pending(self, directory: Seq<char>) -> CommandView {
        if self.cursor < self.stages.len() {
            let stage = self.stages[self.cursor as int];
            if changes_directory(stage) {
                CommandView::ChangeDirectory { target: resolved(directory, requested(stage)) }
            } else {
                CommandView::Start {
                    program: stage.program,
                    arguments: stage.arguments,
                    input: match self.upstream {
                        Some(i) => Source::Stage(i),
                        None => Source::Shell,
                    },
                    output: if self.cursor + 1 < self.stages.len() {
                        Sink::Pipe
                    } else {
                        Sink::Shell
                    },
                    directory,
                }
            }
        } else {
            match self.upstream {
                Some(i) => CommandView::Wait { stage: i },
                None => CommandView::Finished,
            }
        }
    }

    /// The state after the pending command was carried out with `outcome`.
    pub open spec fn settle(self, directory: Seq<char>, outcome: Result<(), Seq<char>>) -> Settled {
        match self.pending(directory) {
            CommandView::ChangeDirectory { target } => Settled {
                execution: ExecutionView { cursor: self.cursor + 1, upstream: None, ..self },
                directory: match outcome {
                    Ok(_) => target,
                    Err(_) => directory,
                },
                report: match outcome {
                    Ok(_) => None,
                    Err(reason) => Some(FailureView::Directory { path: target, reason }),
                },
            },
            CommandView::Start { program, .. } => Settled {
                execution: ExecutionView {
                    cursor: self.cursor + 1,
                    upstream: match outcome {
                        Ok(_) => Some(self.cursor as usize),
                        Err(_) => None,
                    },
                    ..self
                },
                directory,
                report: match outcome {
                    Ok(_) => None,
                    Err(reason) => Some(FailureView::Spawn { program, reason }),
                },
            },
            CommandView::Wait { .. } => Settled {
                execution: ExecutionView { upstream: None, ..self },
                directory,
                report: match outcome {
                    Ok(_) => None,
                    Err(reason) => Some(FailureView::Wait { reason }),
                },
            },
            CommandView::Finished => Settled { execution: self, directory, report: None },
        }
    }
}

/// The working directory of the shell, kept as a value: a directory-change
/// stage that succeeds sets it, and every program is started in it.
pub struct Context {
    working_directory: String,
}

impl View for Context {
    type V = Seq<char>;

    closed spec fn view(&self) -> Seq<char> {
        self.working_directory@
    }
}

impl Context {
    /// A context whose working directory is `working_directory`.
    pub fn new(working_directory: &str) -> (r: Context)
        ensures
            r@ == working_directory@,
    {
        Context { working_directory: working_directory.to_owned() }
    }

    /// The working directory.
    pub fn working_directory(&self) -> (r: &str)
        ensures
            r@ == self@,
    {
        self.working_directory.as_str()
    }
}

/// Resolves `path` against the working directory `base`.
pub fn resolve(base: &str, path: &str) -> (r: String)
    ensures
        r@ == resolved(base@, path@),
{
    let n: usize = base.unicode_len();
    if n == 0 || (path.unicode_len() > 0 && path.get_char(0) == '/') {
        path.to_owned()
    } else {
        let mut r = base.to_owned();
        if base.get_char(n - 1) != '/' {
            proof {
                reveal_strlit("/");
                assert("/"@ =~= seq!['/']);
            }
            r.append("/");
        }
        r.append(path);
        r
    }
}

/// A copy of `v`.
fn copy_all(v: &Vec<String>) -> (r: Vec<String>)
    ensures
        texts(r@) == texts(v@),
{
    let mut out: Vec<String> = Vec::new();
    let n: usize = v.len();
    let mut k: usize = 0;
    while k < n
        invariant
            n == v.len(),
            k <= n,
            out.len() == k,
            forall|i: int| 0 <= i < k ==> out[i]@ == v[i]@,
        decreases n - k,
    {
        out.push(v[k].clone());
        k += 1;
    }
    proof {
        assert(texts(out@) =~= texts(v@));
    }
    out
}

/// A pipeline run: the stages of one line and how far they have been taken
/// up. It lives for one line.
pub struct Execution {
    stages: Vec<Stage>,
    cursor: usize,
    upstream: Option<usize>,
}

impl View for Execution {
    type V = ExecutionView;

    closed spec fn view(&self) -> ExecutionView {
        ExecutionView {
            stages: stage_views(self.stages@),
            cursor: self.cursor as nat,
            upstream: self.upstream,
        }
    }
}

impl Execution {
    #[verifier::type_invariant]
    spec fn sound(&self) -> bool {
        self@.well_formed()
    }

    /// The run of the pipeline of `line`, before its first step.
    pub fn begin(line: &str, resolution: Resolution) -> (r: Execution)
        ensures
            r@ == ExecutionView::fresh(plan_of(line@, resolution)),
            r@.well_formed(),
    {
        let stages = plan(line, resolution);
        proof {
            assert(stage_views(stages@).len() == stages.len());
        }
        Execution { stages, cursor: 0, upstream: None }
    }

    /// What has to be done next when `context` holds the working directory.
    pub fn pending(&self, context: &Context) -> (r: Command)
        ensures
            self@.well_formed(),
            r@ == self@.pending(context@),
    {
        proof {
            use_type_invariant(self);
        }
        if self.cursor < self.stages.len() {
            let stage = &self.stages[self.cursor];
            if same(stage.program.as_str(), "cd") {
                let wanted: &str = if stage.arguments.len() > 0 {
                    stage.arguments[0].as_str()
                } else {
                    "/"
                };
                Command::ChangeDirectory {
                    target: resolve(context.working_directory.as_str(), wanted),
                }
            } else {
                Command::Start {
                    program: stage.program.clone(),
                    arguments: copy_all(&stage.arguments),
                    input: match self.upstream {
                        Some(i) => Source::Stage(i),
                        None => Source::Shell,
                    },
                    output: if self.cursor + 1 < self.stages.len() {
                        Sink::Pipe
                    } else {
                        Sink::Shell
                    },
                    directory: context.working_directory.clone(),
                }
            }
        } else {
            match self.upstream {
                Some(i) => Command::Wait { stage: i },
                None => Command::Finished,
            }
        }
    }

    /// Takes note of how the pending command went: `Ok` where it was carried
    /// out, `Err` with the reason where it could not be. Hands back the
    /// failure to report, if there is one. The run goes on in either case.
    pub fn settle(&mut self, context: &mut Context, outcome: Result<(), String>) -> (r: Option<
        Failure,
    >)
        ensures
            old(self)@.well_formed(),
            final(self)@.well_formed(),
            final(self)@ == old(self)@.settle(old(context)@, outcome_view(outcome)).execution,
            final(context)@ == old(self)@.settle(old(context)@, outcome_view(outcome)).directory,
            report_view(r) == old(self)@.settle(old(context)@, outcome_view(outcome)).report,
    {
        proof {
            use_type_invariant(&*self);
        }
        match self.pending(context) {
            Command::ChangeDirectory { target } => {
                self.upstream = None;
                self.cursor = self.cursor + 1;
                match outcome {
                    Ok(_) => {
                        context.working_directory = target;
                        None
                    },
                    Err(reason) => Some(Failure::Directory { path: target, reason }),
                }
            },
            Command::Start { program, .. } => {
                let index: usize = self.cursor;
                self.upstream = None;
                self.cursor = self.cursor + 1;
                match outcome {
                    Ok(_) => {
                        self.upstream = Some(index);
                        None
                    },
                    Err(reason) => Some(Failure::Spawn { program, reason }),
                }
            },
            Command::Wait { .. } => {
                self.upstream = None;
                match outcome {
                    Ok(_) => None,
                    Err(reason) => Some(Failure::Wait { reason }),
                }
            },
            Command::Finished => None,
        }
    }

    /// Whether the pipeline is through: nothing is left to do.
    pub fn finished(&self) -> (r: bool)
        ensures
            r == (self@.cursor >= self@.stages.len() && self@.upstream is None),
    {
        self.cursor >= self.stages.len() && self.upstream.is_none()
    }
}

} // verus!
