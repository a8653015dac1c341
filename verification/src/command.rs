//! External programs to run, and the work the application hands to the
//! system: file operations, program runs, and background processes.
use vstd::prelude::*;
use crate::text::{
    cat, chars_of, owned, signed_decimal, signed_decimal_string, string_from_chars, trim,
    trim_chars, CharClass,
};

verus! {

/// Where a started program's standard output and error go.
pub enum Output {
    /// Shared with the application.
    Inherit,
    /// Discarded.
    Discard,
    /// Standard output captured for reading, standard error discarded.
    CaptureStdout,
    /// Both written to the log file at this path (created by an earlier step).
    Log(String),
}

pub enum OutputView {
    Inherit,
    Discard,
    CaptureStdout,
    Log(Seq<char>),
}

impl View for Output {
    type V = OutputView;

    open spec fn view(&self) -> OutputView {
        match self {
            Output::Inherit => OutputView::Inherit,
            Output::Discard => OutputView::Discard,
            Output::CaptureStdout => OutputView::CaptureStdout,
            Output::Log(p) => OutputView::Log(p@),
        }
    }
}

/// A program to run: its name, arguments, working directory, extra
/// environment variables, and where its output goes.
pub struct CommandSpec {
    pub program: String,
    pub args: Vec<String>,
    pub cwd: Option<String>,
    pub env: Vec<(String, String)>,
    pub output: Output,
}

pub struct CommandView {
    pub program: Seq<char>,
    pub args: Seq<Seq<char>>,
    pub cwd: Option<Seq<char>>,
    pub env: Seq<(Seq<char>, Seq<char>)>,
    pub output: OutputView,
}

impl View for CommandSpec {
    type V = CommandView;

    open spec fn view(&self) -> CommandView {
        CommandView {
            program: self.program@,
            args: self.args@.map_values(|a: String| a@),
            cwd: match self.cwd {
                Some(c) => Some(c@),
                None => None,
            },
            env: self.env@.map_values(|e: (String, String)| (e.0@, e.1@)),
            output: self.output@,
        }
    }
}

/// A command without arguments, run in the application's directory with
/// its output shared.
pub open spec fn command_view(program: Seq<char>) -> CommandView {
    CommandView {
        program,
        args: Seq::empty(),
        cwd: None,
        env: Seq::empty(),
        output: OutputView::Inherit,
    }
}

impl CommandSpec {
    pub fn new(program: &str) -> (c: CommandSpec)
        ensures
            c@ == command_view(program@),
    {
        let c = CommandSpec {
            program: owned(program),
            args: Vec::new(),
            cwd: None,
            env: Vec::new(),
            output: Output::Inherit,
        };
        assert(c@.args =~= Seq::<Seq<char>>::empty());
        assert(c@.env =~= Seq::<(Seq<char>, Seq<char>)>::empty());
        c
    }

    /// Adds one argument.
    pub fn arg(&mut self, a: &str)
        ensures
            final(self)@ == (CommandView { args: old(self)@.args.push(a@), ..old(self)@ }),
    {
        let ghost before = self.args@;
        self.args.push(owned(a));
        assert(self.args@.map_values(|x: String| x@) =~= before.map_values(|x: String| x@).push(a@));
    }

    /// Sets the working directory.
    pub fn current_dir(&mut self, dir: &str)
        ensures
            final(self)@ == (CommandView { cwd: Some(dir@), ..old(self)@ }),
    {
        self.cwd = Some(owned(dir));
    }

    /// Adds an environment variable.
    pub fn env_var(&mut self, key: &str, value: &str)
        ensures
            final(self)@ == (CommandView { env: old(self)@.env.push((key@, value@)), ..old(self)@ }),
    {
        let ghost before = self.env@;
        self.env.push((owned(key), owned(value)));
        assert(self.env@.map_values(|e: (String, String)| (e.0@, e.1@)) =~= before.map_values(
            |e: (String, String)| (e.0@, e.1@),
        ).push((key@, value@)));
    }

    /// Sets where the output goes.
    pub fn set_output(&mut self, output: Output)
        ensures
            final(self)@ == (CommandView { output: output@, ..old(self)@ }),
    {
        self.output = output;
    }
}

/// One piece of work on the file system, or a program run to completion.
pub enum Action {
    /// Create a directory and its missing parents.
    CreateDirAll(String),
    /// Create (or truncate) a log file, then open a second handle to it.
    CreateLog(String),
    /// Copy a file.
    Copy(String, String),
    /// Remove a file.
    RemoveFile(String),
    /// Remove a directory and everything in it.
    RemoveDirAll(String),
    /// Move a file or directory.
    Rename(String, String),
    /// Read a file's permissions, then make it read-only.
    MakeReadonly(String),
    /// Create a symbolic link: the target, then the link's path.
    Symlink(String, String),
    /// Run a program to completion and require it to succeed.
    Run(CommandSpec),
}

pub enum ActionView {
    CreateDirAll(Seq<char>),
    CreateLog(Seq<char>),
    Copy(Seq<char>, Seq<char>),
    RemoveFile(Seq<char>),
    RemoveDirAll(Seq<char>),
    Rename(Seq<char>, Seq<char>),
    MakeReadonly(Seq<char>),
    Symlink(Seq<char>, Seq<char>),
    Run(CommandView),
}

impl View for Action {
    type V = ActionView;

    open spec fn view(&self) -> ActionView {
        match self {
            Action::CreateDirAll(p) => ActionView::CreateDirAll(p@),
            Action::CreateLog(p) => ActionView::CreateLog(p@),
            Action::Copy(a, b) => ActionView::Copy(a@, b@),
            Action::RemoveFile(p) => ActionView::RemoveFile(p@),
            Action::RemoveDirAll(p) => ActionView::RemoveDirAll(p@),
            Action::Rename(a, b) => ActionView::Rename(a@, b@),
            Action::MakeReadonly(p) => ActionView::MakeReadonly(p@),
            Action::Symlink(a, b) => ActionView::Symlink(a@, b@),
            Action::Run(c) => ActionView::Run(c@),
        }
    }
}

/// An action and the status shown when it goes wrong: `on_error` is
/// followed by the error of its first part (the operation itself, or
/// starting the program), `on_failure` by that of its second part (opening
/// the second log handle, setting the permissions, or the program's
/// standard error when it exits unsuccessfully).
pub struct Step {
    pub action: Action,
    pub on_error: String,
    pub on_failure: String,
}

pub struct StepView {
    pub action: ActionView,
    pub on_error: Seq<char>,
    pub on_failure: Seq<char>,
}

impl View for Step {
    type V = StepView;

    open spec fn view(&self) -> StepView {
        StepView { action: self.action@, on_error: self.on_error@, on_failure: self.on_failure@ }
    }
}

pub open spec fn step_view(action: ActionView, on_error: Seq<char>, on_failure: Seq<char>) -> StepView {
    StepView { action, on_error, on_failure }
}

/// How a step went wrong, with the error's text.
pub enum StepError {
    /// The first part of the step failed.
    Error(String),
    /// The second part failed; for a program run, its standard error.
    Failure(String),
}

pub open spec fn is_run(a: ActionView) -> bool {
    a is Run
}

/// The status shown when a step goes wrong: the prefix for that part,
/// then the error (a program's standard error with white space trimmed).
pub open spec fn spec_step_failure_status(step: StepView, e: StepError) -> Seq<char> {
    match e {
        StepError::Error(m) => step.on_error + m@,
        StepError::Failure(m) => if is_run(step.action) {
            step.on_failure + trim(m@)
        } else {
            step.on_failure + m@
        },
    }
}

pub fn step_failure_status(step: &Step, e: &StepError) -> (s: String)
    ensures
        s@ == spec_step_failure_status(step@, *e),
{
    match e {
        StepError::Error(m) => cat(step.on_error.as_str(), m.as_str()),
        StepError::Failure(m) => {
            match &step.action {
                Action::Run(_) => {
                    let v = chars_of(m.as_str());
                    let t = trim_chars(v.as_slice(), CharClass::Whitespace);
                    let ts = string_from_chars(t.as_slice());
                    cat(step.on_failure.as_str(), ts.as_str())
                },
                _ => cat(step.on_failure.as_str(), m.as_str()),
            }
        },
    }
}

/// Work for the application to carry out: the steps in order, stopping at
/// the first that goes wrong, then possibly a background process to start.
/// `on_done` is the status once every step succeeded (and the process, if
/// any, started); `on_spawn_error` precedes the error when the process
/// could not be started.
pub struct Job {
    pub steps: Vec<Step>,
    pub spawn: Option<CommandSpec>,
    pub on_done: Option<String>,
    pub on_spawn_error: String,
}

pub struct JobView {
    pub steps: Seq<StepView>,
    pub spawn: Option<CommandView>,
    pub on_done: Option<Seq<char>>,
    pub on_spawn_error: Seq<char>,
}

impl View for Job {
    type V = JobView;

    open spec fn view(&self) -> JobView {
        JobView {
            steps: self.steps@.map_values(|s: Step| s@),
            spawn: match self.spawn {
                Some(c) => Some(c@),
                None => None,
            },
            on_done: match self.on_done {
                Some(s) => Some(s@),
                None => None,
            },
            on_spawn_error: self.on_spawn_error@,
        }
    }
}

/// What became of a job.
pub enum Report {
    /// The step with this index went wrong; the ones after it were not tried.
    StepFailed(usize, StepError),
    /// Every step succeeded and there was no process to start.
    Finished,
    /// Every step succeeded and the process started.
    Spawned,
    /// Every step succeeded but the process could not be started.
    SpawnFailed(String),
}

/// A task's displayed status and whether its background process runs.
pub struct Task {
    pub status: String,
    pub running: bool,
}

/// The status and running flag after a report on a job.
pub open spec fn spec_after_report(
    status: Seq<char>,
    running: bool,
    job: JobView,
    report: Report,
) -> (Seq<char>, bool) {
    match report {
        Report::StepFailed(i, e) => (spec_step_failure_status(job.steps[i as int], e), running),
        Report::Finished => (
            match job.on_done {
                Some(s) => s,
                None => status,
            },
            running,
        ),
        Report::Spawned => (
            match job.on_done {
                Some(s) => s,
                None => status,
            },
            true,
        ),
        Report::SpawnFailed(e) => (job.on_spawn_error + e@, running),
    }
}

pub open spec fn report_fits(job: JobView, report: Report) -> bool {
    report matches Report::StepFailed(i, _) ==> i < job.steps.len()
}

impl Task {
    pub fn new(status: &str) -> (t: Task)
        ensures
            t.status@ == status@,
            !t.running,
    {
        Task { status: owned(status), running: false }
    }

    /// Records what became of a job.
    pub fn apply_report(&mut self, job: &Job, report: Report)
        requires
            report_fits(job@, report),
        ensures
            (final(self).status@, final(self).running) == spec_after_report(
                old(self).status@,
                old(self).running,
                job@,
                report,
            ),
    {
        let (s, r) = resolve_report(&self.status, self.running, job, &report);
        self.status = s;
        self.running = r;
    }
}

/// The status and running flag after a report on a job.
pub fn resolve_report(status: &String, running: bool, job: &Job, report: &Report) -> (r: (String, bool))
    requires
        report_fits(job@, *report),
    ensures
        (r.0@, r.1) == spec_after_report(status@, running, job@, *report),
{
    match report {
        Report::StepFailed(i, e) => {
            let i = *i;
            assert(job@.steps[i as int] == job.steps@[i as int]@);
            (step_failure_status(&job.steps[i], e), running)
        },
        Report::Finished => {
            match &job.on_done {
                Some(s) => (s.clone(), running),
                None => (status.clone(), running),
            }
        },
        Report::Spawned => {
            match &job.on_done {
                Some(s) => (s.clone(), true),
                None => (status.clone(), true),
            }
        },
        Report::SpawnFailed(e) => (cat(job.on_spawn_error.as_str(), e.as_str()), running),
    }
}

/// What a look at a background process calls for: whether the window
/// should be drawn again soon, and work to carry out now.
pub struct Progress {
    pub repaint: bool,
    pub job: Option<Job>,
}

/// What the application learned when it looked at a background process.
pub enum Poll {
    /// It is still running.
    Running,
    /// It exited: whether it succeeded, its exit code, and the exit status
    /// as the system describes it.
    Exited { success: bool, code: Option<i32>, description: String },
    /// Its state could not be read.
    Failed(String),
}


/// `{:?}` of an exit code: `Some(n)` or `None`.
pub open spec fn code_debug(code: Option<i32>) -> Seq<char> {
    match code {
        Some(n) => "Some("@ + signed_decimal(n as int) + ")"@,
        None => "None"@,
    }
}

pub fn describe_code(code: Option<i32>) -> (s: String)
    ensures
        s@ == code_debug(code),
{
    match code {
        Some(n) => {
            let d = signed_decimal_string(n);
            crate::text::cat3("Some(", d.as_str(), ")")
        },
        None => owned("None"),
    }
}

/// A program run to completion: whether it succeeded, and what it wrote
/// to its standard output and standard error; or why it could not be run.
pub enum RunResult {
    Ran { success: bool, stdout: String, stderr: String },
    NotRun(String),
}


pub open spec fn step_views(v: Seq<Step>) -> Seq<StepView> {
    v.map_values(|s: Step| s@)
}

/// A step with its two status prefixes.
pub fn step(action: Action, on_error: &str, on_failure: &str) -> (s: Step)
    ensures
        s@ == step_view(action@, on_error@, on_failure@),
{
    Step { action, on_error: owned(on_error), on_failure: owned(on_failure) }
}

/// Appends a step.
pub fn push_step(v: &mut Vec<Step>, s: Step)
    ensures
        step_views(final(v)@) == step_views(old(v)@).push(s@),
{
    let ghost sv = s@;
    v.push(s);
    assert(step_views(v@) =~= step_views(old(v)@).push(sv));
}

/// A job made of these parts.
pub fn make_job(steps: Vec<Step>, spawn: Option<CommandSpec>, on_done: Option<String>, on_spawn_error: &str) -> (j: Job)
    ensures
        j@ == (JobView {
            steps: step_views(steps@),
            spawn: match spawn {
                Some(c) => Some(c@),
                None => None,
            },
            on_done: match on_done {
                Some(s) => Some(s@),
                None => None,
            },
            on_spawn_error: on_spawn_error@,
        }),
{
    Job { steps, spawn, on_done, on_spawn_error: owned(on_spawn_error) }
}


/// Only a process that started makes a task run: every other outcome of a
/// job leaves the running flag as it was.
pub proof fn lemma_report_running(status: Seq<char>, running: bool, job: JobView, report: Report)
    ensures
        spec_after_report(status, running, job, report).1 == (running || report is Spawned),
{
}

} // verus!
