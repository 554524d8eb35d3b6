//! The task runner: a single external-process invocation, fully configured
//! before anything runs.
//!
//! A `Task` is an explicit configuration record: description, program,
//! ordered arguments, optional working-directory handle, and the two quiet
//! flags. The fluent builder below constructs it step by step, each step
//! returning the new value; a task is consumed by one execution.
//!
//! The execution environment spawns the process, waits for it, writes a
//! piped stdin buffer from its dedicated worker, and captures output when
//! asked to. Everything it must decide is stated and verified here: what to
//! configure before the spawn (`plan`), and what every possible outcome of
//! the wait means (`complete_run`, `complete_stdin_write`, `complete_read`).

use vstd::prelude::*;

use crate::fsview;
use crate::strs_view;
use cap_std::fs::Dir;

verus! {

/// How a finished child process ended: its exit code, or `None` when it was
/// ended by a signal. Success means exit code zero.
#[derive(Debug, Clone, Copy, PartialEq, Eq)]
pub struct Exit {
    pub code: Option<i32>,
}

impl Exit {
    /// The one meaning of success: a zero exit code.
    pub open spec fn is_success(self) -> bool {
        self.code == Some(0i32)
    }

    /// Whether the exit was a success.
    pub fn success(&self) -> (b: bool)
        ensures
            b == self.is_success(),
    {
        match self.code {
            Some(c) => c == 0,
            None => false,
        }
    }
}

/// Why an execution failed.
#[derive(Debug, PartialEq, Eq)]
pub enum TaskError {
    /// The program could not be started at all.
    SpawnFailed { description: String, message: String },
    /// The process ran and exited without success. When output had been
    /// captured instead of printed, the captured bytes ride along so that
    /// the caller can still show them.
    ExitedNonZero { description: String, exit: Exit, captured: Option<Vec<u8>> },
    /// The worker writing the piped stdin buffer failed.
    StdinWriteFailed { description: String, message: String },
    /// Captured stdout was not valid text.
    OutputNotDecodable { description: String },
}

/// `e` reports an unsuccessful exit with exactly this description, exit and
/// captured output.
pub open spec fn exit_failure_with(e: TaskError, d: Seq<char>, x: Exit, c: Option<Vec<u8>>) -> bool {
    &&& e matches TaskError::ExitedNonZero { description, exit, captured }
    &&& description@ == d
    &&& exit == x
    &&& captured == c
}

/// `e` reports undecodable captured output under this description.
pub open spec fn not_decodable_with(e: TaskError, d: Seq<char>) -> bool {
    &&& e matches TaskError::OutputNotDecodable { description }
    &&& description@ == d
}

/// `e` reports a failed stdin write with this description and message.
pub open spec fn stdin_failure_with(e: TaskError, d: Seq<char>, m: Seq<char>) -> bool {
    &&& e matches TaskError::StdinWriteFailed { description, message }
    &&& description@ == d
    &&& message@ == m
}

/// Standard input for one execution: closed, so that the child reads
/// end-of-file at once and nothing can prompt interactively, or a byte
/// buffer piped in whole, after which the pipe is closed.
pub enum StdinMode {
    /// the default: no input at all
    Closed,
    /// the whole buffer, then end-of-file
    Piped(Vec<u8>),
}

/// One fully configured external-process invocation.
pub struct Task {
    /// what to print (and to blame) when the task runs
    pub description: String,
    /// suppress printing the description line
    pub quiet: bool,
    /// capture stdout and stderr instead of printing, unless the task fails
    pub quiet_output: bool,
    /// the program to start
    pub program: String,
    /// its arguments, in order
    pub args: Vec<String>,
    /// the working directory handle, when one was bound
    pub cwd: Option<Dir>,
}

impl Task {
    /// The character sequences of the arguments, in order.
    pub open spec fn args_view(&self) -> Seq<Seq<char>> {
        strs_view(self.args@)
    }

    /// A fresh task: nothing quiet, no arguments, no working directory.
    pub fn new(description: &str, exe: &str) -> (t: Task)
        ensures
            t.description@ == description@,
            t.program@ == exe@,
            t.args_view() =~= Seq::<Seq<char>>::empty(),
            !t.quiet,
            !t.quiet_output,
            t.cwd is None,
    {
        Task {
            description: description.to_owned(),
            quiet: false,
            quiet_output: false,
            program: exe.to_owned(),
            args: Vec::new(),
            cwd: None,
        }
    }

    /// A fresh task described by its own program name, with the description
    /// line suppressed.
    pub fn new_quiet(exe: &str) -> (t: Task)
        ensures
            t.description@ == exe@,
            t.program@ == exe@,
            t.args_view() =~= Seq::<Seq<char>>::empty(),
            t.quiet,
            !t.quiet_output,
            t.cwd is None,
    {
        Task::new(exe, exe).quiet()
    }

    /// Suppresses the description line.
    pub fn quiet(self) -> (t: Task)
        ensures
            t.description == self.description,
            t.program == self.program,
            t.args == self.args,
            t.quiet,
            t.quiet_output == self.quiet_output,
            t.cwd == self.cwd,
    {
        let mut t = self;
        t.quiet = true;
        t
    }

    /// Captures stdout and stderr instead of printing them; the capture is
    /// replayed only if the task fails.
    pub fn quiet_output(self) -> (t: Task)
        ensures
            t.description == self.description,
            t.program == self.program,
            t.args == self.args,
            t.quiet == self.quiet,
            t.quiet_output,
            t.cwd == self.cwd,
    {
        let mut t = self;
        t.quiet_output = true;
        t
    }

    /// Appends one argument.
    pub fn arg(self, a: &str) -> (t: Task)
        ensures
            t.description == self.description,
            t.program == self.program,
            t.quiet == self.quiet,
            t.quiet_output == self.quiet_output,
            t.cwd == self.cwd,
            t.args_view() =~= self.args_view().push(a@),
    {
        let mut t = self;
        t.args.push(a.to_owned());
        proof {
            assert(t.args_view() =~= self.args_view().push(a@));
        }
        t
    }

    /// Appends every argument of the list, in order.
    pub fn args(self, list: &Vec<String>) -> (t: Task)
        ensures
            t.description == self.description,
            t.program == self.program,
            t.quiet == self.quiet,
            t.quiet_output == self.quiet_output,
            t.cwd == self.cwd,
            t.args_view() =~= self.args_view() + strs_view(list@),
    {
        let mut t = self;
        let mut i: usize = 0;
        while i < list.len()
            invariant
                i <= list@.len(),
                t.description == self.description,
                t.program == self.program,
                t.quiet == self.quiet,
                t.quiet_output == self.quiet_output,
                t.cwd == self.cwd,
                t.args_view() =~= self.args_view() + strs_view(list@.take(i as int)),
            decreases list@.len() - i,
        {
            let ghost before = t.args@;
            t.args.push(list[i].clone());
            proof {
                let li = list@[i as int];
                assert(t.args@ =~= before.push(li));
                assert(strs_view(t.args@) =~= strs_view(before).push(li@));
                assert(list@.take(i + 1) =~= list@.take(i as int).push(li));
                assert(strs_view(list@.take(i + 1)) =~= strs_view(list@.take(i as int)).push(
                    li@,
                ));
                assert(strs_view(before).push(li@) =~= self.args_view() + strs_view(
                    list@.take(i + 1),
                ));
            }
            i = i + 1;
        }
        proof {
            assert(list@.take(list@.len() as int) =~= list@);
        }
        t
    }

    /// Binds a working directory: the task's child process will run inside
    /// `dir`, through a duplicate of the handle with the same scope. On
    /// failure to duplicate, the probe's message comes back.
    pub fn cwd(self, dir: &Dir) -> (r: Result<Task, String>)
        ensures
            r matches Ok(t) ==> ({
                &&& t.description == self.description
                &&& t.program == self.program
                &&& t.args == self.args
                &&& t.quiet == self.quiet
                &&& t.quiet_output == self.quiet_output
                &&& t.cwd is Some
            }),
    {
        match fsview::clone_dir(dir) {
            Err(m) => Err(m),
            Ok(d) => {
                let mut t = self;
                t.cwd = Some(d);
                Ok(t)
            },
        }
    }
}

/// What the execution environment must set up before the spawn.
pub struct RunPlan {
    /// print the description line first
    pub print_description: bool,
    /// capture stdout and stderr to a transient buffer
    pub capture_output: bool,
    /// give the child a pipe as stdin, to be fed by the dedicated worker
    /// (otherwise stdin is closed)
    pub pipe_stdin: bool,
}

/// Decides the pre-spawn configuration of a task: the description line is
/// printed unless the task is quiet, output is captured exactly when
/// `quiet_output` was set, and stdin is a pipe exactly when a buffer is to
/// be piped in.
pub fn plan(t: &Task, stdin: &StdinMode) -> (p: RunPlan)
    ensures
        p.print_description == !t.quiet,
        p.capture_output == t.quiet_output,
        p.pipe_stdin == (stdin is Piped),
{
    RunPlan {
        print_description: !t.quiet,
        capture_output: t.quiet_output,
        pipe_stdin: match stdin {
            StdinMode::Piped(_) => true,
            StdinMode::Closed => false,
        },
    }
}

/// Decides the outcome of the stdin-writing worker: its failure is
/// surfaced, never dropped.
pub fn complete_stdin_write(description: &str, write_error: Option<String>) -> (r: Result<
    (),
    TaskError,
>)
    ensures
        r is Ok <==> write_error is None,
        r matches Err(e) ==> (write_error matches Some(m) && stdin_failure_with(
            e,
            description@,
            m@,
        )),
{
    match write_error {
        None => Ok(()),
        Some(m) => Err(TaskError::StdinWriteFailed { description: description.to_owned(), message: m }),
    }
}

/// Decides the outcome of a plain run from how the child exited: success
/// exactly on exit code zero; anything else is a failure naming the task
/// and the raw exit, with the captured output (if any) riding along to be
/// replayed.
pub fn complete_run(description: &str, captured: Option<Vec<u8>>, exit: Exit) -> (r: Result<
    (),
    TaskError,
>)
    ensures
        r is Ok <==> exit.is_success(),
        r matches Err(e) ==> exit_failure_with(e, description@, exit, captured),
{
    if exit.success() {
        Ok(())
    } else {
        Err(TaskError::ExitedNonZero { description: description.to_owned(), exit, captured })
    }
}

/// What a byte sequence spells as text, when it is valid text at all.
pub uninterp spec fn utf8_text(bytes: Seq<u8>) -> Option<Seq<char>>;

/// Relies on String::from_utf8: `Some` exactly when the bytes are valid
/// UTF-8, decoded to the characters they spell; the result depends on the
/// bytes alone.
#[verifier::external_body]
fn decode_utf8(bytes: Vec<u8>) -> (r: Option<String>)
    ensures
        r matches Some(s) ==> utf8_text(bytes@) == Some(s@),
        r is None ==> utf8_text(bytes@) is None,
{
    String::from_utf8(bytes).ok()
}

/// Decides the outcome of a run that reads the child's stdout: on success,
/// exactly that stdout decoded as text; on an unsuccessful exit, an error
/// and never partial output; on captured bytes that are not valid text, an
/// error as well.
pub fn complete_read(description: &str, stdout: Vec<u8>, exit: Exit) -> (r: Result<
    String,
    TaskError,
>)
    ensures
        exit.is_success() && utf8_text(stdout@) is Some ==> (r matches Ok(s) && Some(s@)
            == utf8_text(stdout@)),
        exit.is_success() && utf8_text(stdout@) is None ==> (r matches Err(e)
            && not_decodable_with(e, description@)),
        !exit.is_success() ==> (r matches Err(e) && exit_failure_with(
            e,
            description@,
            exit,
            None,
        )),
{
    if !exit.success() {
        Err(TaskError::ExitedNonZero {
            description: description.to_owned(),
            exit,
            captured: None,
        })
    } else {
        match decode_utf8(stdout) {
            Some(s) => Ok(s),
            None => Err(TaskError::OutputNotDecodable { description: description.to_owned() }),
        }
    }
}

} // verus!
