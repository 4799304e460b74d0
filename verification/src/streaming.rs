//! Collecting the output of a run and handing it to an observer in
//! batches.
//!
//! The updater gathers what the program writes, stream by stream. Each
//! flush hands what was gathered to the observer as one update per
//! stream and starts over. The collector keeps the whole output of the
//! run beside it, and decides when to flush.

use crate::cache::{grants, KeyLock};
use crate::command::ExecutableCommand;
use crate::compiler::{CompileDataStore, LanguageMode};
use crate::execution::{reported_code, NO_EXIT_CODE};
use crate::paths::path_parent;
use vstd::prelude::*;

verus! {

/// The time between two flushes while a program runs, in milliseconds.
pub const FLUSH_MILLIS: u64 = 500;

/// The error of a run whose task is running already.
pub open spec fn would_block() -> Seq<char> {
    "operation would block"@
}

/// One update for the observer of a run.
#[derive(Debug, Clone)]
pub enum RunnerOutputCommand {
    /// Forget what was shown before.
    Clear,
    /// Show `line` behind what was shown of the output.
    AppendStdout { line: String },
    /// Show `line` behind what was shown of the error stream.
    AppendStderr { line: String },
}

/// Gathers output between two flushes.
#[derive(Debug)]
pub struct RunnerOutputUpdater {
    pub task_id: String,
    pub stdout: String,
    pub stderr: String,
}

/// The updates that a flush hands out for what was gathered: one for the
/// output and one for the error stream, in that order, each left out
/// where nothing was gathered.
pub open spec fn flushed(stdout: Seq<char>, stderr: Seq<char>) -> Seq<(bool, Seq<char>)> {
    (if stdout.len() > 0 {
        seq![(true, stdout)]
    } else {
        Seq::empty()
    }) + (if stderr.len() > 0 {
        seq![(false, stderr)]
    } else {
        Seq::empty()
    })
}

/// An update as a pair: whether it is for the output, and its text.
/// `Clear` has no such pair.
pub open spec fn update_of(command: RunnerOutputCommand) -> Option<(bool, Seq<char>)> {
    match command {
        RunnerOutputCommand::Clear => None,
        RunnerOutputCommand::AppendStdout { line } => Some((true, line@)),
        RunnerOutputCommand::AppendStderr { line } => Some((false, line@)),
    }
}

/// Whether `commands` are the updates `updates`, one for one.
pub open spec fn are_updates(
    commands: Seq<RunnerOutputCommand>,
    updates: Seq<(bool, Seq<char>)>,
) -> bool {
    commands.len() == updates.len() && forall|i: int|
        0 <= i < commands.len() ==> update_of(#[trigger] commands[i]) == Some(updates[i])
}

impl RunnerOutputUpdater {
    /// An updater for the task `task_id` that has gathered nothing.
    pub fn new(task_id: String) -> (u: Self)
        ensures
            u.task_id == task_id,
            u.stdout@.len() == 0,
            u.stderr@.len() == 0,
    {
        Self { task_id, stdout: String::new(), stderr: String::new() }
    }

    /// The update that opens a run: the observer starts from nothing.
    pub fn clear(&self) -> (command: RunnerOutputCommand)
        ensures
            command is Clear,
    {
        RunnerOutputCommand::Clear
    }

    /// Gathers `msg` behind the output gathered so far.
    pub fn append_stdout(&mut self, msg: &str)
        ensures
            final(self).stdout@ == old(self).stdout@ + msg@,
            final(self).stderr == old(self).stderr,
            final(self).task_id == old(self).task_id,
    {
        self.stdout.append(msg);
    }

    /// Gathers `msg` behind the error stream gathered so far.
    pub fn append_stderr(&mut self, msg: &str)
        ensures
            final(self).stderr@ == old(self).stderr@ + msg@,
            final(self).stdout == old(self).stdout,
            final(self).task_id == old(self).task_id,
    {
        self.stderr.append(msg);
    }

    /// Hands out what was gathered, as one update per stream, and starts
    /// over with nothing gathered.
    pub fn flush(&mut self) -> (commands: Vec<RunnerOutputCommand>)
        ensures
            are_updates(commands@, flushed(old(self).stdout@, old(self).stderr@)),
            final(self).stdout@.len() == 0,
            final(self).stderr@.len() == 0,
            final(self).task_id == old(self).task_id,
    {
        let mut commands: Vec<RunnerOutputCommand> = Vec::new();
        if !self.stdout.as_str().is_empty() {
            let mut line = String::new();
            core::mem::swap(&mut self.stdout, &mut line);
            commands.push(RunnerOutputCommand::AppendStdout { line });
        }
        if !self.stderr.as_str().is_empty() {
            let mut line = String::new();
            core::mem::swap(&mut self.stderr, &mut line);
            commands.push(RunnerOutputCommand::AppendStderr { line });
        }
        commands
    }
}

/// What a run has written so far, which of its streams are closed, and
/// when the updater was last flushed.
#[derive(Debug)]
pub struct CollectState {
    pub stdout_buf: String,
    pub stderr_buf: String,
    pub stdout_eof: bool,
    pub stderr_eof: bool,
    /// When the updater was last flushed, in milliseconds after the
    /// start of the run.
    pub flushed_at: u128,
}

/// What can happen while the output of a run is collected.
#[derive(Debug, Clone)]
pub enum CollectEvent {
    StdoutLine { line: String },
    StdoutEof,
    StderrLine { line: String },
    StderrEof,
    /// Nothing happened for `FLUSH_MILLIS`.
    Tick,
}

/// `buf` with `line` added as a further line: the line goes behind what
/// was there, with a line feed behind it.
pub open spec fn with_line(buf: Seq<char>, line: Seq<char>) -> Seq<char> {
    buf + line.push('\n')
}

/// What a stream has written once the lines `lines` have come from it:
/// each line, in its order, with a line feed behind it.
pub open spec fn collected(lines: Seq<Seq<char>>) -> Seq<char>
    decreases lines.len(),
{
    if lines.len() == 0 {
        Seq::empty()
    } else {
        with_line(collected(lines.drop_last()), lines.last())
    }
}

/// The output after `event`, where it was `text` before: a line of the
/// output is added, and nothing else changes it.
pub open spec fn stdout_after(text: Seq<char>, event: CollectEvent) -> Seq<char> {
    match event {
        CollectEvent::StdoutLine { line } => with_line(text, line@),
        _ => text,
    }
}

/// The error stream after `event`, where it was `text` before.
pub open spec fn stderr_after(text: Seq<char>, event: CollectEvent) -> Seq<char> {
    match event {
        CollectEvent::StderrLine { line } => with_line(text, line@),
        _ => text,
    }
}

/// Whether a flush is due at `elapsed_millis`: when `FLUSH_MILLIS` or more
/// have passed since the last one.
pub open spec fn flush_due(flushed_at: u128, elapsed_millis: u128) -> bool {
    elapsed_millis >= flushed_at && elapsed_millis - flushed_at >= FLUSH_MILLIS
}

impl CollectState {
    /// The state of a run that has written nothing yet.
    pub fn new() -> (s: Self)
        ensures
            s.stdout_buf@.len() == 0,
            s.stderr_buf@.len() == 0,
            !s.stdout_eof,
            !s.stderr_eof,
            s.flushed_at == 0,
    {
        Self {
            stdout_buf: String::new(),
            stderr_buf: String::new(),
            stdout_eof: false,
            stderr_eof: false,
            flushed_at: 0,
        }
    }

    /// Whether both streams are closed: what is left is to flush once
    /// more and to wait for the process.
    pub fn is_drained(&self) -> (b: bool)
        ensures
            b == (self.stdout_eof && self.stderr_eof),
    {
        self.stdout_eof && self.stderr_eof
    }

    /// Takes one event, with the time at which it came. A line is added,
    /// with a line feed behind it, to what its stream wrote, and gathered
    /// in `updater` in the same way; the end of a stream is noted. Then
    /// the clock is looked at, whatever the event was: when `FLUSH_MILLIS`
    /// or more have passed since the last flush, the updater is flushed,
    /// and the updates to hand to the observer are returned.
    pub fn step(
        &mut self,
        updater: &mut RunnerOutputUpdater,
        event: CollectEvent,
        elapsed_millis: u128,
    ) -> (commands: Vec<RunnerOutputCommand>)
        ensures
            final(updater).task_id == old(updater).task_id,
            final(self).stdout_buf@ == stdout_after(old(self).stdout_buf@, event),
            final(self).stderr_buf@ == stderr_after(old(self).stderr_buf@, event),
            final(self).stdout_eof == (old(self).stdout_eof || event is StdoutEof),
            final(self).stderr_eof == (old(self).stderr_eof || event is StderrEof),
            flush_due(old(self).flushed_at, elapsed_millis) ==> {
                &&& are_updates(
                    commands@,
                    flushed(
                        stdout_after(old(updater).stdout@, event),
                        stderr_after(old(updater).stderr@, event),
                    ),
                )
                &&& final(updater).stdout@.len() == 0
                &&& final(updater).stderr@.len() == 0
                &&& final(self).flushed_at == elapsed_millis
            },
            !flush_due(old(self).flushed_at, elapsed_millis) ==> {
                &&& commands@.len() == 0
                &&& final(updater).stdout@ == stdout_after(old(updater).stdout@, event)
                &&& final(updater).stderr@ == stderr_after(old(updater).stderr@, event)
                &&& final(self).flushed_at == old(self).flushed_at
            },
    {
        match event {
            CollectEvent::StdoutLine { line } => {
                let mut text = line;
                text.push('\n');
                self.stdout_buf.append(text.as_str());
                updater.append_stdout(text.as_str());
            },
            CollectEvent::StderrLine { line } => {
                let mut text = line;
                text.push('\n');
                self.stderr_buf.append(text.as_str());
                updater.append_stderr(text.as_str());
            },
            CollectEvent::StdoutEof => {
                self.stdout_eof = true;
            },
            CollectEvent::StderrEof => {
                self.stderr_eof = true;
            },
            CollectEvent::Tick => {},
        }
        if elapsed_millis >= self.flushed_at && elapsed_millis - self.flushed_at
            >= FLUSH_MILLIS as u128 {
            self.flushed_at = elapsed_millis;
            updater.flush()
        } else {
            Vec::new()
        }
    }
}

/// The observer misses nothing and sees nothing twice. Where what was
/// shown so far, followed by what is gathered and not shown yet, is what
/// the stream has written, this is still so after a further line, whether
/// the line is shown at once with what was gathered or gathered for a
/// later flush.
pub proof fn lemma_observer_sees_the_output(
    shown: Seq<char>,
    pending: Seq<char>,
    buf: Seq<char>,
    line: Seq<char>,
)
    requires
        shown + pending == buf,
    ensures
        shown + with_line(pending, line) == with_line(buf, line),
{
    assert(shown + (pending + line.push('\n')) =~= (shown + pending) + line.push('\n'));
}

/// A stream that wrote one line has written that line and a line feed,
/// and every further line comes behind what was written, whole.
pub proof fn lemma_collected_lines(lines: Seq<Seq<char>>, line: Seq<char>)
    ensures
        collected(seq![line]) == line.push('\n'),
        collected(lines.push(line)) == collected(lines) + line.push('\n'),
{
    assert(seq![line].drop_last() == Seq::<Seq<char>>::empty());
    assert(collected(Seq::<Seq<char>>::empty()) == Seq::<char>::empty());
    assert(Seq::<char>::empty() + line.push('\n') == line.push('\n'));
    assert(lines.push(line).drop_last() == lines);
}

/// What a run under a time limit ended in.
#[derive(Debug, Clone)]
pub enum RunResult {
    /// The program ended with success; its output and its error stream
    /// are in these files.
    PASS { output_file: String, error_file: String },
    /// The program ended with the exit code `exit_code`.
    RE { exit_code: i32, output_file: String, error_file: String },
    /// The program did not end within its time limit.
    TLE,
}

/// How a process ended.
#[derive(Debug, Clone, Copy, PartialEq, Eq, Structural)]
pub struct ExitReport {
    pub success: bool,
    pub code: Option<i32>,
}

impl RunResult {
    /// The result of a run. `exit` is how the process ended, or `None`
    /// where it did not end within its time limit. A failed process
    /// without an exit code is reported with `NO_EXIT_CODE`.
    pub fn from_run(exit: Option<ExitReport>, output_file: String, error_file: String) -> (r: Self)
        ensures
            match exit {
                None => r is TLE,
                Some(report) => if report.success {
                    r matches RunResult::PASS { output_file: o, error_file: e } && o == output_file
                        && e == error_file
                } else {
                    r matches RunResult::RE { exit_code, output_file: o, error_file: e } && o
                        == output_file && e == error_file && exit_code == reported_code(
                        report.code,
                    )
                },
            },
    {
        match exit {
            None => RunResult::TLE,
            Some(report) => {
                if report.success {
                    RunResult::PASS { output_file, error_file }
                } else {
                    let exit_code = match report.code {
                        Some(c) => c,
                        None => NO_EXIT_CODE,
                    };
                    RunResult::RE { exit_code, output_file, error_file }
                }
            },
        }
    }
}

/// The names of the two files that keep the output and the error stream
/// of the task `task_id`.
pub fn log_file_names(task_id: &str) -> (names: (String, String))
    ensures
        names.0@ == "task"@ + task_id@ + "-stdout.log"@,
        names.1@ == "task"@ + task_id@ + "-stderr.log"@,
{
    let mut out = String::from_str("task");
    out.append(task_id);
    out.append("-stdout.log");
    let mut err = String::from_str("task");
    err.append(task_id);
    err.append("-stderr.log");
    (out, err)
}

/// The command that runs the artifact `exec_target` in `working_dir`: the
/// artifact itself for a compiled language, the recorded interpreter on
/// the recorded source for an interpreted one; in both cases with the
/// variables that the record asks for.
pub fn run_command(
    mode: LanguageMode,
    exec_target: String,
    compile_data: &CompileDataStore,
    working_dir: String,
) -> (cmd: ExecutableCommand)
    ensures
        cmd.envs@ == compile_data.required_env(),
        cmd.current_dir == Some(working_dir),
        match mode {
            LanguageMode::CXX => cmd.program == exec_target && cmd.args@.len() == 0,
            LanguageMode::PY => cmd.program == compile_data.compile && cmd.args@ == seq![
                compile_data.source,
            ] + compile_data.compile_args@,
        },
{
    let mut cmd = match mode {
        LanguageMode::CXX => ExecutableCommand::new(exec_target),
        LanguageMode::PY => compile_data.as_interpreter_command(),
    };
    compile_data.with_env(&mut cmd);
    assert(cmd.envs@ =~= compile_data.required_env());
    cmd.set_current_dir(working_dir);
    cmd
}

/// The directory in which an artifact is run: the one that holds it, as
/// the standard library tells it; `None` where the path has no parent.
/// The empty path never has one.
pub fn working_dir_of(exec_target: &str) -> (dir: Option<String>)
    ensures
        exec_target@.len() == 0 ==> dir is None,
{
    path_parent(exec_target)
}

/// The tasks that are running.
#[derive(Debug)]
pub struct RunnerState {
    lock: KeyLock,
}

impl RunnerState {
    /// The tasks that are running.
    pub closed spec fn running(&self) -> Set<Seq<char>> {
        self.lock@
    }

    /// No task is running.
    pub fn new() -> (s: Self)
        ensures
            s.running() == Set::<Seq<char>>::empty(),
    {
        Self { lock: KeyLock::new() }
    }

    /// Starts the task `task_id`, unless it is running already: then the
    /// start is refused, with the error `operation would block`.
    pub fn begin(&mut self, task_id: &str) -> (r: Result<(), String>)
        ensures
            r is Ok <==> grants(old(self).running(), task_id@),
            r matches Err(e) ==> e@ == would_block(),
            final(self).running() == old(self).running().insert(task_id@),
    {
        if self.lock.try_lock(task_id) {
            Ok(())
        } else {
            Err(String::from_str("operation would block"))
        }
    }

    /// Ends the task `task_id`.
    pub fn end(&mut self, task_id: &str)
        ensures
            final(self).running() == old(self).running().remove(task_id@),
    {
        self.lock.unlock(task_id);
    }
}

} // verus!
