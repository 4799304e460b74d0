//! What the engine tells its observers.

use crate::config::{ProgramConfig, WorkspaceConfig};
use vstd::prelude::*;

verus! {

/// The configuration of the workspace has changed to `new`.
#[derive(Debug, Clone)]
pub struct WorkspaceConfigUpdateEvent {
    pub new: WorkspaceConfig,
}

/// The configuration of the program has changed to `new`.
#[derive(Debug, Clone)]
pub struct ProgramConfigUpdateEvent {
    pub new: ProgramConfig,
}

/// What a language server did.
#[derive(Debug, Clone)]
pub enum LanguageServerResponse {
    Closed { exit_code: i32 },
    Message { msg: String },
}

/// Something that the language server with the process id `pid` did.
#[derive(Debug, Clone)]
pub struct LanguageServerEvent {
    pub pid: String,
    pub response: LanguageServerResponse,
}

/// The stream that a line came from.
#[derive(Debug, Clone, Copy, PartialEq, Eq, Structural)]
pub enum ProgramOutputSource {
    Stdout,
    Stderr,
}

/// A line that the program of the task `task_tag` wrote.
#[derive(Debug, Clone, PartialEq, Eq)]
pub struct ProgramOutputEvent {
    pub task_tag: String,
    pub source: ProgramOutputSource,
    pub line: String,
}

/// How long a program may run whose output is captured, in seconds.
pub const CAPTURE_TIMEOUT_SECS: u64 = 3;

/// What a program that was run for its output alone ended in.
#[derive(Debug, Clone)]
pub struct OutputCapture {
    pub exit_code: i32,
    pub stdout: String,
    pub stderr: String,
}

/// How a language server is written to and read from.
#[derive(Debug, Clone, Copy, PartialEq, Eq, Hash, Structural)]
pub enum IOMethod {
    /// Through its standard input and output.
    StdIO,
}

impl OutputCapture {
    /// What a program that ended with the exit code `exit_code` wrote.
    pub fn new(exit_code: i32, stdout: String, stderr: String) -> (capture: Self)
        ensures
            capture.exit_code == exit_code,
            capture.stdout == stdout,
            capture.stderr == stderr,
    {
        Self { exit_code, stdout, stderr }
    }
}

impl ProgramOutputEvent {
    /// The event that tells the observers of the task `task_tag` that its
    /// program wrote `line` to the stream `source`.
    pub fn new(task_tag: &str, source: ProgramOutputSource, line: &str) -> (event: Self)
        ensures
            event.task_tag@ == task_tag@,
            event.source == source,
            event.line@ == line@,
    {
        ProgramOutputEvent {
            task_tag: String::from_str(task_tag),
            source,
            line: String::from_str(line),
        }
    }
}

} // verus!
