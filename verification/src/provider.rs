//! Language providers: which compiler and which executor serve a
//! language, the commands they run, and how the end of a run is
//! reported.

use crate::cache::CachePlan;
use crate::command::ExecutableCommand;
use crate::platform::{resolve_exe_or_elf_str_on, resolved_exe_or_elf, Platform};
use crate::text::{lowercased, texts, to_lowercase};
use vstd::prelude::*;

verus! {

/// A source file of the user, with the language it is written in.
#[derive(Debug, Clone)]
pub struct UserSourceFile {
    pub lang: String,
    pub filename: String,
}

/// Source text of the user, with the language it is written in.
#[derive(Debug, Clone)]
pub struct UserSourceCode {
    pub lang: String,
    pub src: String,
}

/// How the run of a submission ended.
#[derive(Debug, Clone, Copy, PartialEq, Eq, Structural)]
pub enum ExecuatorStatus {
    PASS,
    TLE,
    CE,
    RE,
    MLE,
    UKE,
}

/// The end of a run, with a message and, after a pass, the file that
/// holds the output.
#[derive(Debug, Clone)]
pub struct ExecuatorMessage {
    pub status: ExecuatorStatus,
    pub message: String,
    pub output: Option<String>,
}

/// The settings of the user that the providers read.
#[derive(Debug, Clone)]
pub struct Settings {
    pub cxx_compiler_arguments: Vec<String>,
    pub cxx_compiler_program: String,
    pub clangd_program: String,
    pub terminal_program: String,
    pub terminal_arguments: Vec<String>,
}

/// The terminal in which a program is run on its own.
#[derive(Debug, Clone)]
pub struct CPRunDetachedOption {
    pub terminal_program: String,
    pub terminal_arguments: Vec<String>,
}

/// What happened to a program that was run with its input and output
/// redirected to files.
#[derive(Debug, Clone)]
pub enum RunEnd {
    /// The output file could not be made ready, or the program could not
    /// be started.
    SetupFailed { message: String },
    /// The program was still running at its time limit.
    TimedOut,
    /// The program ended, but its error stream could not be read.
    StderrUnreadable { message: String },
    /// The program ended.
    Exited { success: bool },
    /// Waiting for the program failed.
    WaitFailed { message: String },
}

/// The status and message that a run which ended in `end` is reported
/// with; `None` for a run that passed.
pub open spec fn run_failure(end: RunEnd) -> Option<(ExecuatorStatus, Seq<char>)> {
    match end {
        RunEnd::SetupFailed { message } => Some((ExecuatorStatus::UKE, message@)),
        RunEnd::TimedOut => Some((ExecuatorStatus::TLE, Seq::empty())),
        RunEnd::StderrUnreadable { message } => Some((ExecuatorStatus::RE, message@)),
        RunEnd::Exited { success } => if success {
            None
        } else {
            Some((ExecuatorStatus::RE, Seq::empty()))
        },
        RunEnd::WaitFailed { message } => Some((ExecuatorStatus::UKE, message@)),
    }
}

/// Compiles the sources of one language.
pub trait CompilerCaller {
    /// The extension of a source file of the language.
    fn ext(&self) -> &'static str;

    /// The command that compiles the file `path` into `output`.
    fn compile_command(&self, path: String, output: String, args: &Vec<String>) -> ExecutableCommand;
}

/// Runs the artifacts of one language.
pub trait ExecuatorCaller {
    /// The command that runs `target` on its own in a terminal, through
    /// the program `prov_run_prog`.
    fn run_detached(
        &self,
        prov_run_prog: &str,
        target: &str,
        option: CPRunDetachedOption,
    ) -> ExecutableCommand;

    /// What a run that ended in `end` is reported as.
    fn run(&self, end: RunEnd) -> Result<(), (ExecuatorStatus, String)>;
}

/// The GNU C++ compiler, as the provider of C++ uses it.
#[derive(Debug, Clone, Copy)]
pub struct GccCompiler;

/// Runs a native executable.
#[derive(Debug, Clone, Copy)]
pub struct ExeExecuator;

/// The provider of C++.
#[derive(Debug, Clone, Copy)]
pub struct GccProvider;

/// The table of the languages that have a provider.
#[derive(Debug, Clone, Copy)]
pub struct LanguageRegister;

impl CompilerCaller for GccCompiler {
    fn ext(&self) -> (e: &'static str)
        ensures
            e@ == "cpp"@,
    {
        "cpp"
    }

    /// `g++` on `path`, with `-o` and `output` and then `args`.
    fn compile_command(&self, path: String, output: String, args: &Vec<String>) -> (c:
        ExecutableCommand)
        ensures
            c.program@ == "g++"@,
            texts(c.args@) == seq![path@, "-o"@, output@] + texts(args@),
            c.envs@ == Map::<Seq<char>, Seq<char>>::empty(),
            c.current_dir is None,
    {
        let mut c = ExecutableCommand::new(String::from_str("g++"));
        c.arg(path);
        c.arg(String::from_str("-o"));
        c.arg(output);
        c.args(args);
        assert(texts(c.args@) =~= seq![path@, "-o"@, output@] + texts(args@));
        c
    }
}

impl ExecuatorCaller for ExeExecuator {
    /// The terminal of `option`, with its arguments followed by
    /// `prov_run_prog` and `target`.
    fn run_detached(&self, prov_run_prog: &str, target: &str, option: CPRunDetachedOption) -> (c:
        ExecutableCommand)
        ensures
            c.program == option.terminal_program,
            texts(c.args@) == texts(option.terminal_arguments@) + seq![prov_run_prog@, target@],
            c.envs@ == Map::<Seq<char>, Seq<char>>::empty(),
            c.current_dir is None,
    {
        let mut c = ExecutableCommand::new(option.terminal_program);
        c.args(&option.terminal_arguments);
        c.arg(String::from_str(prov_run_prog));
        c.arg(String::from_str(target));
        assert(texts(c.args@) =~= texts(option.terminal_arguments@) + seq![
            prov_run_prog@,
            target@,
        ]);
        c
    }

    /// A run passes exactly when the program ended with success. A
    /// program over its time limit is reported as `TLE`; one that ended
    /// otherwise, or whose error stream could not be read, as `RE`; a run
    /// that could not be set up or waited for, as `UKE` with the message
    /// of the failure.
    fn run(&self, end: RunEnd) -> (r: Result<(), (ExecuatorStatus, String)>)
        ensures
            match r {
                Ok(_) => run_failure(end) is None,
                Err((status, message)) => run_failure(end) == Some((status, message@)),
            },
    {
        match end {
            RunEnd::SetupFailed { message } => Err((ExecuatorStatus::UKE, message)),
            RunEnd::TimedOut => Err((ExecuatorStatus::TLE, String::new())),
            RunEnd::StderrUnreadable { message } => Err((ExecuatorStatus::RE, message)),
            RunEnd::Exited { success } => {
                if success {
                    Ok(())
                } else {
                    Err((ExecuatorStatus::RE, String::new()))
                }
            },
            RunEnd::WaitFailed { message } => Err((ExecuatorStatus::UKE, message)),
        }
    }
}

impl GccProvider {
    /// What runs a generator of test data.
    pub fn generator(&self) -> ExeExecuator {
        ExeExecuator
    }

    /// What compiles a source.
    pub fn compiler(&self) -> GccCompiler {
        GccCompiler
    }

    /// What runs an artifact.
    pub fn executaor(&self) -> ExeExecuator {
        ExeExecuator
    }
}

/// Whether a language of this name, in lower case, is served by the
/// provider of C++.
pub open spec fn is_gcc_name(lower: Seq<char>) -> bool {
    lower == "gcc"@ || lower == "g++"@ || lower == "cpp"@
}

/// The provider for the language whose name, in lower case, is `lower`.
pub fn provider_for(lower: &str) -> (p: Option<GccProvider>)
    ensures
        p is Some <==> is_gcc_name(lower@),
{
    if lower.eq("gcc") || lower.eq("g++") || lower.eq("cpp") {
        Some(GccProvider)
    } else {
        None
    }
}

impl LanguageRegister {
    /// The provider for the language `name`, whatever the case of its
    /// letters.
    pub fn get(&self, name: &str) -> (p: Option<GccProvider>)
        ensures
            p is Some <==> is_gcc_name(lowercased(name@)),
    {
        let lower = to_lowercase(name);
        provider_for(lower.as_str())
    }
}

impl ExecuatorMessage {
    /// A report of the end of a run.
    pub fn new(status: ExecuatorStatus, message: String, output_file: Option<String>) -> (m: Self)
        ensures
            m.status == status,
            m.message == message,
            m.output == output_file,
    {
        Self { status, message, output: output_file }
    }

    /// The report for a source that did not compile.
    pub fn compile_failed() -> (m: Self)
        ensures
            m.status == ExecuatorStatus::CE,
            m.message@.len() == 0,
            m.output is None,
    {
        Self::new(ExecuatorStatus::CE, String::new(), None)
    }

    /// The report for a run that the executor reported as `run`: a pass
    /// names the file that holds the output; a failure carries its status
    /// and message, and names no file.
    pub fn from_run(run: Result<(), (ExecuatorStatus, String)>, output_file: String) -> (m: Self)
        ensures
            match run {
                Ok(_) => m.status == ExecuatorStatus::PASS && m.message@.len() == 0 && m.output
                    == Some(output_file),
                Err((status, message)) => m.status == status && m.message == message && m.output
                    is None,
            },
    {
        match run {
            Ok(_) => Self::new(ExecuatorStatus::PASS, String::new(), Some(output_file)),
            Err((status, message)) => Self { status, message, output: None },
        }
    }
}

/// The name under which the source with the digest `hash` is kept: the
/// digest, a dot and the extension of the language.
pub fn cached_source_name(hash: &str, ext: &str) -> (name: String)
    ensures
        name@ == hash@.push('.') + ext@,
{
    let mut name = String::from_str(hash);
    name.push('.');
    name.append(ext);
    name
}

/// The name under which the artifact of the source with the digest `hash`
/// is kept on `platform`.
pub fn cached_target_name(hash: &str, platform: Platform) -> (name: String)
    ensures
        name@ == resolved_exe_or_elf(platform, hash@),
{
    resolve_exe_or_elf_str_on(platform, hash)
}

/// Whether to compile: only where the artifact `target_file` is not there
/// yet; where it is, it is handed out as it is.
pub fn compile_plan(target_file: String, target_exists: bool) -> (plan: CachePlan)
    ensures
        match plan {
            CachePlan::Reuse { artifact } => target_exists && artifact == target_file,
            CachePlan::Compile => !target_exists,
        },
{
    if target_exists {
        CachePlan::Reuse { artifact: target_file }
    } else {
        CachePlan::Compile
    }
}

} // verus!
