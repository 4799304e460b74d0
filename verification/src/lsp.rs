//! The language servers that the engine can start: the command line of
//! each, and the table that finds a service by its name.

use crate::command::ExecutableCommand;
use crate::text::{lowercased, texts, to_lowercase};
use vstd::prelude::*;

verus! {

/// A language server that can be started and stopped. `start` answers
/// with the port that the server listens on.
pub trait LspServer {
    fn start(&mut self) -> Result<u16, String>;

    fn stop(&mut self) -> Result<(), String>;
}

/// Something that takes connections for language servers. `start` answers
/// with the port that it listens on.
pub trait LSPAdpaterT {
    fn start(&mut self) -> Result<u16, String>;
}

/// Builds the command that starts a language server.
pub trait LspCommandBuilder {
    fn build(&self) -> ExecutableCommand;
}

/// The command line of `clangd`; the program is the one given, or
/// `clangd`.
#[derive(Debug, Clone)]
pub struct ClangdCommandBuilder(pub Option<String>);

/// The command line of `pyright-langserver`; the program is the one
/// given, or `pyright-langserver`.
#[derive(Debug, Clone)]
pub struct PylsCommandBuilder(pub Option<String>);

/// The arguments that `clangd` is started with.
pub open spec fn clangd_arguments() -> Seq<Seq<char>> {
    seq![
        "--pch-storage=memory"@,
        "--clang-tidy"@,
        "--header-insertion=iwyu"@,
        "--completion-style=detailed"@,
    ]
}

/// Computes `clangd_arguments`.
pub fn clangd_args() -> (args: Vec<String>)
    ensures
        texts(args@) == clangd_arguments(),
{
    let mut args: Vec<String> = Vec::new();
    args.push(String::from_str("--pch-storage=memory"));
    args.push(String::from_str("--clang-tidy"));
    args.push(String::from_str("--header-insertion=iwyu"));
    args.push(String::from_str("--completion-style=detailed"));
    assert(texts(args@) =~= clangd_arguments());
    args
}

impl LspCommandBuilder for ClangdCommandBuilder {
    fn build(&self) -> (cmd: ExecutableCommand)
        ensures
            cmd.program@ == (match self.0 {
                Some(p) => p@,
                None => "clangd"@,
            }),
            texts(cmd.args@) == clangd_arguments(),
            cmd.envs@ == Map::<Seq<char>, Seq<char>>::empty(),
            cmd.current_dir is None,
    {
        let program = match &self.0 {
            Some(p) => p.clone(),
            None => String::from_str("clangd"),
        };
        let mut cmd = ExecutableCommand::new(program);
        let args = clangd_args();
        cmd.args(&args);
        assert(cmd.args@ =~= args@);
        cmd
    }
}

impl LspCommandBuilder for PylsCommandBuilder {
    fn build(&self) -> (cmd: ExecutableCommand)
        ensures
            cmd.program@ == (match self.0 {
                Some(p) => p@,
                None => "pyright-langserver"@,
            }),
            texts(cmd.args@) == seq!["--stdio"@],
            cmd.envs@ == Map::<Seq<char>, Seq<char>>::empty(),
            cmd.current_dir is None,
    {
        let program = match &self.0 {
            Some(p) => p.clone(),
            None => String::from_str("pyright-langserver"),
        };
        let mut cmd = ExecutableCommand::new(program);
        cmd.arg(String::from_str("--stdio"));
        assert(texts(cmd.args@) =~= seq!["--stdio"@]);
        cmd
    }
}

/// The service that speaks to `clangd`.
#[derive(Debug, Clone, Copy)]
pub struct ClangdService;

/// Makes the service that speaks to `clangd`.
#[derive(Debug, Clone, Copy)]
pub struct ClangdServiceBuilder;

/// The table of the language services.
#[derive(Debug, Clone, Copy)]
pub struct LSPRegister;

impl ClangdServiceBuilder {
    /// A new service.
    pub fn create(&self) -> ClangdService {
        ClangdService
    }
}

impl ClangdService {
    /// The command that asks `clangd` for its version, to see whether it
    /// can be started at all.
    pub fn availability_command(&self) -> (cmd: ExecutableCommand)
        ensures
            cmd.program@ == "clangd"@,
            texts(cmd.args@) == seq!["--version"@],
    {
        let mut cmd = ExecutableCommand::new(String::from_str("clangd"));
        cmd.arg(String::from_str("--version"));
        assert(texts(cmd.args@) =~= seq!["--version"@]);
        cmd
    }

    /// The command that starts `clangd` for a connection.
    pub fn command(&self) -> (cmd: ExecutableCommand)
        ensures
            cmd.program@ == "clangd"@,
            texts(cmd.args@) == clangd_arguments(),
    {
        ClangdCommandBuilder(None).build()
    }
}

impl Default for LSPRegister {
    fn default() -> Self {
        Self
    }
}

/// The service whose name, in lower case, is `lower`: there is one for
/// `clangd`, and no other.
pub fn service_for(lower: &str) -> (service: Option<ClangdService>)
    ensures
        service is Some <==> lower@ == "clangd"@,
{
    if lower.eq("clangd") {
        Some(ClangdService)
    } else {
        None
    }
}

impl LSPRegister {
    /// The service with the name `id`, whatever the case of its letters.
    pub fn create_by_id(&self, id: &str) -> (service: Option<ClangdService>)
        ensures
            service is Some <==> lowercased(id@) == "clangd"@,
    {
        let name = to_lowercase(id);
        service_for(name.as_str())
    }
}

} // verus!
