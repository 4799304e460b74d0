//! Compilers, as steps around the run of an outside tool.
//!
//! A compiler first says what is to be run, or that nothing needs to run.
//! Once the tool has run, the compiler turns its exit status and its error
//! stream into a result: the path of the artifact with the record of how
//! it was made, or the diagnostics that could be read from the stream.

use crate::command::ExecutableCommand;
use crate::paths::{
    holds_no_separator, no_separator, path_extension, path_parent, path_with_extension,
};
use crate::platform::{append_env_var, appended_env_var, Platform};
use crate::strmap::StringMap;
use crate::text::{decimal_value, is_decimal, parse_decimal_i32, texts, trim, trimmed};
use vstd::prelude::*;

verus! {

/// The languages that the engine knows how to prepare.
#[derive(Clone, Copy, Debug, PartialEq, Eq, PartialOrd, Ord, Hash, Structural)]
pub enum LanguageMode {
    CXX,
    PY,
}

/// One diagnostic of a compiler.
#[derive(Debug, Clone)]
pub struct CompileLint {
    /// Line and column, where the compiler gave them.
    pub position: Option<(i32, i32)>,
    /// The category, such as `error`.
    pub ty: Option<String>,
    pub description: String,
}

/// What a compilation ended in.
#[derive(Debug, Clone)]
pub enum CompileResult {
    /// The path of the artifact.
    Success { data: String },
    /// The diagnostics that could be read.
    Error { data: Vec<CompileLint> },
}

/// What the caller asks of the compiler.
#[derive(Debug, Clone)]
pub struct CompilerOptions {
    /// The compiler or interpreter to use in place of the default one.
    pub path: Option<String>,
    /// Arguments to hand to it before those that the engine adds.
    pub args: Option<Vec<String>>,
}

/// The record of how an artifact was made, kept beside it: what is needed
/// to run it later.
#[derive(Debug, Clone)]
pub struct CompileDataStore {
    pub compile: String,
    pub source: String,
    pub compile_args: Vec<String>,
    pub required_env_running: Option<StringMap>,
}

/// The run of a tool that a compiler asks for.
#[derive(Debug, Clone)]
pub struct ToolInvocation {
    pub program: String,
    pub args: Vec<String>,
    /// The value to give the variable `PATH`, if it is to be set.
    pub path_var: Option<String>,
    pub source: String,
    /// The path that the tool is told to write the artifact to.
    pub target: String,
}

/// What a compiler decides before any tool has run.
#[derive(Debug, Clone)]
pub enum CompileStep {
    /// Nothing needs to run.
    Finished { result: CompileResult, store: Option<CompileDataStore> },
    /// This tool is to be run, and its outcome handed to `conclude`.
    Invoke { invocation: ToolInvocation },
}

/// One diagnostic, as plain values.
pub struct LintView {
    pub position: Option<(i32, i32)>,
    pub ty: Option<Seq<char>>,
    pub description: Seq<char>,
}

impl View for CompileLint {
    type V = LintView;

    open spec fn view(&self) -> LintView {
        LintView {
            position: self.position,
            ty: match self.ty {
                Some(t) => Some(t@),
                None => None,
            },
            description: self.description@,
        }
    }
}

/// The views of a sequence of diagnostics.
pub open spec fn lint_views(v: Seq<CompileLint>) -> Seq<LintView> {
    Seq::new(v.len(), |i: int| v[i]@)
}

/// The pattern that a line of a GNU compiler's error stream is held to. Its
/// groups are, in order, the file, the line, the column and the message.
pub const GCC_ERROR_PATTERN: &'static str =
    r#"(?=.*(?:error|warning|line).*).*?(?<file>\w+\.\w+).*?(?<line>\d+):(?<pos>\d+).+error: (?<msg>.*)"#;

/// What `fancy_regex` finds for `pattern` in `text`: for each match that
/// does not overlap an earlier one, in order, the text of each group, the
/// whole match first; `None` where the pattern cannot be compiled or the
/// search gives up.
pub uninterp spec fn regex_captures(pattern: Seq<char>, text: Seq<char>) -> Option<
    Seq<Seq<Option<Seq<char>>>>,
>;

/// Compiles `pattern` with `fancy_regex::Regex::new` and walks
/// `Regex::captures_iter` over `text`, copying out the text of every group
/// of every match. An error of either call gives `None`.
#[verifier::external_body]
fn capture_groups(pattern: &str, text: &str) -> (found: Option<Vec<Vec<Option<String>>>>)
    ensures
        found.deep_view() == regex_captures(pattern@, text@),
{
    let re = fancy_regex::Regex::new(pattern).ok()?;
    let mut all = Vec::new();
    for caps in re.captures_iter(text) {
        let caps = caps.ok()?;
        all.push(caps.iter().map(|m| m.map(|m| m.as_str().to_owned())).collect());
    }
    Some(all)
}

/// The position that the texts of the line and column groups give: both
/// must be decimal numbers that fit in `i32`.
pub open spec fn position_of(line: Seq<char>, column: Seq<char>) -> Option<(i32, i32)> {
    if is_decimal(line) && decimal_value(line) <= i32::MAX && is_decimal(column) && decimal_value(
        column,
    ) <= i32::MAX {
        Some((decimal_value(line) as i32, decimal_value(column) as i32))
    } else {
        None
    }
}

/// The diagnostic that one match gives: `None` where the line, the column
/// or the message group did not take part in the match.
pub open spec fn lint_of(groups: Seq<Option<Seq<char>>>) -> Option<LintView> {
    if groups.len() > 4 && groups[2] is Some && groups[3] is Some && groups[4] is Some {
        Some(
            LintView {
                position: position_of(trimmed(groups[2]->0), trimmed(groups[3]->0)),
                ty: Some("error"@),
                description: trimmed(groups[4]->0),
            },
        )
    } else {
        None
    }
}

/// The diagnostics that the matches give, in the order of the matches.
pub open spec fn lints_of(matches: Seq<Seq<Option<Seq<char>>>>) -> Seq<LintView>
    decreases matches.len(),
{
    if matches.len() == 0 {
        Seq::empty()
    } else {
        let rest = lints_of(matches.drop_last());
        match lint_of(matches.last()) {
            Some(l) => rest.push(l),
            None => rest,
        }
    }
}

/// The diagnostic that one match gives.
fn lint_from_groups(groups: &Vec<Option<String>>) -> (r: Option<CompileLint>)
    ensures
        match r {
            Some(l) => lint_of(groups.deep_view()) == Some(l@),
            None => lint_of(groups.deep_view()) is None,
        },
{
    if groups.len() <= 4 {
        return None;
    }
    assert(groups.deep_view()[2] == groups[2].deep_view());
    assert(groups.deep_view()[3] == groups[3].deep_view());
    assert(groups.deep_view()[4] == groups[4].deep_view());
    match (&groups[2], &groups[3], &groups[4]) {
        (Some(line), Some(column), Some(message)) => {
            let line = trim(line.as_str());
            let column = trim(column.as_str());
            let position = match (
                parse_decimal_i32(line.as_str()),
                parse_decimal_i32(column.as_str()),
            ) {
                (Some(l), Some(c)) => Some((l, c)),
                _ => None,
            };
            Some(
                CompileLint {
                    position,
                    ty: Some(String::from_str("error")),
                    description: trim(message.as_str()),
                },
            )
        },
        _ => None,
    }
}

/// The diagnostics that a list of matches gives: one for each match whose
/// line, column and message groups took part, in the order of the matches.
/// A line or a column that is no number within `i32` leaves the
/// diagnostic without a position.
pub fn lints_from_matches(matches: &Vec<Vec<Option<String>>>) -> (lints: Vec<CompileLint>)
    ensures
        lint_views(lints@) == lints_of(matches.deep_view()),
{
    let mut lints: Vec<CompileLint> = Vec::new();
    let mut i: usize = 0;
    assert(matches.deep_view().take(0) =~= Seq::empty());
    assert(lint_views(lints@) =~= Seq::empty());
    while i < matches.len()
        invariant
            i <= matches.len(),
            lint_views(lints@) == lints_of(matches.deep_view().take(i as int)),
        decreases matches.len() - i,
    {
        proof {
            let all = matches.deep_view();
            assert(all.take(i + 1).drop_last() == all.take(i as int));
            assert(all.take(i + 1).last() == matches[i as int].deep_view());
        }
        match lint_from_groups(&matches[i]) {
            Some(l) => {
                assert(lint_views(lints@.push(l)) =~= lint_views(lints@).push(l@));
                lints.push(l);
            },
            None => {},
        }
        i = i + 1;
    }
    assert(matches.deep_view().take(matches.len() as int) == matches.deep_view());
    lints
}

/// The diagnostics in the error stream `stderr` of a GNU compiler: those
/// that the matches of `GCC_ERROR_PATTERN` give, and none where the search
/// itself fails.
pub fn parse_gcc_diagnostics(stderr: &str) -> (lints: Vec<CompileLint>)
    ensures
        lint_views(lints@) == match regex_captures(GCC_ERROR_PATTERN@, stderr@) {
            Some(matches) => lints_of(matches),
            None => Seq::empty(),
        },
{
    match capture_groups(GCC_ERROR_PATTERN, stderr) {
        Some(matches) => lints_from_matches(&matches),
        None => {
            let lints: Vec<CompileLint> = Vec::new();
            assert(lint_views(lints@) =~= Seq::empty());
            lints
        },
    }
}

/// The arguments that `options` give, or none.
pub open spec fn option_args(options: CompilerOptions) -> Seq<Seq<char>> {
    match options.args {
        Some(a) => texts(a@),
        None => Seq::empty(),
    }
}

/// The text of an optional string.
pub open spec fn option_text(s: Option<String>) -> Option<Seq<char>> {
    match s {
        Some(t) => Some(t@),
        None => None,
    }
}

/// A compiler of one language.
pub trait Compiler {
    /// The name that the source gets inside the working directory.
    fn source_file_name(&self) -> String;

    /// Whether the source is to be written to its file before `begin`
    /// is asked: not where `begin` will answer with a diagnostic that
    /// `options` alone decide.
    fn writes_source(&self, options: &CompilerOptions) -> bool;

    /// Decides what is to be done for the source that was written to
    /// `source_file`, inside the directory `working_dir`. `search_path` is
    /// what the variable `PATH` holds, if it is set.
    fn begin(
        &self,
        options: CompilerOptions,
        source_file: String,
        working_dir: String,
        platform: Platform,
        search_path: Option<String>,
    ) -> CompileStep;
}

/// The GNU C++ compiler.
#[derive(Debug, Clone, Copy)]
pub struct GNUGccCompiler;

/// A language that is run by an interpreter: nothing is compiled, only
/// the way to run the source is recorded.
#[derive(Debug, Clone)]
pub struct Interpreter {
    ext: String,
}

/// The run of the GNU compiler on `source_file`: the program is the one
/// that `options` names, or `g++`; the arguments are those of `options`
/// followed by the source, `-o` and the target `working_dir/target`. On
/// Windows the directory of the compiler, where it has one, is added to
/// the search path; elsewhere the search path is left alone.
pub fn gcc_invocation(
    options: CompilerOptions,
    source_file: String,
    working_dir: String,
    platform: Platform,
    search_path: Option<String>,
    compiler_dir: Option<String>,
) -> (inv: ToolInvocation)
    ensures
        inv.program@ == (match options.path {
            Some(p) => p@,
            None => "g++"@,
        }),
        inv.source@ == source_file@,
        inv.target@ == working_dir@ + "/target"@,
        texts(inv.args@) == option_args(options) + seq![source_file@, "-o"@, inv.target@],
        option_text(inv.path_var) == (match (platform, compiler_dir) {
            (Platform::Windows, Some(dir)) => Some(
                appended_env_var(platform, option_text(search_path), dir@),
            ),
            _ => None,
        }),
{
    let program = match options.path {
        Some(p) => p,
        None => String::from_str("g++"),
    };
    let path_var = match (platform, compiler_dir) {
        (Platform::Windows, Some(dir)) => Some(append_env_var(platform, search_path, dir)),
        _ => None,
    };
    let mut target = working_dir;
    target.append("/target");
    let mut args: Vec<String> = match options.args {
        Some(a) => a,
        None => Vec::new(),
    };
    let ghost given = texts(args@);
    args.push(source_file.clone());
    args.push(String::from_str("-o"));
    args.push(target.clone());
    assert(texts(args@) =~= given + seq![source_file@, "-o"@, target@]);
    ToolInvocation { program, args, path_var, source: source_file, target }
}

impl Compiler for GNUGccCompiler {
    fn source_file_name(&self) -> (name: String)
        ensures
            name@ == "source.cpp"@,
    {
        String::from_str("source.cpp")
    }

    /// The compiler always reads the source from its file.
    fn writes_source(&self, options: &CompilerOptions) -> (b: bool)
        ensures
            b,
    {
        true
    }

    /// Always asks for a run of the compiler: the one that
    /// `gcc_invocation` describes, with the directory that holds the
    /// compiler as the standard library tells it. On Windows the search
    /// path is left alone only where the compiler has no directory;
    /// otherwise some directory is added behind what it held.
    fn begin(
        &self,
        options: CompilerOptions,
        source_file: String,
        working_dir: String,
        platform: Platform,
        search_path: Option<String>,
    ) -> (step: CompileStep)
        ensures
            step matches CompileStep::Invoke { invocation: inv } && {
                &&& inv.program@ == (match options.path {
                    Some(p) => p@,
                    None => "g++"@,
                })
                &&& inv.source@ == source_file@
                &&& inv.target@ == working_dir@ + "/target"@
                &&& texts(inv.args@) == option_args(options) + seq![
                    source_file@,
                    "-o"@,
                    inv.target@,
                ]
                &&& platform != Platform::Windows ==> inv.path_var is None
                &&& platform == Platform::Windows ==> (inv.path_var is None || exists|
                    dir: Seq<char>,
                |
                    option_text(inv.path_var) == Some(
                        appended_env_var(platform, option_text(search_path), dir),
                    ))
            },
    {
        let compiler_dir = match &options.path {
            Some(p) => path_parent(p.as_str()),
            None => path_parent("g++"),
        };
        let invocation = gcc_invocation(
            options,
            source_file,
            working_dir,
            platform,
            search_path,
            compiler_dir,
        );
        proof {
            if platform == Platform::Windows && invocation.path_var is Some {
                let dir = compiler_dir->0@;
                assert(option_text(invocation.path_var) == Some(
                    appended_env_var(platform, option_text(search_path), dir),
                ));
            }
        }
        CompileStep::Invoke { invocation }
    }
}

impl ToolInvocation {
    /// The path of the artifact once the tool has written it: the target,
    /// with `.exe` behind it on Windows.
    pub open spec fn artifact(&self, platform: Platform) -> Seq<char> {
        if platform == Platform::Windows {
            self.target@ + ".exe"@
        } else {
            self.target@
        }
    }

    /// What the run of the tool ended in. Where it succeeded: the path of
    /// the artifact, and the record to keep beside it. Where it failed: the
    /// diagnostics read from its error stream, and no record.
    pub fn conclude(self, success: bool, stderr: &str, platform: Platform) -> (r: (
        CompileResult,
        Option<CompileDataStore>,
    ))
        ensures
            success ==> {
                &&& r.0 matches CompileResult::Success { data }
                &&& data@ == self.artifact(platform)
                &&& r.1 matches Some(store)
                &&& store.compile == self.program
                &&& store.source == self.source
                &&& store.compile_args == self.args
                &&& match (self.path_var, store.required_env_running) {
                    (Some(v), Some(env)) => env@ == Map::<Seq<char>, Seq<char>>::empty().insert(
                        "PATH"@,
                        v@,
                    ),
                    (None, None) => true,
                    _ => false,
                }
            },
            !success ==> {
                &&& r.0 matches CompileResult::Error { data }
                &&& lint_views(data@) == (match regex_captures(GCC_ERROR_PATTERN@, stderr@) {
                    Some(matches) => lints_of(matches),
                    None => Seq::empty(),
                })
                &&& r.1 is None
            },
    {
        if success {
            let mut data = self.target;
            if platform.is_windows() {
                data.append(".exe");
            }
            let required_env_running = match self.path_var {
                Some(v) => {
                    let mut env = StringMap::new();
                    env.insert(String::from_str("PATH"), v);
                    Some(env)
                },
                None => None,
            };
            let store = CompileDataStore {
                compile: self.program,
                source: self.source,
                compile_args: self.args,
                required_env_running,
            };
            (CompileResult::Success { data }, Some(store))
        } else {
            (CompileResult::Error { data: parse_gcc_diagnostics(stderr) }, None)
        }
    }

    /// The command that runs the tool.
    pub fn command(&self) -> (c: ExecutableCommand)
        ensures
            c.program@ == self.program@,
            c.args@ == self.args@,
            c.envs@ == (match self.path_var {
                Some(v) => Map::<Seq<char>, Seq<char>>::empty().insert("PATH"@, v@),
                None => Map::<Seq<char>, Seq<char>>::empty(),
            }),
            c.current_dir is None,
    {
        let mut c = ExecutableCommand::new(self.program.clone());
        c.args(&self.args);
        match &self.path_var {
            Some(v) => c.env(String::from_str("PATH"), v.clone()),
            None => {},
        }
        c
    }
}

impl Interpreter {
    /// The interpreter of sources with the extension `ext`.
    pub fn with_ext(ext: String) -> (i: Interpreter)
        ensures
            i.ext() == ext@,
    {
        Self { ext }
    }

    /// The extension of the sources.
    pub closed spec fn ext(&self) -> Seq<char> {
        self.ext@
    }
}

/// The message of the diagnostic for a missing interpreter.
pub open spec fn missing_interpreter() -> Seq<char> {
    "An compiler or interpreter must be specificed"@
}

impl Compiler for Interpreter {
    fn source_file_name(&self) -> (name: String)
        ensures
            name@ == "source."@ + self.ext(),
    {
        let mut name = String::from_str("source.");
        name.append(self.ext.as_str());
        name
    }

    /// The source is written exactly where an interpreter is given:
    /// without one nothing is left behind but the diagnostic.
    fn writes_source(&self, options: &CompilerOptions) -> (b: bool)
        ensures
            b == (options.path is Some),
    {
        options.path.is_some()
    }

    /// Never asks for a run. With an interpreter in `options` the result
    /// is the source itself, with the record of how to run it; without
    /// one it is a single diagnostic that has no position.
    fn begin(
        &self,
        options: CompilerOptions,
        source_file: String,
        working_dir: String,
        platform: Platform,
        search_path: Option<String>,
    ) -> (step: CompileStep)
        ensures
            step matches CompileStep::Finished { result, store } && (match options.path {
                Some(interpreter) => {
                    &&& result matches CompileResult::Success { data }
                    &&& data@ == source_file@
                    &&& store matches Some(record)
                    &&& record.compile == interpreter
                    &&& record.source@ == source_file@
                    &&& texts(record.compile_args@) == option_args(options)
                    &&& record.required_env_running is None
                },
                None => {
                    &&& result matches CompileResult::Error { data }
                    &&& data@.len() == 1
                    &&& data@[0]@ == (LintView {
                        position: None,
                        ty: Some("Error"@),
                        description: missing_interpreter(),
                    })
                    &&& store is None
                },
            }),
    {
        match options.path {
            Some(interpreter) => {
                let compile_args: Vec<String> = match options.args {
                    Some(a) => a,
                    None => Vec::new(),
                };
                assert(texts(compile_args@) =~= option_args(options));
                let record = CompileDataStore {
                    compile: interpreter,
                    source: source_file.clone(),
                    compile_args,
                    required_env_running: None,
                };
                CompileStep::Finished {
                    result: CompileResult::Success { data: source_file },
                    store: Some(record),
                }
            },
            None => {
                let lint = CompileLint {
                    position: None,
                    ty: Some(String::from_str("Error")),
                    description: String::from_str("An compiler or interpreter must be specificed"),
                };
                let mut data: Vec<CompileLint> = Vec::new();
                data.push(lint);
                CompileStep::Finished { result: CompileResult::Error { data }, store: None }
            },
        }
    }
}

/// The extension of the file that holds the record of an artifact whose
/// own extension is `ext`: that extension, or none, followed by `.toml`.
pub fn addition_extension(ext: Option<String>) -> (r: String)
    ensures
        r@ == (match ext {
            Some(e) => e@,
            None => Seq::empty(),
        }) + ".toml"@,
{
    let mut r = match ext {
        Some(e) => e,
        None => String::new(),
    };
    r.append(".toml");
    r
}

impl CompileDataStore {
    /// The path of the file that holds the record of the artifact `src`:
    /// `src` with `.toml` behind its extension, as the standard library
    /// reads and sets extensions.
    pub fn get_addition_path(src: &str) -> String {
        Self::addition_path_for(src, path_extension(src))
    }

    /// The path of the file that holds the record of the artifact `src`,
    /// whose extension is `extension`. The standard library sets the new
    /// extension, `extension` with `.toml` behind it, unless that holds a
    /// slash or a backslash, which no extension may: then the record lies
    /// at `src` with `.toml` behind it.
    pub fn addition_path_for(src: &str, extension: Option<String>) -> (path: String)
        ensures
            !holds_no_separator(option_text(extension).unwrap_or(Seq::empty()) + ".toml"@)
                ==> path@ == src@ + ".toml"@,
    {
        let ext = addition_extension(extension);
        if no_separator(ext.as_str()) {
            path_with_extension(src, ext.as_str())
        } else {
            let mut path = String::from_str(src);
            path.append(".toml");
            path
        }
    }

    /// The variables that the artifact needs in its environment.
    pub open spec fn required_env(&self) -> Map<Seq<char>, Seq<char>> {
        match self.required_env_running {
            Some(env) => env@,
            None => Map::empty(),
        }
    }

    /// Sets, for `cmd`, the variables that the artifact needs.
    pub fn with_env(&self, cmd: &mut ExecutableCommand)
        ensures
            final(cmd).envs@ == old(cmd).envs@.union_prefer_right(self.required_env()),
            final(cmd).program == old(cmd).program,
            final(cmd).args == old(cmd).args,
            final(cmd).current_dir == old(cmd).current_dir,
    {
        match &self.required_env_running {
            Some(env) => {
                cmd.envs.extend_from(env);
            },
            None => {
                assert(cmd.envs@ =~= cmd.envs@.union_prefer_right(
                    Map::<Seq<char>, Seq<char>>::empty(),
                ));
            },
        }
    }

    /// Adds to `cmd` the arguments that run the source through its
    /// interpreter: the interpreter, the source, and the recorded
    /// arguments.
    pub fn with_interpreter_command(&self, cmd: &mut ExecutableCommand) -> (r: Result<(), String>)
        ensures
            r is Ok,
            final(cmd).args@ == old(cmd).args@ + seq![self.compile, self.source]
                + self.compile_args@,
            final(cmd).program == old(cmd).program,
            final(cmd).envs == old(cmd).envs,
            final(cmd).current_dir == old(cmd).current_dir,
    {
        cmd.arg(self.compile.clone());
        cmd.arg(self.source.clone());
        cmd.args(&self.compile_args);
        assert(cmd.args@ =~= old(cmd).args@ + seq![self.compile, self.source]
            + self.compile_args@);
        Ok(())
    }

    /// The command that runs the source through its interpreter.
    pub fn as_interpreter_command(&self) -> (cmd: ExecutableCommand)
        ensures
            cmd.program == self.compile,
            cmd.args@ == seq![self.source] + self.compile_args@,
            cmd.envs@ == Map::<Seq<char>, Seq<char>>::empty(),
            cmd.current_dir is None,
    {
        let mut cmd = ExecutableCommand::new(self.compile.clone());
        cmd.arg(self.source.clone());
        cmd.args(&self.compile_args);
        assert(cmd.args@ =~= seq![self.source] + self.compile_args@);
        cmd
    }
}

} // verus!
