//! The configuration of the program and of a workspace, with the values
//! that stand in for what a stored configuration leaves out.

use crate::platform::Platform;
use vstd::prelude::*;

verus! {

/// The name of the variable that holds the directory of the bundled
/// language servers.
pub const ENV_KEY_BUNDLED_LSP: &'static str = "BUNDLED_LSP";

/// The configuration of the program.
#[derive(Debug, Clone)]
pub struct ProgramConfig {
    pub workspace: Option<String>,
    pub theme: String,
    pub system_titlebar: bool,
}

/// The configuration of the program as it is stored: what the stored form
/// leaves out is filled in with the defaults below.
#[derive(Debug, Clone)]
pub struct ProgramConfigLocalDeserialized {
    pub workspace: Option<String>,
    pub theme: String,
    pub system_titlebar: bool,
}

impl ProgramConfigLocalDeserialized {
    /// No workspace is chosen.
    pub fn default_workspace() -> (w: Option<String>)
        ensures
            w is None,
    {
        None
    }

    /// The theme named `default`.
    pub fn default_theme() -> (t: String)
        ensures
            t@ == "default"@,
    {
        String::from_str("default")
    }

    /// The title bar is drawn by the program.
    pub fn default_system_titlebar() -> (b: bool)
        ensures
            !b,
    {
        false
    }
}

impl Default for ProgramConfigLocalDeserialized {
    fn default() -> (d: Self)
        ensures
            d.workspace is None,
            d.theme@ == "default"@,
            !d.system_titlebar,
    {
        Self {
            workspace: Self::default_workspace(),
            theme: Self::default_theme(),
            system_titlebar: Self::default_system_titlebar(),
        }
    }
}

impl Default for ProgramConfig {
    fn default() -> (d: Self)
        ensures
            d.workspace is None,
            d.theme@.len() == 0,
            !d.system_titlebar,
    {
        Self { workspace: None, theme: String::new(), system_titlebar: false }
    }
}

impl From<ProgramConfigLocalDeserialized> for ProgramConfig {
    /// The configuration that the stored form `value` stands for.
    fn from(value: ProgramConfigLocalDeserialized) -> (c: Self) {
        Self {
            workspace: value.workspace,
            theme: value.theme,
            system_titlebar: value.system_titlebar,
        }
    }
}

impl vstd::std_specs::convert::FromSpecImpl<ProgramConfigLocalDeserialized> for ProgramConfig {
    open spec fn obeys_from_spec() -> bool {
        true
    }

    open spec fn from_spec(value: ProgramConfigLocalDeserialized) -> Self {
        ProgramConfig {
            workspace: value.workspace,
            theme: value.theme,
            system_titlebar: value.system_titlebar,
        }
    }
}

/// The configuration of the program, with the path of the file that it
/// is stored in.
#[derive(Debug)]
pub struct ProgramConfigRepo {
    pub path: String,
    pub data: ProgramConfig,
}

impl ProgramConfigRepo {
    /// The configuration stored at `path`. `stored` is what the file
    /// holds, or `None` where there is no file: then every value is empty.
    pub fn load(path: String, stored: Option<ProgramConfigLocalDeserialized>) -> (repo: Self)
        ensures
            repo.path == path,
            match stored {
                Some(value) => repo.data.workspace == value.workspace && repo.data.theme
                    == value.theme && repo.data.system_titlebar == value.system_titlebar,
                None => repo.data.workspace is None && repo.data.theme@.len() == 0
                    && !repo.data.system_titlebar,
            },
    {
        let mut repo = Self { path, data: ProgramConfig::default() };
        repo.reload(stored);
        repo
    }

    /// Takes over what the file holds now; where there is no file the
    /// configuration stays as it is.
    pub fn reload(&mut self, stored: Option<ProgramConfigLocalDeserialized>)
        ensures
            final(self).path == old(self).path,
            match stored {
                Some(value) => {
                    &&& final(self).data.workspace == value.workspace
                    &&& final(self).data.theme == value.theme
                    &&& final(self).data.system_titlebar == value.system_titlebar
                },
                None => final(self).data == old(self).data,
            },
    {
        match stored {
            Some(value) => {
                self.data = ProgramConfig::from(value);
            },
            None => {},
        }
    }

    /// The configuration, to read.
    pub fn read(&self) -> (data: &ProgramConfig)
        ensures
            *data == self.data,
    {
        &self.data
    }

    /// The configuration, to change.
    pub fn write(&mut self) -> (data: &mut ProgramConfig)
        ensures
            *data == old(self).data,
            final(self).data == *final(data),
            final(self).path == old(self).path,
    {
        &mut self.data
    }
}

/// The language that a configured language builds on.
#[derive(Debug, Clone, Copy, PartialEq, Eq, Structural)]
pub enum LanguageBase {
    Cpp,
    TypeScript,
    JavaScript,
    Go,
    Python,
    Text,
}

/// How a language server is spoken to.
#[derive(Debug, Clone, Copy, PartialEq, Eq, Structural)]
pub enum LanguageServerProtocolConnectionType {
    StdIO,
    WebSocket,
}

/// One configured language: the command lines that compile and run a
/// source, and the language server for it.
#[derive(Debug, Clone)]
pub struct AdvLanguageItem {
    pub base: LanguageBase,
    pub cmd_compile: String,
    pub cmd_before_run: Option<String>,
    pub cmd_after_run: Option<String>,
    pub cmd_run: String,
    pub lsp: Option<String>,
    pub lsp_connect: Option<LanguageServerProtocolConnectionType>,
}

/// The configuration of a workspace. The languages are kept by name.
#[derive(Debug, Clone)]
pub struct WorkspaceConfig {
    pub font_family: String,
    pub font_size: u32,
    pub language: Vec<(String, AdvLanguageItem)>,
}

/// The configuration of a workspace as it is stored.
#[derive(Debug, Clone)]
pub struct WorkspaceLocalDeserialized {
    pub font_family: String,
    pub font_size: u32,
    pub language: Vec<(String, AdvLanguageItem)>,
}

/// The separator of path components on `platform`.
pub open spec fn path_separator(platform: Platform) -> char {
    match platform {
        Platform::Windows => '\\',
        Platform::Unix => '/',
    }
}

/// The suffix of an executable file on `platform`.
pub open spec fn exe_suffix_on(platform: Platform) -> Seq<char> {
    match platform {
        Platform::Windows => ".exe"@,
        Platform::Unix => Seq::empty(),
    }
}

/// The path of the executable `name` inside the directory that the
/// placeholder `%holder` stands for.
pub open spec fn placed_executable(platform: Platform, holder: Seq<char>, name: Seq<char>) -> Seq<
    char,
> {
    seq!['%'] + holder + seq![path_separator(platform)] + name + exe_suffix_on(platform)
}

/// Computes `placed_executable`.
fn place_executable(platform: Platform, holder: &str, name: &str) -> (s: String)
    ensures
        s@ == placed_executable(platform, holder@, name@),
{
    let mut s = String::new();
    s.push('%');
    s.append(holder);
    match platform {
        Platform::Windows => s.push('\\'),
        Platform::Unix => s.push('/'),
    }
    s.append(name);
    match platform {
        Platform::Windows => s.append(".exe"),
        Platform::Unix => {},
    }
    assert(s@ =~= placed_executable(platform, holder@, name@));
    s
}

/// Whether `language` holds the two languages that a new workspace knows
/// on `platform`: `cpp 17` first, then `python 3`.
pub open spec fn is_default_language(
    platform: Platform,
    language: Seq<(String, AdvLanguageItem)>,
) -> bool {
    &&& language.len() == 2
    &&& language[0].0@ == "cpp 17"@
    &&& language[0].1.base == LanguageBase::Cpp
    &&& language[0].1.cmd_compile@ == "g++ -std=c++17 -o main"@
    &&& language[0].1.cmd_before_run is None
    &&& language[0].1.cmd_after_run is None
    &&& language[0].1.cmd_run@ == placed_executable(platform, "CWD"@, "main"@)
    &&& language[0].1.lsp matches Some(l) && l@ == placed_executable(
        platform,
        ENV_KEY_BUNDLED_LSP@,
        "clangd"@,
    )
    &&& language[0].1.lsp_connect == Some(LanguageServerProtocolConnectionType::StdIO)
    &&& language[1].0@ == "python 3"@
    &&& language[1].1.base == LanguageBase::Python
    &&& language[1].1.cmd_compile@.len() == 0
    &&& language[1].1.cmd_before_run is None
    &&& language[1].1.cmd_after_run is None
    &&& language[1].1.cmd_run@ == "python $target"@
    &&& language[1].1.lsp matches Some(l) && l@ == placed_executable(
        platform,
        ENV_KEY_BUNDLED_LSP@,
        "pylyzer"@,
    ) + " --server"@
    &&& language[1].1.lsp_connect == Some(LanguageServerProtocolConnectionType::StdIO)
}

impl From<WorkspaceLocalDeserialized> for WorkspaceConfig {
    /// The configuration that the stored form `value` stands for.
    fn from(value: WorkspaceLocalDeserialized) -> (c: Self) {
        Self { font_family: value.font_family, font_size: value.font_size, language: value.language }
    }
}

impl vstd::std_specs::convert::FromSpecImpl<WorkspaceLocalDeserialized> for WorkspaceConfig {
    open spec fn obeys_from_spec() -> bool {
        true
    }

    open spec fn from_spec(value: WorkspaceLocalDeserialized) -> Self {
        WorkspaceConfig {
            font_family: value.font_family,
            font_size: value.font_size,
            language: value.language,
        }
    }
}

impl WorkspaceLocalDeserialized {
    /// Fourteen points.
    pub fn default_font_size() -> (n: u32)
        ensures
            n == 14,
    {
        14
    }

    /// A row of monospaced fonts.
    pub fn default_font_family() -> (f: String)
        ensures
            f@ == "\"JetBrains Mono\", Consolas, 'Courier New', monospace"@,
    {
        String::from_str("\"JetBrains Mono\", Consolas, 'Courier New', monospace")
    }

    /// The two languages that a new workspace knows on `platform`:
    /// `cpp 17`, compiled by `g++` and served by the bundled `clangd`, and
    /// `python 3`, run by `python` and served by the bundled `pylyzer`.
    pub fn default_language_on(platform: Platform) -> (language: Vec<(String, AdvLanguageItem)>)
        ensures
            is_default_language(platform, language@),
    {
        let mut language: Vec<(String, AdvLanguageItem)> = Vec::new();
        language.push(
            (
                String::from_str("cpp 17"),
                AdvLanguageItem {
                    base: LanguageBase::Cpp,
                    cmd_compile: String::from_str("g++ -std=c++17 -o main"),
                    cmd_before_run: None,
                    cmd_after_run: None,
                    cmd_run: place_executable(platform, "CWD", "main"),
                    lsp: Some(place_executable(platform, ENV_KEY_BUNDLED_LSP, "clangd")),
                    lsp_connect: Some(LanguageServerProtocolConnectionType::StdIO),
                },
            ),
        );
        let mut pylyzer = place_executable(platform, ENV_KEY_BUNDLED_LSP, "pylyzer");
        pylyzer.append(" --server");
        language.push(
            (
                String::from_str("python 3"),
                AdvLanguageItem {
                    base: LanguageBase::Python,
                    cmd_compile: String::new(),
                    cmd_before_run: None,
                    cmd_after_run: None,
                    cmd_run: String::from_str("python $target"),
                    lsp: Some(pylyzer),
                    lsp_connect: Some(LanguageServerProtocolConnectionType::StdIO),
                },
            ),
        );
        language
    }

    /// The two languages that a new workspace knows on the platform that
    /// the program runs on.
    pub fn default_language() -> (language: Vec<(String, AdvLanguageItem)>)
        ensures
            is_default_language(Platform::Windows, language@) || is_default_language(
                Platform::Unix,
                language@,
            ),
    {
        Self::default_language_on(Platform::current())
    }
}

impl Default for WorkspaceLocalDeserialized {
    fn default() -> (d: Self)
        ensures
            d.font_size == 14,
            d.font_family@ == "\"JetBrains Mono\", Consolas, 'Courier New', monospace"@,
            is_default_language(Platform::Windows, d.language@) || is_default_language(
                Platform::Unix,
                d.language@,
            ),
    {
        Self {
            language: Self::default_language(),
            font_family: Self::default_font_family(),
            font_size: Self::default_font_size(),
        }
    }
}

} // verus!
