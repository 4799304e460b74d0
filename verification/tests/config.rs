use judge_engine::config::{
    LanguageBase, LanguageServerProtocolConnectionType, ProgramConfig,
    ProgramConfigLocalDeserialized, ProgramConfigRepo, WorkspaceConfig, WorkspaceLocalDeserialized,
    ENV_KEY_BUNDLED_LSP,
};
use judge_engine::platform::Platform;

#[test]
fn defaults_of_the_program() {
    assert_eq!(ProgramConfigLocalDeserialized::default_workspace(), None);
    assert_eq!(ProgramConfigLocalDeserialized::default_theme(), "default");
    assert!(!ProgramConfigLocalDeserialized::default_system_titlebar());
    let d = ProgramConfigLocalDeserialized::default();
    assert_eq!(d.workspace, None);
    assert_eq!(d.theme, "default");
    assert!(!d.system_titlebar);
    let c = ProgramConfig::default();
    assert_eq!(c.theme, "");
    assert_eq!(c.workspace, None);
    let c = ProgramConfig::from(ProgramConfigLocalDeserialized {
        workspace: Some("/ws".to_string()),
        theme: "dark".to_string(),
        system_titlebar: true,
    });
    assert_eq!(c.workspace, Some("/ws".to_string()));
    assert_eq!(c.theme, "dark");
    assert!(c.system_titlebar);
}

#[test]
fn loading_the_configuration_of_the_program() {
    let stored = ProgramConfigLocalDeserialized {
        workspace: Some("/ws".to_string()),
        theme: "dark".to_string(),
        system_titlebar: true,
    };
    let mut repo = ProgramConfigRepo::load("/c/config.toml".to_string(), Some(stored));
    assert_eq!(repo.path, "/c/config.toml");
    assert_eq!(repo.read().workspace, Some("/ws".to_string()));
    assert_eq!(repo.read().theme, "dark");
    assert!(repo.read().system_titlebar);

    repo.write().theme = "light".to_string();
    assert_eq!(repo.read().theme, "light");
    repo.reload(None);
    assert_eq!(repo.read().theme, "light");
    repo.reload(Some(ProgramConfigLocalDeserialized::default()));
    assert_eq!(repo.read().theme, "default");
    assert_eq!(repo.read().workspace, None);

    let repo = ProgramConfigRepo::load("p".to_string(), None);
    assert_eq!(repo.read().theme, "");
    assert_eq!(repo.read().workspace, None);
    assert!(!repo.read().system_titlebar);
}

#[test]
fn defaults_of_a_workspace() {
    assert_eq!(WorkspaceLocalDeserialized::default_font_size(), 14);
    assert_eq!(
        WorkspaceLocalDeserialized::default_font_family(),
        "\"JetBrains Mono\", Consolas, 'Courier New', monospace"
    );
    let d = WorkspaceLocalDeserialized::default();
    assert_eq!(d.font_size, 14);
    assert_eq!(d.language.len(), 2);
    let c = WorkspaceConfig::from(d);
    assert_eq!(c.font_size, 14);
    assert_eq!(c.language[0].0, "cpp 17");
    assert_eq!(c.language[1].0, "python 3");
    assert_eq!(ENV_KEY_BUNDLED_LSP, "BUNDLED_LSP");
}

#[test]
fn the_languages_of_a_new_workspace() {
    let unix = WorkspaceLocalDeserialized::default_language_on(Platform::Unix);
    assert_eq!(unix.len(), 2);
    let (name, cpp) = &unix[0];
    assert_eq!(name, "cpp 17");
    assert_eq!(cpp.base, LanguageBase::Cpp);
    assert_eq!(cpp.cmd_compile, "g++ -std=c++17 -o main");
    assert_eq!(cpp.cmd_before_run, None);
    assert_eq!(cpp.cmd_after_run, None);
    assert_eq!(cpp.cmd_run, "%CWD/main");
    assert_eq!(cpp.lsp, Some("%BUNDLED_LSP/clangd".to_string()));
    assert_eq!(cpp.lsp_connect, Some(LanguageServerProtocolConnectionType::StdIO));
    let (name, py) = &unix[1];
    assert_eq!(name, "python 3");
    assert_eq!(py.base, LanguageBase::Python);
    assert_eq!(py.cmd_compile, "");
    assert_eq!(py.cmd_run, "python $target");
    assert_eq!(py.lsp, Some("%BUNDLED_LSP/pylyzer --server".to_string()));

    let windows = WorkspaceLocalDeserialized::default_language_on(Platform::Windows);
    assert_eq!(windows[0].1.cmd_run, "%CWD\\main.exe");
    assert_eq!(windows[0].1.lsp, Some("%BUNDLED_LSP\\clangd.exe".to_string()));
    assert_eq!(windows[1].1.lsp, Some("%BUNDLED_LSP\\pylyzer.exe --server".to_string()));

    let here = WorkspaceLocalDeserialized::default_language();
    let expected = WorkspaceLocalDeserialized::default_language_on(Platform::current());
    assert_eq!(here[0].1.cmd_run, expected[0].1.cmd_run);
}
