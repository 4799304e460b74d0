use judge_engine::platform::{
    append_env_var, resolve_exe_or_elf, resolve_exe_or_elf_str, resolve_exe_or_elf_str_on, Platform,
};

#[test]
fn test_resolve_exe_or_elf_str() {
    if Platform::current() == Platform::Unix {
        assert_eq!(resolve_exe_or_elf_str("a/b/c.exe"), "a/b/c");
        assert_eq!(resolve_exe_or_elf_str("a/b/c"), "a/b/c");
    } else {
        assert_eq!(resolve_exe_or_elf_str("a/b/c.exe"), "a/b/c.exe");
        assert_eq!(resolve_exe_or_elf_str("a/b/c"), "a/b/c.exe");
    }
}

#[test]
fn executable_names_on_both_platforms() {
    assert_eq!(resolve_exe_or_elf_str_on(Platform::Unix, "a/b/c.exe"), "a/b/c");
    assert_eq!(resolve_exe_or_elf_str_on(Platform::Unix, "a/b/c"), "a/b/c");
    assert_eq!(resolve_exe_or_elf_str_on(Platform::Windows, "a/b/c.exe"), "a/b/c.exe");
    assert_eq!(resolve_exe_or_elf_str_on(Platform::Windows, "a/b/c"), "a/b/c.exe");
    assert_eq!(resolve_exe_or_elf_str_on(Platform::Unix, ".exe"), "");
    assert_eq!(resolve_exe_or_elf_str_on(Platform::Unix, "exe"), "exe");
    assert_eq!(resolve_exe_or_elf_str_on(Platform::Windows, ""), ".exe");
    assert_eq!(resolve_exe_or_elf_str_on(Platform::Unix, "c.EXE"), "c.EXE");
}

#[test]
fn executable_extension_of_a_path() {
    if Platform::current() == Platform::Unix {
        assert_eq!(resolve_exe_or_elf("a/b/c.exe"), "a/b/c");
        assert_eq!(resolve_exe_or_elf("a/b/c"), "a/b/c");
    } else {
        assert_eq!(resolve_exe_or_elf("a/b/c"), "a/b/c.exe");
    }
    assert_eq!(Platform::Windows.executable_extension(), "exe");
    assert_eq!(Platform::Unix.executable_extension(), "");
    assert_eq!(Platform::of_separator('\\'), Platform::Windows);
    assert_eq!(Platform::of_separator('/'), Platform::Unix);
    assert_eq!(Platform::current(), Platform::of_separator(std::path::MAIN_SEPARATOR));
    assert!(Platform::Windows.is_windows());
    assert!(!Platform::Unix.is_windows());
}

#[test]
fn search_path_grows_at_the_end() {
    assert_eq!(
        append_env_var(Platform::Unix, Some("/usr/bin".to_string()), "/opt/gcc".to_string()),
        "/usr/bin:/opt/gcc"
    );
    assert_eq!(
        append_env_var(Platform::Windows, Some("C:\\w".to_string()), "C:\\gcc".to_string()),
        "C:\\w;C:\\gcc"
    );
    assert_eq!(append_env_var(Platform::Unix, None, "/opt/gcc".to_string()), "/opt/gcc");
}
