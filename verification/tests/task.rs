use judge_engine::command::Env;
use judge_engine::task::{
    get_default_env, output_file_name, path_of_temp_dir, prepare_launch, task_command, task_env,
    temp_dir_name,
};

#[test]
fn the_directory_of_a_task() {
    assert_eq!(temp_dir_name("42"), "algorime-42");
    assert_eq!(temp_dir_name(""), "algorime-");
    let dir = path_of_temp_dir("tmp", "42");
    assert!(dir.starts_with("tmp"));
    assert!(dir.ends_with("algorime-42"));
}

#[test]
fn the_name_of_the_output_file() {
    assert_eq!(output_file_name(0), "output-0.txt");
    assert_eq!(output_file_name(9), "output-9.txt");
    assert_eq!(output_file_name(10), "output-a.txt");
    assert_eq!(output_file_name(255), "output-ff.txt");
    assert_eq!(output_file_name(256), "output-100.txt");
    assert_eq!(output_file_name(0xdead_beef), "output-deadbeef.txt");
    assert_eq!(output_file_name(u64::MAX), "output-ffffffffffffffff.txt");
    assert_eq!(output_file_name(0x0123_4567_89ab_cdef), format!("output-{:x}.txt", 0x0123_4567_89ab_cdefu64));
}

#[test]
fn the_environment_of_a_task() {
    let mut env = Env::new();
    env.insert("A".to_string(), "user".to_string());
    env.insert("BUNDLED_LSP".to_string(), "user".to_string());
    env.insert("CWD".to_string(), "user".to_string());
    let defaults = get_default_env("/res/lang-server");
    assert_eq!(defaults.len(), 1);
    let merged = task_env(&env, &defaults, "/tmp/algorime-1");
    assert_eq!(merged.get("A"), Some(&"user".to_string()));
    assert_eq!(merged.get("BUNDLED_LSP"), Some(&"/res/lang-server".to_string()));
    assert_eq!(merged.get("CWD"), Some(&"/tmp/algorime-1".to_string()));
    assert_eq!(merged.len(), 3);
}

#[test]
fn the_command_of_a_task() {
    let env = Env::new();
    let defaults = get_default_env("/res/ls");
    let cmd = task_command("%CWD/main --lsp %BUNDLED_LSP/clangd", &env, &defaults, "/tmp/t").unwrap();
    assert_eq!(cmd.get_program(), "/tmp/t/main");
    assert_eq!(cmd.get_args(), vec!["--lsp", "/res/ls/clangd"]);
    assert_eq!(cmd.current_dir, Some("/tmp/t".to_string()));
    assert_eq!(task_command("  ", &env, &defaults, "/tmp/t").unwrap_err(), "Empty command");
}

#[test]
fn preparing_a_launch() {
    let env = Env::new();
    let defaults = Env::new();
    let launch = prepare_launch("tmp", "7", "%CWD/main", &env, &defaults, "in/1.txt").unwrap();
    assert!(launch.temp_dir.starts_with("tmp"));
    assert!(launch.temp_dir.ends_with("algorime-7"));
    assert_eq!(launch.command.get_program(), format!("{}/main", launch.temp_dir));
    assert_eq!(launch.command.current_dir, Some(launch.temp_dir.clone()));
    assert!(launch.output_file.starts_with(&launch.temp_dir));
    assert!(launch.output_file.ends_with(".txt"));
    let again = prepare_launch("tmp", "7", "%CWD/main", &env, &defaults, "in/1.txt").unwrap();
    assert_eq!(again.output_file, launch.output_file);
    assert_eq!(
        prepare_launch("tmp", "7", "", &env, &defaults, "in/1.txt").unwrap_err(),
        "Empty command"
    );
}
