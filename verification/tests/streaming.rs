use judge_engine::compiler::{CompileDataStore, LanguageMode};
use judge_engine::streaming::{
    log_file_names, run_command, working_dir_of, CollectEvent, CollectState, ExitReport,
    RunResult, RunnerOutputCommand, RunnerOutputUpdater, RunnerState, FLUSH_MILLIS,
};
use judge_engine::strmap::StringMap;

fn shown(commands: &[RunnerOutputCommand]) -> Vec<String> {
    commands
        .iter()
        .map(|c| match c {
            RunnerOutputCommand::Clear => "clear".to_string(),
            RunnerOutputCommand::AppendStdout { line } => format!("out:{}", line),
            RunnerOutputCommand::AppendStderr { line } => format!("err:{}", line),
        })
        .collect()
}

#[test]
fn a_flush_hands_out_what_was_gathered_and_starts_over() {
    let mut updater = RunnerOutputUpdater::new("t".to_string());
    assert!(matches!(updater.clear(), RunnerOutputCommand::Clear));
    assert!(updater.flush().is_empty());
    updater.append_stdout("a");
    updater.append_stdout("\n");
    updater.append_stdout("b");
    updater.append_stderr("oops");
    assert_eq!(shown(&updater.flush()), vec!["out:a\nb", "err:oops"]);
    assert!(updater.flush().is_empty());
    updater.append_stderr("again");
    assert_eq!(shown(&updater.flush()), vec!["err:again"]);
    updater.append_stdout("c");
    assert_eq!(shown(&updater.flush()), vec!["out:c"]);
    assert_eq!(updater.task_id, "t");
    assert_eq!(FLUSH_MILLIS, 500);
}

#[test]
fn lines_are_collected_with_a_line_feed_behind_each() {
    let mut state = CollectState::new();
    let mut updater = RunnerOutputUpdater::new("t".to_string());
    let mut updates = Vec::new();
    let events = vec![
        (CollectEvent::StdoutLine { line: "1".to_string() }, 10),
        (CollectEvent::StdoutLine { line: "2".to_string() }, 20),
        (CollectEvent::StderrLine { line: "e1".to_string() }, 30),
        (CollectEvent::Tick, 530),
        (CollectEvent::Tick, 600),
        (CollectEvent::StdoutLine { line: "3".to_string() }, 700),
        (CollectEvent::StdoutEof, 710),
        (CollectEvent::StderrLine { line: "e2".to_string() }, 720),
        (CollectEvent::StderrEof, 730),
    ];
    for (event, elapsed) in events {
        assert!(!state.is_drained());
        updates.extend(shown(&state.step(&mut updater, event, elapsed)));
    }
    assert!(state.is_drained());
    assert_eq!(updates, vec!["out:1\n2\n", "err:e1\n"]);
    updates.extend(shown(&updater.flush()));
    assert_eq!(updates, vec!["out:1\n2\n", "err:e1\n", "out:3\n", "err:e2\n"]);
    assert_eq!(state.stdout_buf, "1\n2\n3\n");
    assert_eq!(state.stderr_buf, "e1\ne2\n");
}

#[test]
fn a_program_that_writes_steadily_is_shown_on_the_interval() {
    let mut state = CollectState::new();
    let mut updater = RunnerOutputUpdater::new("t".to_string());
    let mut shown_at = Vec::new();
    let mut seen = String::new();
    let mut elapsed: u128 = 0;
    while elapsed < 1200 {
        // a line every 100 ms: the clock never gets a turn of its own
        elapsed += 100;
        let line = format!("{}", elapsed);
        for command in state.step(&mut updater, CollectEvent::StdoutLine { line }, elapsed) {
            match command {
                RunnerOutputCommand::AppendStdout { line } => {
                    shown_at.push(elapsed);
                    seen.push_str(&line);
                }
                _ => panic!("only the output was written to"),
            }
        }
    }
    assert_eq!(shown_at, vec![500, 1000]);
    assert_eq!(seen, "100\n200\n300\n400\n500\n600\n700\n800\n900\n1000\n");
    assert_eq!(shown(&updater.flush()), vec!["out:1100\n1200\n"]);
    assert_eq!(state.flushed_at, 1000);
    assert_eq!(FLUSH_MILLIS, 500);
}

#[test]
fn what_is_echoed_comes_back_with_its_line_feed() {
    let mut state = CollectState::new();
    let mut updater = RunnerOutputUpdater::new("t".to_string());
    state.step(&mut updater, CollectEvent::StdoutLine { line: "hello".to_string() }, 5);
    state.step(&mut updater, CollectEvent::StdoutEof, 6);
    state.step(&mut updater, CollectEvent::StderrEof, 6);
    assert!(state.is_drained());
    assert_eq!(state.stdout_buf, "hello\n");
    assert_eq!(state.stderr_buf, "");
    assert_eq!(shown(&updater.flush()), vec!["out:hello\n"]);
}

#[test]
fn an_empty_line_is_a_line() {
    let mut state = CollectState::new();
    let mut updater = RunnerOutputUpdater::new("t".to_string());
    state.step(&mut updater, CollectEvent::StdoutLine { line: String::new() }, 1);
    state.step(&mut updater, CollectEvent::StdoutLine { line: "x".to_string() }, 2);
    assert_eq!(state.stdout_buf, "\nx\n");
    assert_eq!(shown(&updater.flush()), vec!["out:\nx\n"]);
}

#[test]
fn result_of_a_run() {
    let pass = RunResult::from_run(
        Some(ExitReport { success: true, code: Some(0) }),
        "o".to_string(),
        "e".to_string(),
    );
    match pass {
        RunResult::PASS { output_file, error_file } => {
            assert_eq!(output_file, "o");
            assert_eq!(error_file, "e");
        }
        _ => panic!("must pass"),
    }
    let failed = RunResult::from_run(
        Some(ExitReport { success: false, code: Some(139) }),
        "o".to_string(),
        "e".to_string(),
    );
    match failed {
        RunResult::RE { exit_code, output_file, error_file } => {
            assert_eq!(exit_code, 139);
            assert_eq!(output_file, "o");
            assert_eq!(error_file, "e");
        }
        _ => panic!("must fail"),
    }
    let signalled =
        RunResult::from_run(Some(ExitReport { success: false, code: None }), "o".to_string(), "e".to_string());
    assert!(matches!(signalled, RunResult::RE { exit_code: -1, .. }));
    assert!(matches!(RunResult::from_run(None, "o".to_string(), "e".to_string()), RunResult::TLE));
}

#[test]
fn names_of_the_log_files() {
    let (out, err) = log_file_names("42");
    assert_eq!(out, "task42-stdout.log");
    assert_eq!(err, "task42-stderr.log");
}

fn record() -> CompileDataStore {
    let mut env = StringMap::new();
    env.insert("PATH".to_string(), "/opt/bin".to_string());
    CompileDataStore {
        compile: "python3".to_string(),
        source: "/w/source.py".to_string(),
        compile_args: vec!["-u".to_string()],
        required_env_running: Some(env),
    }
}

#[test]
fn the_command_of_a_run() {
    let cmd = run_command(LanguageMode::CXX, "/w/target".to_string(), &record(), "/w".to_string());
    assert_eq!(cmd.get_program(), "/w/target");
    assert!(cmd.get_args().is_empty());
    assert_eq!(cmd.envs.get("PATH"), Some(&"/opt/bin".to_string()));
    assert_eq!(cmd.current_dir, Some("/w".to_string()));

    let cmd = run_command(LanguageMode::PY, "/w/source.py".to_string(), &record(), "/w".to_string());
    assert_eq!(cmd.get_program(), "python3");
    assert_eq!(cmd.get_args(), vec!["/w/source.py", "-u"]);
    assert_eq!(cmd.current_dir, Some("/w".to_string()));

    assert_eq!(working_dir_of("w/target"), Some("w".to_string()));
    assert_eq!(working_dir_of(""), None);
}

#[test]
fn a_task_runs_once_at_a_time() {
    let mut state = RunnerState::new();
    assert_eq!(state.begin("1"), Ok(()));
    assert_eq!(state.begin("1"), Err("operation would block".to_string()));
    assert_eq!(state.begin("2"), Ok(()));
    state.end("1");
    assert_eq!(state.begin("1"), Ok(()));
}
