use judge_engine::cache::CachePlan;
use judge_engine::platform::Platform;
use judge_engine::provider::{
    cached_source_name, cached_target_name, compile_plan, provider_for, CPRunDetachedOption,
    CompilerCaller, ExecuatorCaller, ExecuatorMessage, ExecuatorStatus, ExeExecuator, GccCompiler,
    GccProvider, LanguageRegister, RunEnd,
};

#[test]
fn the_languages_that_have_a_provider() {
    for name in ["gcc", "g++", "cpp", "GCC", "Cpp", "G++"] {
        assert!(LanguageRegister.get(name).is_some(), "{}", name);
    }
    for name in ["", "c", "python", "gcc ", "clang"] {
        assert!(LanguageRegister.get(name).is_none(), "{}", name);
    }
    assert!(provider_for("gcc").is_some());
    assert!(provider_for("GCC").is_none());
}

#[test]
fn the_command_of_the_compiler() {
    let compiler = GccProvider.compiler();
    assert_eq!(compiler.ext(), "cpp");
    let cmd = compiler.compile_command(
        "a.cpp".to_string(),
        "a.out".to_string(),
        &vec!["-O2".to_string(), "-Wall".to_string()],
    );
    assert_eq!(cmd.get_program(), "g++");
    assert_eq!(cmd.get_args(), vec!["a.cpp", "-o", "a.out", "-O2", "-Wall"]);
    let cmd = GccCompiler.compile_command("a.cpp".to_string(), "a.out".to_string(), &Vec::new());
    assert_eq!(cmd.get_args(), vec!["a.cpp", "-o", "a.out"]);
}

#[test]
fn the_command_of_a_program_on_its_own() {
    let option = CPRunDetachedOption {
        terminal_program: "xterm".to_string(),
        terminal_arguments: vec!["-e".to_string()],
    };
    let cmd = GccProvider.executaor().run_detached("pauser", "/w/target", option);
    assert_eq!(cmd.get_program(), "xterm");
    assert_eq!(cmd.get_args(), vec!["-e", "pauser", "/w/target"]);
}

#[test]
fn how_the_end_of_a_run_is_reported() {
    let exec = GccProvider.generator();
    assert_eq!(exec.run(RunEnd::Exited { success: true }), Ok(()));
    assert_eq!(exec.run(RunEnd::Exited { success: false }), Err((ExecuatorStatus::RE, String::new())));
    assert_eq!(exec.run(RunEnd::TimedOut), Err((ExecuatorStatus::TLE, String::new())));
    assert_eq!(
        exec.run(RunEnd::SetupFailed { message: "no such file".to_string() }),
        Err((ExecuatorStatus::UKE, "no such file".to_string()))
    );
    assert_eq!(
        exec.run(RunEnd::StderrUnreadable { message: "bad utf-8".to_string() }),
        Err((ExecuatorStatus::RE, "bad utf-8".to_string()))
    );
    assert_eq!(
        ExeExecuator.run(RunEnd::WaitFailed { message: "gone".to_string() }),
        Err((ExecuatorStatus::UKE, "gone".to_string()))
    );
}

#[test]
fn the_message_of_a_run() {
    let m = ExecuatorMessage::compile_failed();
    assert_eq!(m.status, ExecuatorStatus::CE);
    assert_eq!(m.message, "");
    assert_eq!(m.output, None);

    let m = ExecuatorMessage::from_run(Ok(()), "out.txt".to_string());
    assert_eq!(m.status, ExecuatorStatus::PASS);
    assert_eq!(m.message, "");
    assert_eq!(m.output, Some("out.txt".to_string()));

    let m = ExecuatorMessage::from_run(
        Err((ExecuatorStatus::TLE, String::new())),
        "out.txt".to_string(),
    );
    assert_eq!(m.status, ExecuatorStatus::TLE);
    assert_eq!(m.output, None);

    let m = ExecuatorMessage::new(ExecuatorStatus::MLE, "too much".to_string(), None);
    assert_eq!(m.status, ExecuatorStatus::MLE);
    assert_eq!(m.message, "too much");
}

#[test]
fn names_in_the_cache() {
    assert_eq!(cached_source_name("abc", "cpp"), "abc.cpp");
    assert_eq!(cached_target_name("abc", Platform::Unix), "abc");
    assert_eq!(cached_target_name("abc", Platform::Windows), "abc.exe");
    match compile_plan("t".to_string(), true) {
        CachePlan::Reuse { artifact } => assert_eq!(artifact, "t"),
        CachePlan::Compile => panic!("the artifact is there"),
    }
    assert!(matches!(compile_plan("t".to_string(), false), CachePlan::Compile));
}
