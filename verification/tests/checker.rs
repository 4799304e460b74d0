use judge_engine::checker::{
    checker_arguments, checker_resource, get_bundled_checker_names, locate_checker,
    must_kill_check, must_kill_checker, CheckEnd, CheckResult, CheckerLocation, CheckerMessage,
    CheckerRun, CheckerState, CheckerStatus, CheckerType, CHECKER_TIMEOUT_MILLIS,
};
use judge_engine::compiler::{CompilerOptions, LanguageMode};
use judge_engine::platform::Platform;

#[test]
fn exit_status_zero_is_accepted() {
    let m = CheckerMessage::from_run(CheckerRun::Exited { success: true, report: "ok 3 numbers".to_string() });
    assert_eq!(m.status, CheckerStatus::AC);
    assert_eq!(m.message, "ok 3 numbers");
}

#[test]
fn another_exit_status_is_rejected_with_the_report() {
    let m = CheckerMessage::from_run(CheckerRun::Exited {
        success: false,
        report: "wrong answer 1st numbers differ".to_string(),
    });
    assert_eq!(m.status, CheckerStatus::WA);
    assert_eq!(m.message, "wrong answer 1st numbers differ");
    let m = CheckerMessage::from_run(CheckerRun::Exited { success: false, report: String::new() });
    assert_eq!(m.status, CheckerStatus::WA);
    assert_eq!(m.message, "");
}

#[test]
fn a_checker_out_of_time_gives_no_verdict_and_is_killed() {
    let m = CheckerMessage::from_run(CheckerRun::TimedOut);
    assert_eq!(m.status, CheckerStatus::UKE);
    assert_eq!(m.message, "Checker timeout");
    assert!(must_kill_checker(&CheckerRun::TimedOut));
    assert!(!must_kill_checker(&CheckerRun::Exited { success: false, report: String::new() }));
    assert_eq!(CHECKER_TIMEOUT_MILLIS, 5000);
}

#[test]
fn verdict_of_a_check_that_can_be_called_off() {
    assert!(matches!(
        CheckResult::from_end(CheckEnd::Exited { success: true, report: "x".to_string() }),
        CheckResult::AC
    ));
    match CheckResult::from_end(CheckEnd::Exited { success: false, report: "differs".to_string() }) {
        CheckResult::WA { report } => assert_eq!(report, "differs"),
        _ => panic!("must be rejected"),
    }
    assert!(matches!(CheckResult::from_end(CheckEnd::Aborted), CheckResult::CheckerInt));
    assert!(matches!(CheckResult::from_end(CheckEnd::TimedOut), CheckResult::CheckerTimeout));
}

#[test]
fn a_check_out_of_time_is_killed_whichever_way_it_runs() {
    assert!(must_kill_check(&CheckEnd::TimedOut));
    assert!(!must_kill_check(&CheckEnd::Aborted));
    assert!(!must_kill_check(&CheckEnd::Exited { success: true, report: String::new() }));
}

#[test]
fn calling_off_reaches_every_check_under_way() {
    let mut state = CheckerState::new();
    assert!(state.is_empty());
    let a = state.register();
    let b = state.register();
    let c = state.register();
    assert_eq!((a, b, c), (0, 1, 2));
    state.deregister(b);
    let mut told = state.abort_all();
    told.sort();
    assert_eq!(told, vec![0, 2]);
    // telling does not strike out: each check does that when it ends
    assert!(!state.is_empty());
    for id in told {
        assert!(matches!(CheckResult::from_end(CheckEnd::Aborted), CheckResult::CheckerInt));
        state.deregister(id);
    }
    assert!(state.is_empty());
    assert!(state.abort_all().is_empty());
    // a check that has ended already is struck out without harm
    state.deregister(a);
    assert!(state.is_empty());
    assert_eq!(state.register(), 3);
}

#[test]
fn where_a_checker_is_found() {
    match locate_checker("res:wcmp".to_string(), Platform::Unix) {
        CheckerLocation::Bundled { resource } => assert_eq!(resource, "bin/wcmp"),
        CheckerLocation::Path { .. } => panic!("bundled"),
    }
    match locate_checker("res:wcmp".to_string(), Platform::Windows) {
        CheckerLocation::Bundled { resource } => assert_eq!(resource, "bin/wcmp.exe"),
        CheckerLocation::Path { .. } => panic!("bundled"),
    }
    match locate_checker("res:wcmp.exe".to_string(), Platform::Unix) {
        CheckerLocation::Bundled { resource } => assert_eq!(resource, "bin/wcmp"),
        CheckerLocation::Path { .. } => panic!("bundled"),
    }
    match locate_checker("/opt/chk/my".to_string(), Platform::Unix) {
        CheckerLocation::Path { path } => assert_eq!(path, "/opt/chk/my"),
        CheckerLocation::Bundled { .. } => panic!("a path"),
    }
    match locate_checker("res".to_string(), Platform::Unix) {
        CheckerLocation::Path { path } => assert_eq!(path, "res"),
        CheckerLocation::Bundled { .. } => panic!("a path"),
    }
    match locate_checker("res:".to_string(), Platform::Unix) {
        CheckerLocation::Bundled { resource } => assert_eq!(resource, "bin/"),
        CheckerLocation::Path { .. } => panic!("bundled"),
    }
}

#[test]
fn the_file_of_a_bundled_checker() {
    let internal = CheckerType::Internal { name: "ncmp".to_string() };
    assert_eq!(checker_resource(&internal, Platform::Unix), Some("sidecar/ncmp".to_string()));
    assert_eq!(checker_resource(&internal, Platform::Windows), Some("sidecar/ncmp.exe".to_string()));
    let external = CheckerType::External {
        mode: LanguageMode::CXX,
        source: "int main() {}".to_string(),
        compiler_options: CompilerOptions { path: None, args: None },
        suggest_output_path: None,
    };
    assert_eq!(checker_resource(&external, Platform::Unix), None);
}

#[test]
fn a_checker_takes_four_arguments() {
    let args = checker_arguments("in".to_string(), "out".to_string(), "ans".to_string(), "rep".to_string());
    assert_eq!(args, vec!["in", "out", "ans", "rep"]);
}

#[test]
fn the_bundled_checkers_are_listed_one_to_a_line() {
    assert_eq!(get_bundled_checker_names("wcmp\nncmp\r\nyesno\n"), vec!["wcmp", "ncmp", "yesno"]);
    assert_eq!(get_bundled_checker_names("wcmp"), vec!["wcmp"]);
    assert_eq!(get_bundled_checker_names("a\n\nb"), vec!["a", "", "b"]);
    assert_eq!(get_bundled_checker_names("a\r"), vec!["a\r"]);
    assert_eq!(get_bundled_checker_names("\n"), vec![""]);
    assert!(get_bundled_checker_names("").is_empty());
    let text = "fcmp\nhcmp\r\n\nlcmp\r";
    let expected: Vec<&str> = text.lines().collect();
    assert_eq!(get_bundled_checker_names(text), expected);
}
