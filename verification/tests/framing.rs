use judge_engine::events::{OutputCapture, CAPTURE_TIMEOUT_SECS};
use judge_engine::execution::{wait_step, WaitAction, WaitEvent};
use judge_engine::framing::{content_length, frame_header, header_is_complete, request_payload};
use judge_engine::installer::{
    escape_spaces, installer_available, installer_result, report_name, script_arguments,
    script_resource,
};
use judge_engine::logger::{LogLevel, SimpleLogger};
use judge_engine::checker::{CheckerMessage, CheckerStatus};
use judge_engine::platform::Platform;
use judge_engine::provider::{ExecuatorMessage, ExecuatorStatus};
use judge_engine::text::{has_prefix, has_suffix, chars_of, push_decimal};
use judge_engine::verdict::Verdict;

#[test]
fn the_header_of_a_frame() {
    assert_eq!(frame_header(0), "Content-Length: 0\r\n\r\n");
    assert_eq!(frame_header(7), "Content-Length: 7\r\n\r\n");
    assert_eq!(frame_header(1234), "Content-Length: 1234\r\n\r\n");
    assert_eq!(frame_header(usize::MAX), format!("Content-Length: {}\r\n\r\n", usize::MAX));
}

#[test]
fn a_header_ends_with_an_empty_line() {
    assert!(header_is_complete("Content-Length: 1\r\n\r\n"));
    assert!(header_is_complete("\r\n\r\n"));
    assert!(!header_is_complete("Content-Length: 1\r\n"));
    assert!(!header_is_complete("Content-Length: 1\r\n\r"));
    assert!(!header_is_complete("\n\n"));
    assert!(!header_is_complete(""));
}

#[test]
fn the_length_that_a_header_announces() {
    assert_eq!(content_length("Content-Length: 42\r\n\r\n"), Some(42));
    assert_eq!(content_length("Content-Length:42\r\n\r\n"), Some(42));
    assert_eq!(content_length("Content-Length:   +42  \r\n\r\n"), Some(42));
    assert_eq!(
        content_length("Content-Type: application/json\r\nContent-Length: 9\r\n\r\n"),
        Some(9)
    );
    assert_eq!(content_length("Content-Length: 1:2\r\n\r\n"), Some(1));
    assert_eq!(content_length("Content-Length: 1\r\nContent-Length: 2\r\n\r\n"), Some(1));
    assert_eq!(content_length(&frame_header(65536)), Some(65536));
    assert_eq!(content_length(&format!("Content-Length: {}\r\n\r\n", usize::MAX)), Some(usize::MAX));
}

#[test]
fn a_header_without_a_length() {
    assert_eq!(content_length(""), None);
    assert_eq!(content_length("\r\n\r\n"), None);
    assert_eq!(content_length("content-length: 42\r\n\r\n"), None);
    assert_eq!(content_length(" Content-Length: 42\r\n\r\n"), None);
    assert_eq!(content_length("Content-Length: \r\n\r\n"), None);
    assert_eq!(content_length("Content-Length: -1\r\n\r\n"), None);
    assert_eq!(content_length("Content-Length: 4 2\r\n\r\n"), None);
    assert_eq!(content_length("Content-Length: x\r\nContent-Length: 2\r\n\r\n"), None);
    assert_eq!(content_length("Content-Length: 99999999999999999999999\r\n\r\n"), None);
    assert_eq!(content_length("Content-Length: +\r\n\r\n"), None);
}

#[test]
fn the_payload_of_a_request() {
    assert_eq!(request_payload("POST / HTTP/1.1\r\nHost: x\r\n\r\n{\"a\":1}"), "{\"a\":1}");
    assert_eq!(request_payload("h\n\na\nb\n"), "ab");
    assert_eq!(request_payload("no empty line\nhere"), "");
    assert_eq!(request_payload("\nbody"), "body");
    assert_eq!(request_payload(""), "");
    let text = "a: b\r\n\r\nline one\r\n\r\nline two";
    let expected: String = text.lines().skip_while(|l| !l.is_empty()).collect();
    assert_eq!(request_payload(text), expected);
}

#[test]
fn prefixes_and_suffixes() {
    let v = chars_of("res:wcmp.exe");
    assert!(has_prefix(&v, "res:"));
    assert!(has_prefix(&v, ""));
    assert!(!has_prefix(&v, "res:wcmp.exe!"));
    assert!(!has_prefix(&v, "Res:"));
    assert!(has_suffix(&v, ".exe"));
    assert!(has_suffix(&v, "res:wcmp.exe"));
    assert!(!has_suffix(&v, ".EXE"));
    let mut s = String::from("n=");
    push_decimal(&mut s, 0);
    push_decimal(&mut s, 10);
    push_decimal(&mut s, u64::MAX);
    assert_eq!(s, format!("n=010{}", u64::MAX));
}

#[test]
fn waiting_for_a_program_without_input() {
    assert_eq!(wait_step(WaitEvent::Tick { elapsed_millis: 200 }, 1000), WaitAction::KeepWaiting);
    assert_eq!(wait_step(WaitEvent::Tick { elapsed_millis: 1000 }, 1000), WaitAction::KeepWaiting);
    assert_eq!(wait_step(WaitEvent::Tick { elapsed_millis: 1200 }, 1000), WaitAction::Kill);
    assert_eq!(wait_step(WaitEvent::Exited, 1000), WaitAction::Collect);
    assert_eq!(wait_step(WaitEvent::Exited, 0), WaitAction::Collect);
}

#[test]
fn running_an_installer_script() {
    assert_eq!(script_resource("mingw"), "sidecar/mingw.ps1");
    assert_eq!(report_name("mingw"), "mingw.json");
    assert_eq!(escape_spaces("C:\\Program Files\\a b"), "C:\\Program` Files\\a` b");
    assert_eq!(escape_spaces("C:\\Program Files\\a b"), "C:\\Program Files\\a b".replace(" ", "` "));
    assert_eq!(escape_spaces(""), "");
    assert_eq!(
        script_arguments("C:\\s\\mingw.ps1", "C:\\my data"),
        vec!["-ExecutionPolicy", "Bypass", "-File", "C:\\s\\mingw.ps1", "C:\\my` data"]
    );
    assert_eq!(installer_available(Platform::Windows), Ok(()));
    assert_eq!(
        installer_available(Platform::Unix),
        Err("Installer only work on windows".to_string())
    );
}

#[test]
fn the_result_of_an_installer_script() {
    assert_eq!(installer_result(true, Some(0), "{}".to_string()), Ok("{}".to_string()));
    assert_eq!(
        installer_result(false, Some(1), String::new()),
        Err("Process exit with code 1".to_string())
    );
    assert_eq!(
        installer_result(false, Some(-1073741510), String::new()),
        Err("Process exit with code -1073741510".to_string())
    );
    assert_eq!(
        installer_result(false, Some(i32::MIN), String::new()),
        Err(format!("Process exit with code {}", i32::MIN))
    );
    assert_eq!(
        installer_result(false, Some(i32::MAX), String::new()),
        Err(format!("Process exit with code {}", i32::MAX))
    );
    assert_eq!(
        installer_result(false, None, String::new()),
        Err("Process exit with terminal signal".to_string())
    );
    assert_eq!(CAPTURE_TIMEOUT_SECS, 3);
    let capture = OutputCapture::new(2, "o".to_string(), "e".to_string());
    assert_eq!((capture.exit_code, capture.stdout.as_str(), capture.stderr.as_str()), (2, "o", "e"));
}

#[test]
fn the_logger_prints_what_matters() {
    let logger = SimpleLogger;
    assert!(logger.enabled(LogLevel::Error));
    assert!(logger.enabled(LogLevel::Warn));
    assert!(logger.enabled(LogLevel::Info));
    assert!(!logger.enabled(LogLevel::Debug));
    assert!(!logger.enabled(LogLevel::Trace));
    assert_eq!(logger.log(LogLevel::Info, "started"), Some("[INFO] - started".to_string()));
    assert_eq!(logger.log(LogLevel::Error, "x"), Some("[ERROR] - x".to_string()));
    assert_eq!(logger.log(LogLevel::Warn, ""), Some("[WARN] - ".to_string()));
    assert_eq!(logger.log(LogLevel::Debug, "hidden"), None);
}

fn run(status: ExecuatorStatus, message: &str) -> ExecuatorMessage {
    ExecuatorMessage::new(status, message.to_string(), None)
}

#[test]
fn the_verdict_on_a_submission() {
    assert!(Verdict::of_run(run(ExecuatorStatus::PASS, "")).is_none());
    assert!(Verdict::needs_check(&run(ExecuatorStatus::PASS, "")));
    assert!(!Verdict::needs_check(&run(ExecuatorStatus::TLE, "")));
    assert!(matches!(Verdict::of_run(run(ExecuatorStatus::CE, "")), Some(Verdict::CompileError)));
    assert!(matches!(Verdict::of_run(run(ExecuatorStatus::RE, "")), Some(Verdict::RuntimeError)));
    assert!(matches!(
        Verdict::of_run(run(ExecuatorStatus::TLE, "")),
        Some(Verdict::TimeLimitExceeded)
    ));
    assert!(matches!(
        Verdict::of_run(run(ExecuatorStatus::MLE, "")),
        Some(Verdict::MemoryLimitExceeded)
    ));
    match Verdict::of_run(run(ExecuatorStatus::UKE, "spawn failed")) {
        Some(Verdict::UnknownError { message }) => assert_eq!(message, "spawn failed"),
        _ => panic!("no verdict"),
    }
    assert!(matches!(
        Verdict::of_check(CheckerMessage::new(CheckerStatus::AC, "ok".to_string())),
        Verdict::AC
    ));
    match Verdict::of_check(CheckerMessage::new(CheckerStatus::WA, "differs".to_string())) {
        Verdict::WA { report } => assert_eq!(report, "differs"),
        _ => panic!("must be rejected"),
    }
    match Verdict::of_check(CheckerMessage::new(CheckerStatus::UKE, "Checker timeout".to_string())) {
        Verdict::UnknownError { message } => assert_eq!(message, "Checker timeout"),
        _ => panic!("no verdict"),
    }
}
