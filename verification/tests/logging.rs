use caligula::coredump::CoredumpInstructions;
use caligula::logging::{
    crash_exit, error_message_lines, panic_message_lines, CrashExit, ErrorContext, ErrorInfo,
    ErrorSeverity, LogPaths, RemediationAdvice,
};
use caligula::styled::{Color, Segment, Style};

fn texts(lines: &[Vec<Segment>]) -> Vec<String> {
    lines
        .iter()
        .map(|l| l.iter().map(|s| s.text.clone()).collect::<String>())
        .collect()
}

#[test]
fn log_path_in_state_dir() {
    assert_eq!(LogPaths::init("/home/u/.local/state", false).main(), "/home/u/.local/state/caligula.log");
    assert_eq!(LogPaths::init("/home/u/state/", false).main(), "/home/u/state/caligula.log");
    assert_eq!(LogPaths::init("", false).main(), "caligula.log");
    assert_eq!(LogPaths::init("/", false).main(), "/caligula.log");
}

#[test]
fn log_path_in_debug_build() {
    assert_eq!(LogPaths::init("/home/u/.local/state", true).main(), "caligula.log");
}

#[test]
fn bug_report_message_names_log() {
    let p = LogPaths::init("/s", false);
    assert_eq!(
        p.get_bug_report_msg(),
        "This is likely a bug caused by developer error. Please report the issue to https://github.com/ifd3f/caligula/issues and attach the log file in /s/caligula.log"
    );
}

#[test]
fn unclassified_errors_are_fatal_and_transient() {
    assert_eq!(
        ErrorInfo::unclassified(),
        ErrorInfo { severity: ErrorSeverity::Fatal, remediation: RemediationAdvice::Transient }
    );
}

#[test]
fn panics_abort_others_exit() {
    let info = |severity| ErrorInfo { severity, remediation: RemediationAdvice::DeveloperError };
    assert_eq!(crash_exit(&info(ErrorSeverity::Panic)), CrashExit::Abort);
    assert_eq!(crash_exit(&info(ErrorSeverity::Fatal)), CrashExit::Exit(1));
    assert_eq!(crash_exit(&info(ErrorSeverity::Recoverable)), CrashExit::Exit(1));
}

#[test]
fn developer_error_report() {
    let ctx = ErrorContext { log_path: "/tmp/c.log".into() };
    let info = ErrorInfo { severity: ErrorSeverity::Recoverable, remediation: RemediationAdvice::DeveloperError };
    let lines = error_message_lines(&ctx, &info, "boom");
    assert_eq!(
        texts(&lines),
        vec![
            "Caligula could not recover from an error it should have recovered from!".to_string(),
            "boom".into(),
            "".into(),
            "This is most likely a bug caused by developer error.".into(),
            "We would highly appreciate it if you reported it to the bug tracker: https://github.com/ifd3f/caligula/issues".into(),
            "Please include this log file in your bug report: /tmp/c.log".into(),
            "".into(),
        ]
    );
    assert_eq!(lines[0][0].style, Style { bold: true, color: Some(Color::Red) });
    assert_eq!(lines[1][0].style, Style { bold: false, color: Some(Color::Red) });
    assert_eq!(lines[4][1].style, Style { bold: false, color: None });
    assert_eq!(lines[5][2].style, Style { bold: true, color: Some(Color::Yellow) });
}

#[test]
fn transient_report() {
    let ctx = ErrorContext { log_path: "L".into() };
    let info = ErrorInfo { severity: ErrorSeverity::Fatal, remediation: RemediationAdvice::Transient };
    let lines = error_message_lines(&ctx, &info, "e");
    assert_eq!(
        texts(&lines),
        vec![
            "Caligula encountered a fatal error and had to abort!".to_string(),
            "e".into(),
            "".into(),
            "This is most likely a transient issue. Please try running the program again. If that doesn't work, please check your system and hardware configuration.".into(),
            "If issues still persist, we would highly appreciate it if you reported it to the bug tracker: https://github.com/ifd3f/caligula/issues".into(),
            "Please include this log file in your bug report: L".into(),
            "".into(),
        ]
    );
    assert_eq!(lines[3][0].style, Style { bold: true, color: Some(Color::Yellow) });
    assert_eq!(lines[3][2].style, Style { bold: false, color: Some(Color::Yellow) });
}

#[test]
fn panic_report() {
    let lines = panic_message_lines("it broke", "/l.log", &CoredumpInstructions::CurrentDirectory("core".into()));
    assert_eq!(
        texts(&lines),
        vec![
            "!!! PROGRAM PANICKED !!!".to_string(),
            "it broke".into(),
            "".into(),
            "This is likely a bug caused by developer error.".into(),
            "We would highly appreciate it if you reported it here: https://github.com/ifd3f/caligula/issues".into(),
            "Please include this log file in your bug report: /l.log".into(),
            "".into(),
            "Though it's not required, it would help with debugging if you attached a coredump in addition to your logs.".into(),
            "Your system appears to write coredumps to a file like core in the current working directory.".into(),
            "".into(),
            "".into(),
        ]
    );
    assert_eq!(lines[8][0].style, Style { bold: false, color: Some(Color::Cyan) });
}
