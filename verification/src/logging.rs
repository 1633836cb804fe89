//! Where the log goes, and what the user is told when the program dies.
use vstd::prelude::*;
use vstd::string::*;

use crate::coredump::{instructions_text, CoredumpInstructions};
use crate::styled::{bold_colored, colored, plain, seg, Color, Segment, SegmentView, Style};
use crate::text::chars_of;

verus! {

pub const ISSUE_TRACKER_URL: &'static str = "https://github.com/ifd3f/caligula/issues";

pub const LOG_FILE_NAME: &'static str = "caligula.log";

pub const BUG_REPORT_PREFIX: &'static str =
    "This is likely a bug caused by developer error. Please report the issue to https://github.com/ifd3f/caligula/issues and attach the log file in ";

pub const PANIC_HEADER: &'static str = "!!! PROGRAM PANICKED !!!";

pub const FATAL_HEADER: &'static str = "Caligula encountered a fatal error and had to abort!";

pub const RECOVERABLE_HEADER: &'static str =
    "Caligula could not recover from an error it should have recovered from!";

pub const DEVELOPER_ERROR_LINE: &'static str = "This is most likely a bug caused by developer error.";

pub const DEVELOPER_REPORT_LINE: &'static str =
    "We would highly appreciate it if you reported it to the bug tracker:";

pub const INCLUDE_LOG_LINE: &'static str = "Please include this log file in your bug report:";

pub const INCLUDE_LOG_LINE_SPACED: &'static str = "Please include this log file in your bug report: ";

pub const TRANSIENT_LINE: &'static str = "This is most likely a transient issue.";

pub const TRANSIENT_ADVICE: &'static str =
    "Please try running the program again. If that doesn't work, please check your \
                 system and hardware configuration.";

pub const TRANSIENT_REPORT_LINE: &'static str =
    "If issues still persist, we would highly appreciate it if you reported it to the \
                 bug tracker:";

pub const PANIC_BUG_LINE: &'static str = "This is likely a bug caused by developer error.";

pub const PANIC_REPORT_LINE: &'static str = "We would highly appreciate it if you reported it here: ";

pub const COREDUMP_REQUEST_LINE: &'static str =
    "Though it's not required, it would help with debugging if you attached a coredump in \
             addition to your logs.";

/// Which files to log to.
#[derive(Debug, Clone)]
pub struct LogPaths {
    log_path: String,
}

/// `dir` joined with `name` the way `Path::join` joins a relative name:
/// a separator goes between them unless `dir` is empty or already ends in one.
pub open spec fn join_relative(dir: Seq<char>, name: Seq<char>) -> Seq<char> {
    if dir.len() == 0 || dir.last() == '/' {
        dir + name
    } else {
        dir + "/"@ + name
    }
}

/// The log file's path: in a debug build the working directory's
/// `caligula.log`, else `caligula.log` in the state directory.
pub open spec fn log_path_for(state_dir: Seq<char>, debug_build: bool) -> Seq<char> {
    if debug_build {
        LOG_FILE_NAME@
    } else {
        join_relative(state_dir, LOG_FILE_NAME@)
    }
}

impl LogPaths {
    pub closed spec fn log_path(&self) -> Seq<char> {
        self.log_path@
    }

    /// The log paths for a program whose state directory is `state_dir`.
    pub fn init(state_dir: &str, debug_build: bool) -> (p: Self)
        ensures
            p.log_path() == log_path_for(state_dir@, debug_build),
    {
        if debug_build {
            LogPaths { log_path: String::from_str(LOG_FILE_NAME) }
        } else {
            let v = chars_of(state_dir);
            let mut path = String::from_str(state_dir);
            if v.len() != 0 && v[v.len() - 1] != '/' {
                path.append("/");
            }
            path.append(LOG_FILE_NAME);
            LogPaths { log_path: path }
        }
    }

    /// The main log file.
    pub fn main(&self) -> (s: &str)
        ensures
            s@ == self.log_path(),
    {
        self.log_path.as_str()
    }

    /// A message asking the user to report a bug with the log attached.
    pub fn get_bug_report_msg(&self) -> (s: String)
        ensures
            s@ == BUG_REPORT_PREFIX@ + self.log_path(),
    {
        let mut s = String::from_str(BUG_REPORT_PREFIX);
        s.append(self.log_path.as_str());
        s
    }
}

/// An error that knows how it should be reported.
pub trait ErrorWithInfo {
    /// How the error should be reported.
    fn error_info(&self) -> ErrorInfo;
}

/// Information to print to the user.
#[derive(Debug, PartialEq, Eq)]
pub struct ErrorInfo {
    pub severity: ErrorSeverity,
    pub remediation: RemediationAdvice,
}

/// What the report of a crash can refer to.
pub struct ErrorContext {
    pub log_path: String,
}

/// How bad this error is.
#[derive(Debug, Clone, PartialEq, Eq)]
pub enum ErrorSeverity {
    /// A panic. Only the panic hook should produce this.
    Panic,
    /// Not a panic, but nothing the program can recover from.
    Fatal,
    /// An error the program should have recovered from.
    Recoverable,
}

/// Advice to give the user for remediating this error.
#[derive(Debug, Clone, PartialEq, Eq)]
pub enum RemediationAdvice {
    /// The developer's fault.
    DeveloperError,
    /// Likely transient.
    Transient,
}

impl ErrorInfo {
    /// The information given to an error that carries no classification of
    /// its own: fatal, and likely transient.
    pub fn unclassified() -> (i: ErrorInfo)
        ensures
            i.severity == ErrorSeverity::Fatal,
            i.remediation == RemediationAdvice::Transient,
    {
        ErrorInfo { severity: ErrorSeverity::Fatal, remediation: RemediationAdvice::Transient }
    }
}

/// How the process ends after reporting a fatal error.
#[derive(Debug, Clone, Copy, PartialEq, Eq)]
pub enum CrashExit {
    /// Abort, so that a coredump is written.
    Abort,
    /// Exit normally with this status.
    Exit(i32),
}

/// Panics abort so that a coredump is written; all other errors exit with
/// status 1.
pub fn crash_exit(info: &ErrorInfo) -> (e: CrashExit)
    ensures
        e == (if info.severity == ErrorSeverity::Panic {
            CrashExit::Abort
        } else {
            CrashExit::Exit(1)
        }),
{
    match info.severity {
        ErrorSeverity::Panic => CrashExit::Abort,
        _ => CrashExit::Exit(1),
    }
}

/// The header line for an error of the given severity.
pub open spec fn severity_header(s: ErrorSeverity) -> Seq<char> {
    match s {
        ErrorSeverity::Panic => PANIC_HEADER@,
        ErrorSeverity::Fatal => FATAL_HEADER@,
        ErrorSeverity::Recoverable => RECOVERABLE_HEADER@,
    }
}

/// The advice lines for a remediation, ending in a blank line.
pub open spec fn remediation_lines(r: RemediationAdvice, log_path: Seq<char>) -> Seq<
    Seq<SegmentView>,
> {
    match r {
        RemediationAdvice::DeveloperError => seq![
            seq![seg(DEVELOPER_ERROR_LINE@, bold_colored(Color::Yellow))],
            seq![
                seg(DEVELOPER_REPORT_LINE@, colored(Color::Yellow)),
                seg(" "@, plain()),
                seg(ISSUE_TRACKER_URL@, bold_colored(Color::Yellow)),
            ],
            seq![
                seg(INCLUDE_LOG_LINE@, colored(Color::Yellow)),
                seg(" "@, plain()),
                seg(log_path, bold_colored(Color::Yellow)),
            ],
            seq![],
        ],
        RemediationAdvice::Transient => seq![
            seq![
                seg(TRANSIENT_LINE@, bold_colored(Color::Yellow)),
                seg(" "@, plain()),
                seg(TRANSIENT_ADVICE@, colored(Color::Yellow)),
            ],
            seq![
                seg(TRANSIENT_REPORT_LINE@, colored(Color::Yellow)),
                seg(" "@, plain()),
                seg(ISSUE_TRACKER_URL@, bold_colored(Color::Yellow)),
            ],
            seq![
                seg(INCLUDE_LOG_LINE_SPACED@, colored(Color::Yellow)),
                seg(log_path, bold_colored(Color::Yellow)),
            ],
            seq![],
        ],
    }
}

/// The report shown on the terminal for a fatal error.
pub open spec fn error_report(info: ErrorInfo, error_text: Seq<char>, log_path: Seq<char>) -> Seq<
    Seq<SegmentView>,
> {
    seq![
        seq![seg(severity_header(info.severity), bold_colored(Color::Red))],
        seq![seg(error_text, colored(Color::Red))],
        seq![],
    ] + remediation_lines(info.remediation, log_path)
}

/// The report shown on the terminal when the program panics, with the
/// coredump advice and the two blank lines that part it from the system's
/// own "core dumped" notice.
pub open spec fn panic_report(panic_text: Seq<char>, log_path: Seq<char>, coredump: Seq<char>) -> Seq<
    Seq<SegmentView>,
> {
    seq![
        seq![seg(PANIC_HEADER@, bold_colored(Color::Red))],
        seq![seg(panic_text, colored(Color::Red))],
        seq![],
        seq![seg(PANIC_BUG_LINE@, bold_colored(Color::Yellow))],
        seq![
            seg(PANIC_REPORT_LINE@, colored(Color::Yellow)),
            seg(ISSUE_TRACKER_URL@, bold_colored(Color::Yellow)),
        ],
        seq![
            seg(INCLUDE_LOG_LINE_SPACED@, colored(Color::Yellow)),
            seg(log_path, bold_colored(Color::Yellow)),
        ],
        seq![],
        seq![seg(COREDUMP_REQUEST_LINE@, bold_colored(Color::Cyan))],
        seq![seg(coredump, colored(Color::Cyan))],
        seq![],
        seq![],
    ]
}

fn severity_header_str(s: &ErrorSeverity) -> (h: &'static str)
    ensures
        h@ == severity_header(*s),
{
    match s {
        ErrorSeverity::Panic => PANIC_HEADER,
        ErrorSeverity::Fatal => FATAL_HEADER,
        ErrorSeverity::Recoverable => RECOVERABLE_HEADER,
    }
}

/// The lines to show on the terminal for a fatal error whose message is
/// `error_text`.
pub fn error_message_lines(ctx: &ErrorContext, info: &ErrorInfo, error_text: &str) -> (lines: Vec<
    Vec<Segment>,
>)
    ensures
        lines.deep_view() == error_report(*info, error_text@, ctx.log_path@),
{
    let yellow = Style::colored(Color::Yellow);
    let bold_yellow = Style::bold_colored(Color::Yellow);
    let mut lines: Vec<Vec<Segment>> = vec![
        vec![Segment::new(severity_header_str(&info.severity), Style::bold_colored(Color::Red))],
        vec![Segment::new(error_text, Style::colored(Color::Red))],
        vec![],
    ];
    let rest: Vec<Vec<Segment>> = match info.remediation {
        RemediationAdvice::DeveloperError => vec![
            vec![Segment::new(DEVELOPER_ERROR_LINE, bold_yellow)],
            vec![
                Segment::new(DEVELOPER_REPORT_LINE, yellow),
                Segment::new(" ", Style::plain()),
                Segment::new(ISSUE_TRACKER_URL, bold_yellow),
            ],
            vec![
                Segment::new(INCLUDE_LOG_LINE, yellow),
                Segment::new(" ", Style::plain()),
                Segment::new(ctx.log_path.as_str(), bold_yellow),
            ],
            vec![],
        ],
        RemediationAdvice::Transient => vec![
            vec![
                Segment::new(TRANSIENT_LINE, bold_yellow),
                Segment::new(" ", Style::plain()),
                Segment::new(TRANSIENT_ADVICE, yellow),
            ],
            vec![
                Segment::new(TRANSIENT_REPORT_LINE, yellow),
                Segment::new(" ", Style::plain()),
                Segment::new(ISSUE_TRACKER_URL, bold_yellow),
            ],
            vec![
                Segment::new(INCLUDE_LOG_LINE_SPACED, yellow),
                Segment::new(ctx.log_path.as_str(), bold_yellow),
            ],
            vec![],
        ],
    };
    let ghost head = lines.deep_view();
    let ghost tail = rest.deep_view();
    assert(tail =~~= remediation_lines(info.remediation, ctx.log_path@));
    let mut rest = rest;
    lines.append(&mut rest);
    assert(head =~~= seq![
        seq![seg(severity_header(info.severity), bold_colored(Color::Red))],
        seq![seg(error_text@, colored(Color::Red))],
        seq![],
    ]);
    assert(lines.deep_view() =~= head + tail);
    assert(lines.deep_view() =~~= error_report(*info, error_text@, ctx.log_path@));
    lines
}

/// The lines to show on the terminal when the program panics.
pub fn panic_message_lines(
    panic_text: &str,
    log_path: &str,
    coredump: &CoredumpInstructions,
) -> (lines: Vec<Vec<Segment>>)
    ensures
        lines.deep_view() == panic_report(panic_text@, log_path@, instructions_text(coredump@)),
{
    let yellow = Style::colored(Color::Yellow);
    let bold_yellow = Style::bold_colored(Color::Yellow);
    let coredump_text = coredump.to_message();
    let lines: Vec<Vec<Segment>> = vec![
        vec![Segment::new(PANIC_HEADER, Style::bold_colored(Color::Red))],
        vec![Segment::new(panic_text, Style::colored(Color::Red))],
        vec![],
        vec![Segment::new(PANIC_BUG_LINE, bold_yellow)],
        vec![Segment::new(PANIC_REPORT_LINE, yellow), Segment::new(ISSUE_TRACKER_URL, bold_yellow)],
        vec![Segment::new(INCLUDE_LOG_LINE_SPACED, yellow), Segment::new(log_path, bold_yellow)],
        vec![],
        vec![Segment::new(COREDUMP_REQUEST_LINE, Style::bold_colored(Color::Cyan))],
        vec![Segment::new(coredump_text.as_str(), Style::colored(Color::Cyan))],
        vec![],
        vec![],
    ];
    assert(lines.deep_view() =~~= panic_report(
        panic_text@,
        log_path@,
        instructions_text(coredump@),
    ));
    lines
}

} // verus!
