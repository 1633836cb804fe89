//! Working out, from the kernel's `core_pattern`, where a crashed process's
//! coredump ends up, and telling the user how to fetch it.
//!
//! Syntax of `core_pattern`: see core(5).
use vstd::prelude::*;
use vstd::string::*;

use crate::text::{chars_of, contains_in, seq_contains, trimmed, trimmed_bounds};

verus! {

pub const SYSTEMD_MESSAGE: &'static str = "This appears to be systemd-coredump.
    You should be able to retrieve the coredump by running:
        coredumpctl dump caligula --output=core.bin
    If that doesn't work, you can list and search for all coredumps with:
        coredumpctl list";

pub const APPORT_MESSAGE: &'static str = "This appears to be Apport, which logs coredumps to /var/crash.
    You should be able to find the coredump in there, and retrieve it by running:
        apport-unpack /var/crash/NAME_OF_THE_FILE_YOU_FOUND.crash core.bin";

pub const ABRT_MESSAGE: &'static str = "This appears to be Automatic Bug Reporting Tool (ABRT), which logs \
                            coredumps to /var/spool/abrt.
    You should be able to list available coredumps with:
        abrt-cli list";

pub const NULL_MESSAGE: &'static str = "This appears to discard coredumps, so attaching one is not necessary.";

pub const UNKNOWN_MESSAGE: &'static str = "If you would like to attach a coredump, you can search for the \
                               relevant documentation on how to retrieve coredumps from this \
                               program.";

pub const PIPED_PREFIX: &'static str = "Your system appears to write coredumps to a handler program: ";

pub const COULD_NOT_DETERMINE_MESSAGE: &'static str =
    "Unfortunately, we could not determine how you retrieve coredumps on your system, \
     or if your system even performs coredumps at all.";

pub const CURRENT_DIRECTORY_PREFIX: &'static str = "Your system appears to write coredumps to a file like ";

pub const CURRENT_DIRECTORY_SUFFIX: &'static str = " in the current working directory.";

pub const ABSOLUTE_DIRECTORY_PREFIX: &'static str = "Your system appears to write coredumps to files like ";

/// Which kind of program the kernel pipes coredumps to.
#[derive(Debug, PartialEq, Eq, Clone, Copy)]
pub enum HandlerSpecific {
    Systemd,
    Apport,
    Abrt,
    Null,
    Unknown,
}

/// A coredump handler program, as named by a piped `core_pattern`.
#[derive(Debug, PartialEq, Eq, Clone)]
pub struct LinuxHandlerMessage {
    /// The command line after the pipe symbol.
    pub program: String,
    pub handler_specific: HandlerSpecific,
}

/// Where the system seems to put coredumps.
#[derive(Debug, PartialEq, Eq, Clone)]
pub enum CoredumpInstructions {
    CouldNotDetermine,
    /// A relative file name, resolved in the crashing process's working directory.
    CurrentDirectory(String),
    /// An absolute file name.
    AbsoluteDirectory(String),
    /// Coredumps are handed to a program.
    LinuxPiped(LinuxHandlerMessage),
}

/// The mathematical value of a [`CoredumpInstructions`].
pub enum CoredumpInstructionsView {
    CouldNotDetermine,
    CurrentDirectory(Seq<char>),
    AbsoluteDirectory(Seq<char>),
    LinuxPiped(Seq<char>, HandlerSpecific),
}

impl View for CoredumpInstructions {
    type V = CoredumpInstructionsView;

    open spec fn view(&self) -> CoredumpInstructionsView {
        match self {
            CoredumpInstructions::CouldNotDetermine => CoredumpInstructionsView::CouldNotDetermine,
            CoredumpInstructions::CurrentDirectory(s) => CoredumpInstructionsView::CurrentDirectory(
                s@,
            ),
            CoredumpInstructions::AbsoluteDirectory(s) => CoredumpInstructionsView::AbsoluteDirectory(
                s@,
            ),
            CoredumpInstructions::LinuxPiped(m) => CoredumpInstructionsView::LinuxPiped(
                m.program@,
                m.handler_specific,
            ),
        }
    }
}

/// The handler kind named by a piped command line: the first of `systemd`,
/// `apport`, `abrt`, and `true`/`false` that occurs in the trimmed command.
pub open spec fn handler_kind(command: Seq<char>) -> HandlerSpecific {
    let t = trimmed(command);
    if seq_contains(t, "systemd"@) {
        HandlerSpecific::Systemd
    } else if seq_contains(t, "apport"@) {
        HandlerSpecific::Apport
    } else if seq_contains(t, "abrt"@) {
        HandlerSpecific::Abrt
    } else if seq_contains(t, "true"@) || seq_contains(t, "false"@) {
        HandlerSpecific::Null
    } else {
        HandlerSpecific::Unknown
    }
}

/// What a `core_pattern` says about where coredumps go.
pub open spec fn core_pattern_meaning(p: Seq<char>) -> CoredumpInstructionsView {
    if p.len() > 0 && p[0] == '|' {
        CoredumpInstructionsView::LinuxPiped(p.drop_first(), handler_kind(p.drop_first()))
    } else if p.len() == 0 {
        CoredumpInstructionsView::CouldNotDetermine
    } else if p == "/dev/null"@ {
        CoredumpInstructionsView::LinuxPiped("/dev/null"@, HandlerSpecific::Null)
    } else if p[0] == '/' {
        CoredumpInstructionsView::AbsoluteDirectory(p)
    } else {
        CoredumpInstructionsView::CurrentDirectory(p)
    }
}

/// The advice text for a handler kind.
pub open spec fn handler_text(h: HandlerSpecific) -> Seq<char> {
    match h {
        HandlerSpecific::Systemd => SYSTEMD_MESSAGE@,
        HandlerSpecific::Apport => APPORT_MESSAGE@,
        HandlerSpecific::Abrt => ABRT_MESSAGE@,
        HandlerSpecific::Null => NULL_MESSAGE@,
        HandlerSpecific::Unknown => UNKNOWN_MESSAGE@,
    }
}

/// The text shown for a handler program.
pub open spec fn handler_message_text(program: Seq<char>, h: HandlerSpecific) -> Seq<char> {
    PIPED_PREFIX@ + program + "\n"@ + handler_text(h)
}

/// The text shown for coredump instructions.
pub open spec fn instructions_text(v: CoredumpInstructionsView) -> Seq<char> {
    match v {
        CoredumpInstructionsView::CouldNotDetermine => COULD_NOT_DETERMINE_MESSAGE@,
        CoredumpInstructionsView::CurrentDirectory(s) => CURRENT_DIRECTORY_PREFIX@ + s
            + CURRENT_DIRECTORY_SUFFIX@,
        CoredumpInstructionsView::AbsoluteDirectory(s) => ABSOLUTE_DIRECTORY_PREFIX@ + s + "."@,
        CoredumpInstructionsView::LinuxPiped(p, h) => handler_message_text(p, h),
    }
}

/// Each handler kind has advice of its own: two different kinds are never
/// told the same thing. (The texts already differ in their first twenty-one
/// characters.)
pub proof fn lemma_handler_advice_distinct(a: HandlerSpecific, b: HandlerSpecific)
    ensures
        a != b ==> handler_text(a) != handler_text(b),
{
    reveal_strlit("This appears to be systemd-coredump.
    You should be able to retrieve the coredump by running:
        coredumpctl dump caligula --output=core.bin
    If that doesn't work, you can list and search for all coredumps with:
        coredumpctl list");
    reveal_strlit("This appears to be Apport, which logs coredumps to /var/crash.
    You should be able to find the coredump in there, and retrieve it by running:
        apport-unpack /var/crash/NAME_OF_THE_FILE_YOU_FOUND.crash core.bin");
    reveal_strlit("This appears to be Automatic Bug Reporting Tool (ABRT), which logs \
                            coredumps to /var/spool/abrt.
    You should be able to list available coredumps with:
        abrt-cli list");
    reveal_strlit("This appears to discard coredumps, so attaching one is not necessary.");
    reveal_strlit("If you would like to attach a coredump, you can search for the \
                               relevant documentation on how to retrieve coredumps from this \
                               program.");
    assert(SYSTEMD_MESSAGE@[0] == 'T' && SYSTEMD_MESSAGE@[19] == 's');
    assert(APPORT_MESSAGE@[0] == 'T' && APPORT_MESSAGE@[19] == 'A' && APPORT_MESSAGE@[20] == 'p');
    assert(ABRT_MESSAGE@[0] == 'T' && ABRT_MESSAGE@[19] == 'A' && ABRT_MESSAGE@[20] == 'u');
    assert(NULL_MESSAGE@[0] == 'T' && NULL_MESSAGE@[19] == 'c');
    assert(UNKNOWN_MESSAGE@[0] == 'I');
}

impl HandlerSpecific {
    /// The advice text for this handler kind.
    pub fn message(&self) -> (s: &'static str)
        ensures
            s@ == handler_text(*self),
            *self == HandlerSpecific::Systemd ==> s@ == SYSTEMD_MESSAGE@,
            *self == HandlerSpecific::Apport ==> s@ == APPORT_MESSAGE@,
            *self == HandlerSpecific::Abrt ==> s@ == ABRT_MESSAGE@,
            *self == HandlerSpecific::Null ==> s@ == NULL_MESSAGE@,
            *self == HandlerSpecific::Unknown ==> s@ == UNKNOWN_MESSAGE@,
    {
        match self {
            HandlerSpecific::Systemd => SYSTEMD_MESSAGE,
            HandlerSpecific::Apport => APPORT_MESSAGE,
            HandlerSpecific::Abrt => ABRT_MESSAGE,
            HandlerSpecific::Null => NULL_MESSAGE,
            HandlerSpecific::Unknown => UNKNOWN_MESSAGE,
        }
    }
}

impl LinuxHandlerMessage {
    pub fn new(program: String, handler_specific: HandlerSpecific) -> (m: Self)
        ensures
            m.program == program,
            m.handler_specific == handler_specific,
    {
        LinuxHandlerMessage { program, handler_specific }
    }

    /// The text shown for this handler program.
    pub fn to_message(&self) -> (s: String)
        ensures
            s@ == handler_message_text(self.program@, self.handler_specific),
            self.handler_specific == HandlerSpecific::Systemd ==> s@ == PIPED_PREFIX@
                + self.program@ + "\n"@ + SYSTEMD_MESSAGE@,
            self.handler_specific == HandlerSpecific::Apport ==> s@ == PIPED_PREFIX@
                + self.program@ + "\n"@ + APPORT_MESSAGE@,
            self.handler_specific == HandlerSpecific::Abrt ==> s@ == PIPED_PREFIX@ + self.program@
                + "\n"@ + ABRT_MESSAGE@,
            self.handler_specific == HandlerSpecific::Null ==> s@ == PIPED_PREFIX@ + self.program@
                + "\n"@ + NULL_MESSAGE@,
            self.handler_specific == HandlerSpecific::Unknown ==> s@ == PIPED_PREFIX@
                + self.program@ + "\n"@ + UNKNOWN_MESSAGE@,
    {
        let mut s = String::from_str(PIPED_PREFIX);
        s.append(self.program.as_str());
        s.append("\n");
        s.append(self.handler_specific.message());
        s
    }
}

impl CoredumpInstructions {
    /// The text shown for these instructions.
    pub fn to_message(&self) -> (s: String)
        ensures
            s@ == instructions_text(self@),
    {
        match self {
            CoredumpInstructions::CouldNotDetermine => String::from_str(
                COULD_NOT_DETERMINE_MESSAGE,
            ),
            CoredumpInstructions::CurrentDirectory(p) => {
                let mut s = String::from_str(CURRENT_DIRECTORY_PREFIX);
                s.append(p.as_str());
                s.append(CURRENT_DIRECTORY_SUFFIX);
                s
            },
            CoredumpInstructions::AbsoluteDirectory(p) => {
                let mut s = String::from_str(ABSOLUTE_DIRECTORY_PREFIX);
                s.append(p.as_str());
                s.append(".");
                s
            },
            CoredumpInstructions::LinuxPiped(m) => m.to_message(),
        }
    }
}

/// Classifies the command line `v[from..]` of a handler program.
fn classify_handler(v: &Vec<char>, from: usize) -> (h: HandlerSpecific)
    requires
        from <= v.len(),
    ensures
        h == handler_kind(v@.subrange(from as int, v.len() as int)),
{
    let (lo, hi) = trimmed_bounds(v, from);
    if contains_in(v, lo, hi, &chars_of("systemd")) {
        HandlerSpecific::Systemd
    } else if contains_in(v, lo, hi, &chars_of("apport")) {
        HandlerSpecific::Apport
    } else if contains_in(v, lo, hi, &chars_of("abrt")) {
        HandlerSpecific::Abrt
    } else if contains_in(v, lo, hi, &chars_of("true")) || contains_in(
        v,
        lo,
        hi,
        &chars_of("false"),
    ) {
        HandlerSpecific::Null
    } else {
        HandlerSpecific::Unknown
    }
}

/// Reads a `core_pattern` value.
///
/// A leading `|` names a handler program; an empty pattern tells nothing;
/// `/dev/null` discards coredumps; otherwise the pattern is a file name,
/// absolute or relative to the crashing process's working directory.
pub fn parse_core_pattern(core_pattern: String) -> (r: CoredumpInstructions)
    ensures
        r@ == core_pattern_meaning(core_pattern@),
{
    let v = chars_of(core_pattern.as_str());
    if v.len() > 0 && v[0] == '|' {
        let n = v.len();
        let program = core_pattern.as_str().substring_char(1, n).to_owned();
        let handler_specific = classify_handler(&v, 1);
        assert(v@.drop_first() == v@.subrange(1, n as int));
        CoredumpInstructions::LinuxPiped(LinuxHandlerMessage { program, handler_specific })
    } else if v.len() == 0 {
        CoredumpInstructions::CouldNotDetermine
    } else if core_pattern == String::from_str("/dev/null") {
        CoredumpInstructions::LinuxPiped(
            LinuxHandlerMessage {
                program: String::from_str("/dev/null"),
                handler_specific: HandlerSpecific::Null,
            },
        )
    } else if v[0] == '/' {
        CoredumpInstructions::AbsoluteDirectory(core_pattern)
    } else {
        CoredumpInstructions::CurrentDirectory(core_pattern)
    }
}

/// The coredump instructions for the result of querying the system's
/// `core_pattern`: a failed query tells nothing.
pub fn instructions<E>(core_pattern: Result<String, E>) -> (r: CoredumpInstructions)
    ensures
        match core_pattern {
            Ok(p) => r@ == core_pattern_meaning(p@),
            Err(_) => r@ == CoredumpInstructionsView::CouldNotDetermine,
        },
{
    match core_pattern {
        Ok(pattern) => parse_core_pattern(pattern),
        Err(_) => CoredumpInstructions::CouldNotDetermine,
    }
}

} // verus!
