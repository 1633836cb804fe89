//! Starting the writer daemon, and escalating its privileges when it was
//! refused access to the target.
use vstd::prelude::*;
use vstd::string::*;

verus! {

/// Whether to run the daemon with `sudo`.
#[derive(Debug, Clone, Copy, PartialEq, Eq)]
pub enum UseSudo {
    /// Ask the user, if interactive.
    Ask,
    /// Always escalate.
    Always,
    /// Never escalate.
    Never,
}

/// What to do after the unescalated daemon failed to start.
#[derive(Debug, Clone, Copy, PartialEq, Eq)]
pub enum EscalationStep {
    /// Report the failure.
    GiveUp,
    /// Ask the user whether to escalate.
    AskUser,
    /// Escalate and start again.
    Escalate,
}

/// After a failed start: only a refusal of permission is worth escalating
/// for; then ask an interactive user when told to ask, escalate when told to
/// always do so, and otherwise give up.
pub open spec fn step_after_failure(permission_denied: bool, root: UseSudo, interactive: bool) -> EscalationStep {
    if !permission_denied {
        EscalationStep::GiveUp
    } else {
        match root {
            UseSudo::Ask => if interactive {
                EscalationStep::AskUser
            } else {
                EscalationStep::GiveUp
            },
            UseSudo::Always => EscalationStep::Escalate,
            UseSudo::Never => EscalationStep::GiveUp,
        }
    }
}

/// When escalation happens after a failed start. Nothing but a refusal of
/// permission leads anywhere but giving up. Told to always escalate, a
/// refused start escalates whether or not a terminal is there to ask; told
/// never to, it gives up. The user is asked only when told to ask, at an
/// interactive terminal, after a refusal; and whether a terminal is there
/// matters only when told to ask.
pub proof fn lemma_escalation_decision(permission_denied: bool, root: UseSudo, interactive: bool)
    ensures
        ({
            let s = step_after_failure(permission_denied, root, interactive);
            &&& !permission_denied ==> s == EscalationStep::GiveUp
            &&& (permission_denied && root == UseSudo::Always) ==> s == EscalationStep::Escalate
            &&& root == UseSudo::Never ==> s == EscalationStep::GiveUp
            &&& s == EscalationStep::Escalate <==> (permission_denied && root == UseSudo::Always)
            &&& s == EscalationStep::AskUser <==> (permission_denied && root == UseSudo::Ask
                && interactive)
        }),
        root != UseSudo::Ask ==> step_after_failure(permission_denied, root, true)
            == step_after_failure(permission_denied, root, false),
{
}

/// What to do after the unescalated daemon failed to start.
pub fn after_start_failure(permission_denied: bool, root: UseSudo, interactive: bool) -> (s: EscalationStep)
    ensures
        s == step_after_failure(permission_denied, root, interactive),
        !permission_denied ==> s == EscalationStep::GiveUp,
        (permission_denied && root == UseSudo::Always) ==> s == EscalationStep::Escalate,
        root == UseSudo::Never ==> s == EscalationStep::GiveUp,
        s == EscalationStep::AskUser <==> (permission_denied && root == UseSudo::Ask && interactive),
{
    if !permission_denied {
        return EscalationStep::GiveUp;
    }
    match (root, interactive) {
        (UseSudo::Ask, true) => EscalationStep::AskUser,
        (UseSudo::Always, _) => EscalationStep::Escalate,
        _ => EscalationStep::GiveUp,
    }
}

/// What to do once the user has answered whether to escalate.
pub fn after_answer(escalate: bool) -> (s: EscalationStep)
    ensures
        s == (if escalate {
            EscalationStep::Escalate
        } else {
            EscalationStep::GiveUp
        }),
{
    if escalate {
        EscalationStep::Escalate
    } else {
        EscalationStep::GiveUp
    }
}

pub const PROMPT_PREFIX: &'static str = "We don't have permissions on ";

pub const PROMPT_SUFFIX: &'static str = ". Escalate using sudo?";

/// Help shown with the escalation prompt.
pub const PROMPT_HELP: &'static str = "We will use the sudo command, which may prompt you for a password.";

/// The question asked before escalating for the target named `target_name`.
pub fn escalation_prompt(target_name: &str) -> (s: String)
    ensures
        s@ == PROMPT_PREFIX@ + target_name@ + PROMPT_SUFFIX@,
{
    let mut s = String::from_str(PROMPT_PREFIX);
    s.append(target_name);
    s.append(PROMPT_SUFFIX);
    s
}

/// The argument that makes the program run as the daemon.
pub const DAEMON_ARG: &'static str = "_herder";

/// A command line to run.
#[derive(Debug, Clone, PartialEq, Eq)]
pub struct DaemonCommand {
    pub proc: String,
    pub envs: Vec<(String, String)>,
    pub args: Vec<String>,
}

/// The command that starts the daemon: this program's own executable, with
/// the daemon argument and the log file to append to, and no extra
/// environment.
pub fn daemon_command(executable: &str, log_path: &str) -> (c: DaemonCommand)
    ensures
        c.proc@ == executable@,
        c.envs@.len() == 0,
        c.args@.len() == 2,
        c.args@[0]@ == DAEMON_ARG@,
        c.args@[1]@ == log_path@,
{
    DaemonCommand {
        proc: String::from_str(executable),
        envs: Vec::new(),
        args: vec![String::from_str(DAEMON_ARG), String::from_str(log_path)],
    }
}

} // verus!
