use caligula::bench::{progress_template, BenchContext};
use caligula::daemon_error::{ClientTransportError, EscalationError, SpawnDaemonError};
use caligula::escalation::{
    after_answer, after_start_failure, daemon_command, escalation_prompt, EscalationStep, UseSudo,
};
use caligula::herder::{inject_error, ErrorInjection, StartHerd};
use caligula::writer::{verify_progress, write_plan, writer_steps, TargetType, WritePlan, WriterStep};

fn io() -> std::io::Error {
    std::io::Error::new(std::io::ErrorKind::Other, "x")
}

fn esc() -> SpawnDaemonError {
    SpawnDaemonError::Escalation(EscalationError { message: "no".into() })
}

#[test]
fn spawn_errors_compare_by_kind() {
    assert!(esc() == esc());
    assert!(SpawnDaemonError::Standard(io()) == SpawnDaemonError::Standard(io()));
    assert!(esc() != SpawnDaemonError::Standard(io()));
}

#[test]
fn transport_errors_compare_by_kind() {
    assert!(ClientTransportError::Rx(io()) == ClientTransportError::Rx(io()));
    assert!(ClientTransportError::Tx(io()) == ClientTransportError::Tx(io()));
    assert!(ClientTransportError::Rx(io()) != ClientTransportError::Tx(io()));
    assert!(ClientTransportError::DaemonError(esc()) == ClientTransportError::DaemonError(esc()));
    assert!(
        ClientTransportError::DaemonError(esc())
            != ClientTransportError::DaemonError(SpawnDaemonError::Standard(io()))
    );
    assert!(ClientTransportError::DaemonError(esc()) != ClientTransportError::Rx(io()));
}

#[test]
fn escalation_decisions() {
    assert_eq!(after_start_failure(false, UseSudo::Always, true), EscalationStep::GiveUp);
    assert_eq!(after_start_failure(true, UseSudo::Ask, true), EscalationStep::AskUser);
    assert_eq!(after_start_failure(true, UseSudo::Ask, false), EscalationStep::GiveUp);
    assert_eq!(after_start_failure(true, UseSudo::Always, false), EscalationStep::Escalate);
    assert_eq!(after_start_failure(true, UseSudo::Never, true), EscalationStep::GiveUp);
    assert_eq!(after_answer(true), EscalationStep::Escalate);
    assert_eq!(after_answer(false), EscalationStep::GiveUp);
    assert_eq!(escalation_prompt("sdb"), "We don't have permissions on sdb. Escalate using sudo?");
}

#[test]
fn daemon_command_line() {
    let c = daemon_command("/usr/bin/caligula", "/tmp/c.log");
    assert_eq!(c.proc, "/usr/bin/caligula");
    assert!(c.envs.is_empty());
    assert_eq!(c.args, vec!["_herder".to_string(), "/tmp/c.log".to_string()]);
}

#[test]
fn write_plans() {
    assert_eq!(
        write_plan(None),
        WritePlan { block_size: 512, buf_size: 1048576, checkpoint_period: 8 }
    );
    assert_eq!(
        write_plan(Some(4096)),
        WritePlan { block_size: 4096, buf_size: 1048576, checkpoint_period: 8 }
    );
    assert_eq!(
        write_plan(Some(1)),
        WritePlan { block_size: 1, buf_size: 2048, checkpoint_period: 4096 }
    );
    assert_eq!(
        write_plan(Some(3)),
        WritePlan { block_size: 3, buf_size: 6144, checkpoint_period: 1365 }
    );
}

#[test]
fn verify_progress_in_thousandths() {
    assert_eq!(verify_progress(50, 200), 250);
    assert_eq!(verify_progress(0, 7), 0);
    assert_eq!(verify_progress(7, 7), 1000);
}

#[test]
fn error_injection() {
    assert_eq!(inject_error(true, false), ErrorInjection::Pass);
    assert_eq!(inject_error(false, false), ErrorInjection::StoreAndPass);
    assert_eq!(inject_error(true, true), ErrorInjection::ReplaceWithStored);
    assert_eq!(inject_error(false, true), ErrorInjection::ReplaceWithStored);
}

#[test]
fn start_herd_holds_id_and_action() {
    let s = StartHerd::new(7, "write");
    assert_eq!(s, StartHerd { id: 7, action: "write" });
}

#[test]
fn bench_context_and_templates() {
    let ctx = BenchContext::new();
    assert_eq!((ctx.progress(), ctx.denominator()), (0, 0));
    ctx.set_progress_denominator(10);
    ctx.log_progress(3);
    assert_eq!((ctx.progress(), ctx.denominator()), (3, 10));
    assert_eq!(progress_template(false), "[{elapsed_precise}] {wide_bar:.yellow} {percent:>3}%");
    assert_eq!(progress_template(true), "[{elapsed_precise}] {wide_bar:.green} {percent:>3}%");
}

#[test]
fn writer_steps_by_target() {
    assert_eq!(
        writer_steps(TargetType::File, true, false),
        vec![WriterStep::OpenInput, WriterStep::OpenTarget, WriterStep::ReportStart, WriterStep::Write, WriterStep::ReportWritten, WriterStep::Rewind, WriterStep::TruncateToInput, WriterStep::Verify]
    );
    assert_eq!(
        writer_steps(TargetType::Disk, true, true),
        vec![WriterStep::Unmount, WriterStep::OpenInput, WriterStep::OpenTarget, WriterStep::ReportStart, WriterStep::Write, WriterStep::ReportWritten, WriterStep::Rewind, WriterStep::Verify]
    );
    assert_eq!(
        writer_steps(TargetType::Disk, false, false),
        vec![WriterStep::OpenInput, WriterStep::OpenTarget, WriterStep::ReportStart, WriterStep::Write, WriterStep::ReportWritten]
    );
    assert_eq!(
        writer_steps(TargetType::Partition, true, true),
        vec![WriterStep::OpenInput, WriterStep::OpenTarget, WriterStep::ReportStart, WriterStep::Write, WriterStep::ReportWritten, WriterStep::Rewind, WriterStep::Verify]
    );
}

#[test]
fn unmount_failure_text() {
    assert_eq!(
        caligula::writer::unmount_failure_message("busy", "x"),
        "stderr: busy\nstdout: x"
    );
}

#[test]
fn disk_list_hands_out_errors_in_order_once() {
    use_disk_list();
}

fn use_disk_list() {
    let mut l = caligula::disks::DiskList::new(vec!["sda", "sdb"], vec!["e1", "e2"]);
    assert_eq!(l.disks(), &["sda", "sdb"]);
    assert_eq!(l.next_error(), Some("e1"));
    assert_eq!(l.next_error(), Some("e2"));
    assert_eq!(l.next_error(), None);
    assert_eq!(l.disks().len(), 2);
}
