use caligula::coredump::{
    instructions, parse_core_pattern, CoredumpInstructions, HandlerSpecific, LinuxHandlerMessage,
};

fn piped(program: &str, h: HandlerSpecific) -> CoredumpInstructions {
    CoredumpInstructions::LinuxPiped(LinuxHandlerMessage::new(program.to_string(), h))
}

fn check(input: &str, expected: CoredumpInstructions) {
    assert_eq!(parse_core_pattern(input.to_string()), expected);
}

#[test]
fn parse_coredump_pattern_into_message() {
    check(
        "|/nix/store/g9i3mlx33427i6a0905fyy85yghxfjxz-systemd/lib/systemd/systemd-coredump %P %u %g %s %t %c %h %d %F",
        piped(
            "/nix/store/g9i3mlx33427i6a0905fyy85yghxfjxz-systemd/lib/systemd/systemd-coredump %P %u %g %s %t %c %h %d %F",
            HandlerSpecific::Systemd,
        ),
    );
    check(
        "|/usr/lib/systemd/systemd-coredump %P %u %g %s %t %c %h %d %F",
        piped("/usr/lib/systemd/systemd-coredump %P %u %g %s %t %c %h %d %F", HandlerSpecific::Systemd),
    );
    check(
        "|/usr/share/apport/apport %p %s %c %d %P %E",
        piped("/usr/share/apport/apport %p %s %c %d %P %E", HandlerSpecific::Apport),
    );
    check(
        "|/usr/lib/abrt-addon-ccpp %s %c %p %u %g %t e %P %I %h",
        piped("/usr/lib/abrt-addon-ccpp %s %c %p %u %g %t e %P %I %h", HandlerSpecific::Abrt),
    );
    check(
        "|/usr/local/bin/my-custom-handler %p %s",
        piped("/usr/local/bin/my-custom-handler %p %s", HandlerSpecific::Unknown),
    );
    check("/dev/null", piped("/dev/null", HandlerSpecific::Null));
    check("core", CoredumpInstructions::CurrentDirectory("core".into()));
    check("core.%p", CoredumpInstructions::CurrentDirectory("core.%p".into()));
    check("core.%e.%p", CoredumpInstructions::CurrentDirectory("core.%e.%p".into()));
    check(
        "/var/coredumps/core.%p",
        CoredumpInstructions::AbsoluteDirectory("/var/coredumps/core.%p".into()),
    );
    check(
        "/tmp/cores/core.%e.%p.%t",
        CoredumpInstructions::AbsoluteDirectory("/tmp/cores/core.%e.%p.%t".into()),
    );
    check("", CoredumpInstructions::CouldNotDetermine);
}

#[test]
fn piped_true_and_false_discard() {
    check("|/bin/true", piped("/bin/true", HandlerSpecific::Null));
    check("|/bin/false", piped("/bin/false", HandlerSpecific::Null));
}

#[test]
fn piped_handler_is_classified_after_trimming() {
    check("|  systemd \n", piped("  systemd \n", HandlerSpecific::Systemd));
    check("| \u{3000}abrt", piped(" \u{3000}abrt", HandlerSpecific::Abrt));
}

#[test]
fn piped_first_match_wins() {
    check("|apport-systemd", piped("apport-systemd", HandlerSpecific::Systemd));
    check("|abrt true", piped("abrt true", HandlerSpecific::Abrt));
}

#[test]
fn empty_pipe_is_unknown_handler() {
    check("|", piped("", HandlerSpecific::Unknown));
}

#[test]
fn non_ascii_pattern_kept_whole() {
    check("/tmp/ç/core", CoredumpInstructions::AbsoluteDirectory("/tmp/ç/core".into()));
    check("|/ç/systemd", piped("/ç/systemd", HandlerSpecific::Systemd));
}

#[test]
fn failed_query_could_not_determine() {
    assert_eq!(instructions::<()>(Err(())), CoredumpInstructions::CouldNotDetermine);
    assert_eq!(
        instructions::<()>(Ok("core".to_string())),
        CoredumpInstructions::CurrentDirectory("core".into())
    );
}

#[test]
fn messages() {
    assert_eq!(
        CoredumpInstructions::CurrentDirectory("core".into()).to_message(),
        "Your system appears to write coredumps to a file like core in the current working directory."
    );
    assert_eq!(
        CoredumpInstructions::AbsoluteDirectory("/x/core".into()).to_message(),
        "Your system appears to write coredumps to files like /x/core."
    );
    assert_eq!(
        CoredumpInstructions::CouldNotDetermine.to_message(),
        "Unfortunately, we could not determine how you retrieve coredumps on your system, or if your system even performs coredumps at all."
    );
    assert_eq!(
        piped("/bin/true", HandlerSpecific::Null).to_message(),
        "Your system appears to write coredumps to a handler program: /bin/true\nThis appears to discard coredumps, so attaching one is not necessary."
    );
    assert!(HandlerSpecific::Systemd.message().contains("coredumpctl dump caligula --output=core.bin"));
}
