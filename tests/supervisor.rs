use puppet::supervisor::{
    after_read, after_write, command_line, handler_line, trim, Direction, IoFault, ReadOutcome,
    Step,
};
use puppet::{AtomicFlag, PuppetBuilder};

#[test]
fn default_launch_command() {
    let c = PuppetBuilder::new().launch_command();
    assert_eq!(c, vec!["java", "-Xmx2g", "-Xms2g", "-jar", "minecraft_server.jar", "nogui"]);
    assert_eq!(PuppetBuilder::default().launch_command(), c);
}

#[test]
fn configured_launch_command() {
    let c = PuppetBuilder::new()
        .jar_path("server.jar")
        .max_memory("4G")
        .min_memory("1024K")
        .launch_command();
    assert_eq!(c, vec!["java", "-Xmx4G", "-Xms1024K", "-jar", "server.jar", "nogui"]);
}

#[test]
fn command_is_trimmed_and_ended() {
    assert_eq!(command_line("  say hello \t\n"), "say hello\n");
    assert_eq!(command_line("stop"), "stop\n");
    assert_eq!(command_line("   "), "\n");
    assert_eq!(command_line("\u{3000}list\u{a0}"), "list\n");
}

#[test]
fn trim_keeps_inner_space() {
    assert_eq!(trim("  a b  "), "a b");
    assert_eq!(trim(""), "");
}

#[test]
fn handler_line_drops_terminator() {
    assert_eq!(handler_line("abc\n"), "abc");
    assert_eq!(handler_line("abc\r\n"), "abc");
    assert_eq!(handler_line("abc"), "abc");
    assert_eq!(handler_line("abc \n"), "abc ");
}

#[test]
fn read_outcomes() {
    for d in [Direction::HostToServer, Direction::ServerToHost] {
        assert_eq!(after_read(d, ReadOutcome::Line), Step::Proceed);
        assert_eq!(after_read(d, ReadOutcome::EndOfStream), Step::Finish);
        assert_eq!(after_read(d, ReadOutcome::Failed(IoFault::Interrupted)), Step::Retry);
        assert_eq!(after_read(d, ReadOutcome::Failed(IoFault::Other)), Step::Abort);
    }
    assert_eq!(
        after_read(Direction::ServerToHost, ReadOutcome::Failed(IoFault::BrokenPipe)),
        Step::Finish
    );
    assert_eq!(
        after_read(Direction::HostToServer, ReadOutcome::Failed(IoFault::BrokenPipe)),
        Step::Abort
    );
}

#[test]
fn write_outcomes() {
    assert_eq!(after_write(None), Step::Proceed);
    assert_eq!(after_write(Some(IoFault::BrokenPipe)), Step::Finish);
    assert_eq!(after_write(Some(IoFault::Other)), Step::Abort);
    assert_eq!(after_write(Some(IoFault::Interrupted)), Step::Abort);
}

#[test]
fn flag_starts_clear_and_stays_set() {
    let f = AtomicFlag::new();
    assert!(!f.get());
    f.set();
    assert!(f.get());
}
