use ghost_shell::buffer::SecureBuffer;
use ghost_shell::command::{
    anti_debug_verdict, Action, ActionKind, ABNORMAL_EXIT_CODE, COPY_TIMEOUT_SECS,
    NORMAL_EXIT_CODE, PARANOID_INTERVAL,
};

fn typed(text: &str) -> SecureBuffer {
    let mut b = SecureBuffer::new();
    load(&mut b, text);
    b
}

fn load(b: &mut SecureBuffer, text: &str) {
    b.discard_line();
    for c in text.chars() {
        b.insert(c);
    }
}

fn run(b: &mut SecureBuffer, text: &str) -> Action {
    load(b, text);
    let a = b.process_command();
    b.commit_history();
    b.clear_state();
    a
}

fn expect(a: &Action, kind: ActionKind, text: &str) {
    assert_eq!(a.kind, kind, "{:?}", a);
    assert_eq!(a.text, text, "{:?}", a);
    if kind != ActionKind::Terminate {
        assert_eq!(a.delay_ms, 0);
    }
}

#[test]
fn constants() {
    assert_eq!(ABNORMAL_EXIT_CODE, 137);
    assert_eq!(NORMAL_EXIT_CODE, 0);
    assert_eq!(COPY_TIMEOUT_SECS, 30);
    assert_eq!(PARANOID_INTERVAL, 5);
}

#[test]
fn blank_lines_ask_for_nothing_and_are_not_counted() {
    for line in ["", " ", "   \t  "] {
        let mut b = typed(line);
        expect(&b.process_command(), ActionKind::Nothing, "");
        assert_eq!(b.command_count(), 0);
        expect(&b.dispatch(), ActionKind::Nothing, "");
    }
}

#[test]
fn every_other_line_is_counted() {
    let mut b = SecureBuffer::new();
    run(&mut b, "ls");
    run(&mut b, "");
    run(&mut b, "::status");
    run(&mut b, "::nonsense");
    assert_eq!(b.command_count(), 3);
}

#[test]
fn status_command() {
    let mut b = typed("::status");
    expect(
        &b.process_command(),
        ActionKind::Output,
        "GHOST MODE ACTIVE. MEMORY SECURE. TRACE: NONE.",
    );
    let mut b = typed("   ::status   ");
    expect(
        &b.process_command(),
        ActionKind::Output,
        "GHOST MODE ACTIVE. MEMORY SECURE. TRACE: NONE.",
    );
    let mut b = typed("::status with arguments");
    expect(
        &b.process_command(),
        ActionKind::Output,
        "GHOST MODE ACTIVE. MEMORY SECURE. TRACE: NONE.",
    );
}

#[test]
fn commands_without_text() {
    for (line, kind) in [
        ("::security-status", ActionKind::ReportSecurity),
        ("::exit", ActionKind::Exit),
        ("::clear", ActionKind::ClearScreen),
        ("::anti-debug", ActionKind::ProbeDebugger),
        ("clear", ActionKind::ClearScreen),
        ("clear all", ActionKind::ClearScreen),
    ] {
        let mut b = typed(line);
        expect(&b.process_command(), kind, "");
    }
}

#[test]
fn panic_command_terminates() {
    let mut b = typed("::panic");
    let a = b.process_command();
    expect(
        &a,
        ActionKind::Terminate,
        "KERNEL PANIC - MEMORY CORRUPTION DETECTED at 0xDEADBEEF\nDumping core to /dev/null...",
    );
    assert_eq!(a.delay_ms, 1500);
}

#[test]
fn unknown_commands_are_named() {
    let mut b = typed("::frobnicate now");
    expect(&b.process_command(), ActionKind::Output, "Unknown GHOST command: 'frobnicate'");
    let mut b = typed("::");
    expect(&b.process_command(), ActionKind::Output, "Unknown GHOST command: ''");
    let mut b = typed(":: status");
    expect(&b.process_command(), ActionKind::Output, "Unknown GHOST command: ''");
    let mut b = typed("::STATUS");
    expect(&b.process_command(), ActionKind::Output, "Unknown GHOST command: 'STATUS'");
}

#[test]
fn copy_command() {
    let mut b = typed("::cp secret");
    expect(&b.process_command(), ActionKind::Copy, "secret");
    let mut b = typed("::cp  two  words ");
    expect(&b.process_command(), ActionKind::Copy, " two  words");
    let mut b = typed("::cp");
    expect(&b.process_command(), ActionKind::Output, "Error: No content to copy.");
    let mut b = typed("::cp   ");
    expect(&b.process_command(), ActionKind::Output, "Error: No content to copy.");
}

#[test]
fn decrypt_command() {
    let mut b = typed("::decrypt AwMDAwM=");
    expect(&b.process_command(), ActionKind::Decrypt, "AwMDAwM=");
    let mut b = typed("::decrypt");
    expect(&b.process_command(), ActionKind::Output, "Usage: ::decrypt <key>");
}

#[test]
fn history_command() {
    let mut b = SecureBuffer::new();
    expect(&run(&mut b, "::history"), ActionKind::Output, "No commands in history.");
    run(&mut b, "ls -la");
    expect(
        &run(&mut b, "::history"),
        ActionKind::Output,
        "Command History (RAM only):\r\n  1: ::history\r\n  2: ls -la\r\n",
    );
    assert_eq!(
        b.history_listing(),
        "Command History (RAM only):\r\n  1: ::history\r\n  2: ls -la\r\n  3: ::history\r\n"
    );
}

#[test]
fn history_listing_numbers_past_nine() {
    let mut b = SecureBuffer::new();
    for i in 0..11 {
        run(&mut b, &format!("cmd{}", i));
    }
    let listing = b.history_listing();
    assert!(listing.starts_with("Command History (RAM only):\r\n  1: cmd0\r\n  2: cmd1\r\n"));
    assert!(listing.ends_with("  9: cmd8\r\n  10: cmd9\r\n  11: cmd10\r\n"));
}

#[test]
fn purge_history_command() {
    let mut b = SecureBuffer::new();
    run(&mut b, "one");
    run(&mut b, "two");
    run(&mut b, "three");
    load(&mut b, "::purge-history");
    expect(
        &b.process_command(),
        ActionKind::Output,
        "HISTORY PURGED. 3 COMMANDS ZEROIZED FROM MEMORY.",
    );
    assert_eq!(b.history_len(), 0);
    assert_eq!(b.history_index(), 0);
    assert_eq!(b.content(), "::purge-history");
    expect(
        &b.process_command(),
        ActionKind::Output,
        "HISTORY PURGED. 0 COMMANDS ZEROIZED FROM MEMORY.",
    );
}

#[test]
fn paranoid_command() {
    let mut b = SecureBuffer::new();
    expect(
        &run(&mut b, "::paranoid"),
        ActionKind::Output,
        "Paranoid mode: DISABLED\r\nUsage: ::paranoid on|off",
    );
    assert!(!b.paranoid_mode());
    expect(
        &run(&mut b, "::paranoid on"),
        ActionKind::Output,
        "⚠ PARANOID MODE ENABLED\r\n- Auto-panic on debugger detection\r\n- Periodic security checks every 5 commands\r\n- Enhanced threat monitoring",
    );
    assert!(b.paranoid_mode());
    expect(
        &run(&mut b, "::paranoid maybe"),
        ActionKind::Output,
        "Paranoid mode: ENABLED\r\nUsage: ::paranoid on|off",
    );
    assert!(b.paranoid_mode());
    expect(&run(&mut b, "::paranoid off"), ActionKind::Output, "PARANOID MODE DISABLED");
    assert!(!b.paranoid_mode());
    expect(
        &run(&mut b, "::paranoid ON"),
        ActionKind::Output,
        "Paranoid mode: DISABLED\r\nUsage: ::paranoid on|off",
    );
    assert!(!b.paranoid_mode());
}

#[test]
fn host_commands() {
    let mut b = typed("ls -la /tmp");
    expect(&b.process_command(), ActionKind::RunShell, "ls -la /tmp");
    let mut b = typed("  echo  hi  ");
    expect(&b.process_command(), ActionKind::RunShell, "echo  hi");
    let mut b = typed("cdx");
    expect(&b.process_command(), ActionKind::RunShell, "cdx");
    let mut b = typed("status");
    expect(&b.process_command(), ActionKind::RunShell, "status");
    let mut b = typed("x ::status");
    expect(&b.process_command(), ActionKind::RunShell, "x ::status");
}

#[test]
fn change_directory() {
    let mut b = typed("cd /tmp");
    expect(&b.process_command(), ActionKind::ChangeDir, "/tmp");
    let mut b = typed("cd");
    expect(&b.process_command(), ActionKind::ChangeDir, "~");
    let mut b = typed("cd ~");
    expect(&b.process_command(), ActionKind::ChangeDir, "~");
    let mut b = typed("cd my dir");
    expect(&b.process_command(), ActionKind::ChangeDir, "my dir");
    let mut b = typed("cd  x");
    expect(&b.process_command(), ActionKind::ChangeDir, " x");
}

#[test]
fn periodic_check_comes_with_every_fifth_command_in_paranoid_mode() {
    let mut b = SecureBuffer::new();
    run(&mut b, "::paranoid on");
    let mut kinds = Vec::new();
    for _ in 0..11 {
        let a = run(&mut b, "::status");
        kinds.push(a.kind);
    }
    assert_eq!(b.command_count(), 12);
    let checks: Vec<usize> = kinds
        .iter()
        .enumerate()
        .filter(|(_, k)| **k == ActionKind::PeriodicCheck)
        .map(|(i, _)| i + 2)
        .collect();
    assert_eq!(checks, vec![5, 10]);
    assert!(kinds.iter().all(|k| *k == ActionKind::PeriodicCheck || *k == ActionKind::Output));
}

#[test]
fn no_periodic_check_outside_paranoid_mode() {
    let mut b = SecureBuffer::new();
    for _ in 0..12 {
        expect(&run(&mut b, "ls"), ActionKind::RunShell, "ls");
    }
    assert_eq!(b.command_count(), 12);
}

#[test]
fn periodic_check_holds_the_command_back() {
    let mut b = SecureBuffer::new();
    run(&mut b, "::paranoid on");
    run(&mut b, "a");
    run(&mut b, "b");
    run(&mut b, "c");
    load(&mut b, "::paranoid off");
    expect(&b.process_command(), ActionKind::PeriodicCheck, "");
    assert_eq!(b.command_count(), 5);
    assert!(b.paranoid_mode());
    expect(&b.after_periodic_check(false), ActionKind::Output, "PARANOID MODE DISABLED");
    assert!(!b.paranoid_mode());
    assert_eq!(b.command_count(), 5);
}

#[test]
fn tracer_at_the_periodic_check_terminates() {
    let mut b = SecureBuffer::new();
    run(&mut b, "::paranoid on");
    run(&mut b, "a");
    run(&mut b, "b");
    run(&mut b, "c");
    load(&mut b, "::purge-history");
    expect(&b.process_command(), ActionKind::PeriodicCheck, "");
    let a = b.after_periodic_check(true);
    expect(
        &a,
        ActionKind::Terminate,
        "⚠ PERIODIC CHECK: DEBUGGER DETECTED\nPARANOID MODE - INITIATING EMERGENCY SHUTDOWN...",
    );
    assert_eq!(a.delay_ms, 500);
    assert_eq!(b.history_len(), 4);
    assert!(b.paranoid_mode());
}

#[test]
fn anti_debug_verdicts() {
    expect(&anti_debug_verdict(false, false), ActionKind::Output, "✓ No debugger detected.");
    expect(&anti_debug_verdict(true, false), ActionKind::Output, "✓ No debugger detected.");
    expect(&anti_debug_verdict(false, true), ActionKind::Output, "⚠ WARNING: DEBUGGER DETECTED!");
    let a = anti_debug_verdict(true, true);
    expect(
        &a,
        ActionKind::Terminate,
        "⚠ DEBUGGER DETECTED - PARANOID MODE ACTIVE\nINITIATING EMERGENCY SHUTDOWN...",
    );
    assert_eq!(a.delay_ms, 500);
}

#[test]
fn dispatch_does_not_count() {
    let mut b = typed("::status");
    expect(&b.dispatch(), ActionKind::Output, "GHOST MODE ACTIVE. MEMORY SECURE. TRACE: NONE.");
    assert_eq!(b.command_count(), 0);
    assert_eq!(b.content(), "::status");
}
