//! The security-posture monitor.
//!
//! The monitor is stateless: every probe is computed afresh from what the
//! system reports at that moment. Reading the system is the caller's part;
//! this module decides what the readings mean. A reading that could not be
//! had is passed as `None` and resolves to the safe default, never to an
//! error.
//!
//! The readings are the text of the memory accounting (`/proc/meminfo`),
//! the text of the process's own status (`/proc/self/status`), and the
//! command lines of the running processes.

use vstd::prelude::*;
use vstd::string::*;
use crate::text::{
    all_digits, append_chars, chars_of, contains, contains_text, copy_range, digits_only, parse_u64,
    parsed_u64, same_chars, split, split_on, split_words, starts_with, string_views, texts, word,
};

verus! {

broadcast use vstd::string::group_string_axioms;

// ---------------------------------------------------------------------------
// The status snapshot and its report
// ---------------------------------------------------------------------------

/// A [`SecurityStatus`] as mathematical values.
pub struct StatusModel {
    pub memory_locked: bool,
    pub swap_disabled: bool,
    pub core_dumps_disabled: bool,
    pub monitoring_detected: bool,
    pub threats: Seq<Seq<char>>,
}

/// A snapshot of the security posture, made by one probe.
#[derive(Debug, Clone)]
pub struct SecurityStatus {
    /// Whether the process's memory is locked against swapping.
    pub memory_locked: bool,
    /// Whether the system has no swap.
    pub swap_disabled: bool,
    /// Whether core dumps are blocked.
    pub core_dumps_disabled: bool,
    /// Whether a tracer or a monitoring tool was found.
    pub monitoring_detected: bool,
    /// One line for each finding, in the order of detection.
    pub threats_detected: Vec<String>,
}

impl View for SecurityStatus {
    type V = StatusModel;

    open spec fn view(&self) -> StatusModel {
        StatusModel {
            memory_locked: self.memory_locked,
            swap_disabled: self.swap_disabled,
            core_dumps_disabled: self.core_dumps_disabled,
            monitoring_detected: self.monitoring_detected,
            threats: string_views(self.threats_detected@),
        }
    }
}

/// The status before any probe: nothing is protected, nothing detected.
pub open spec fn blank_status() -> StatusModel {
    StatusModel {
        memory_locked: false,
        swap_disabled: false,
        core_dumps_disabled: false,
        monitoring_detected: false,
        threats: Seq::empty(),
    }
}

/// The lines of the report that list the threats, one for each.
pub open spec fn threat_lines(threats: Seq<Seq<char>>) -> Seq<char>
    decreases threats.len(),
{
    if threats.len() == 0 {
        Seq::empty()
    } else {
        threat_lines(threats.drop_last()) + "  - "@ + threats.last() + "\r\n"@
    }
}

/// The report's line on memory locking.
pub open spec fn memory_line(locked: bool) -> Seq<char> {
    "Memory Locked:       "@ + (if locked {
        "✓ YES"@
    } else {
        "✗ NO"@
    }) + "\r\n"@
}

/// The report's line on swap.
pub open spec fn swap_line(disabled: bool) -> Seq<char> {
    "Swap Disabled:       "@ + (if disabled {
        "✓ YES"@
    } else {
        "⚠ NO (RISK: Memory may be swapped to disk)"@
    }) + "\r\n"@
}

/// The report's line on core dumps.
pub open spec fn core_dump_line(blocked: bool) -> Seq<char> {
    "Core Dumps Blocked:  "@ + (if blocked {
        "✓ YES"@
    } else {
        "✗ NO"@
    }) + "\r\n"@
}

/// The report's line on monitoring.
pub open spec fn monitoring_line(detected: bool) -> Seq<char> {
    "Monitoring Detected: "@ + (if detected {
        "⚠ YES (Potential surveillance)"@
    } else {
        "✓ NO"@
    }) + "\r\n"@
}

/// The report's section on threats: absent where there are none.
pub open spec fn threat_section(threats: Seq<Seq<char>>) -> Seq<char> {
    if threats.len() > 0 {
        "\r\n⚠ THREATS DETECTED:\r\n"@ + threat_lines(threats)
    } else {
        Seq::empty()
    }
}

/// The report of a status: a header, one line for each flag, the threats if
/// there are any, and an empty line.
pub open spec fn report_text(s: StatusModel) -> Seq<char> {
    "=== GHOST SHELL SECURITY STATUS ===\r\n"@ + memory_line(s.memory_locked) + swap_line(
        s.swap_disabled,
    ) + core_dump_line(s.core_dumps_disabled) + monitoring_line(s.monitoring_detected)
        + threat_section(s.threats) + "\r\n"@
}

impl SecurityStatus {
    /// The status before any probe.
    pub fn new() -> (s: SecurityStatus)
        ensures
            s@ == blank_status(),
    {
        let s = SecurityStatus {
            memory_locked: false,
            swap_disabled: false,
            core_dumps_disabled: false,
            monitoring_detected: false,
            threats_detected: Vec::new(),
        };
        assert(string_views(s.threats_detected@) == Seq::<Seq<char>>::empty());
        s
    }

    /// The report shown to the user.
    pub fn report(&self) -> (text: String)
        ensures
            text@ == report_text(self@),
    {
        let mut text = String::from_str("=== GHOST SHELL SECURITY STATUS ===\r\n");
        text.append("Memory Locked:       ");
        text.append(
            if self.memory_locked {
                "✓ YES"
            } else {
                "✗ NO"
            },
        );
        text.append("\r\n");
        text.append("Swap Disabled:       ");
        text.append(
            if self.swap_disabled {
                "✓ YES"
            } else {
                "⚠ NO (RISK: Memory may be swapped to disk)"
            },
        );
        text.append("\r\n");
        text.append("Core Dumps Blocked:  ");
        text.append(
            if self.core_dumps_disabled {
                "✓ YES"
            } else {
                "✗ NO"
            },
        );
        text.append("\r\n");
        text.append("Monitoring Detected: ");
        text.append(
            if self.monitoring_detected {
                "⚠ YES (Potential surveillance)"
            } else {
                "✓ NO"
            },
        );
        text.append("\r\n");
        let ghost head = text@;
        assert(head == "=== GHOST SHELL SECURITY STATUS ===\r\n"@ + memory_line(self.memory_locked)
            + swap_line(self.swap_disabled) + core_dump_line(self.core_dumps_disabled)
            + monitoring_line(self.monitoring_detected));
        let ghost threats = string_views(self.threats_detected@);
        let n = self.threats_detected.len();
        if n > 0 {
            text.append("\r\n⚠ THREATS DETECTED:\r\n");
            let mut i: usize = 0;
            assert(threats.take(0) == Seq::<Seq<char>>::empty());
            while i < n
                invariant
                    i <= n,
                    n == self.threats_detected@.len(),
                    threats == string_views(self.threats_detected@),
                    text@ == head + "\r\n⚠ THREATS DETECTED:\r\n"@ + threat_lines(
                        threats.take(i as int),
                    ),
                decreases n - i,
            {
                text.append("  - ");
                text.append(self.threats_detected[i].as_str());
                text.append("\r\n");
                proof {
                    let next = threats.take(i + 1);
                    assert(next.drop_last() == threats.take(i as int));
                    assert(next.last() == self.threats_detected@[i as int]@);
                    assert(text@ == head + "\r\n⚠ THREATS DETECTED:\r\n"@ + threat_lines(next));
                }
                i += 1;
            }
            assert(threats.take(n as int) == threats);
            assert(text@ == head + threat_section(threats));
        } else {
            assert(text@ == head + threat_section(threats));
        }
        text.append("\r\n");
        text
    }
}

// ---------------------------------------------------------------------------
// Reading the system's reports
// ---------------------------------------------------------------------------

/// The lines of a report: its pieces between line feeds.
pub open spec fn lines(report: Seq<char>) -> Seq<Seq<char>> {
    split(report, '\n')
}

/// The second word of a line that begins with `label`.
pub open spec fn labelled_value(line: Seq<char>, label: Seq<char>) -> Option<Seq<char>> {
    if label.is_prefix_of(line) {
        word(line, 1)
    } else {
        None
    }
}

/// The second word of `line` where `line` begins with `label`.
fn read_labelled(line: &Vec<char>, label: &Vec<char>) -> (r: Option<Vec<char>>)
    ensures
        match r {
            Some(value) => labelled_value(line@, label@) == Some(value@),
            None => labelled_value(line@, label@) is None,
        },
{
    if !starts_with(line, label) {
        return None;
    }
    let parts = split_words(line);
    if parts.len() > 1 {
        let value = copy_range(&parts[1], 0, parts[1].len());
        assert(value@ == parts@[1]@);
        assert(texts(parts@)[1] == parts@[1]@);
        Some(value)
    } else {
        None
    }
}

/// The amount of swap, in kilobytes, that a line of the memory accounting
/// reports: the number after `SwapTotal:`.
pub open spec fn swap_total(line: Seq<char>) -> Option<u64> {
    match labelled_value(line, "SwapTotal:"@) {
        Some(value) => parsed_u64(value),
        None => None,
    }
}

/// Whether the first line that reports an amount of swap reports more than
/// none.
pub open spec fn swap_in_lines(report: Seq<Seq<char>>) -> bool
    decreases report.len(),
{
    if report.len() == 0 {
        false
    } else {
        match swap_total(report[0]) {
            Some(kilobytes) => kilobytes > 0,
            None => swap_in_lines(report.drop_first()),
        }
    }
}

/// Whether the system has swap, by its memory accounting. Where the
/// accounting is unavailable or reports no amount, the answer is no.
pub open spec fn swap_enabled(meminfo: Option<Seq<char>>) -> bool {
    match meminfo {
        Some(report) => swap_in_lines(lines(report)),
        None => false,
    }
}

/// The tracer that a line of the process status names: the word after
/// `TracerPid:`.
pub open spec fn tracer_pid(line: Seq<char>) -> Option<Seq<char>> {
    labelled_value(line, "TracerPid:"@)
}

/// Whether the first line that names a tracer names another than `0`.
pub open spec fn tracer_in_lines(report: Seq<Seq<char>>) -> bool
    decreases report.len(),
{
    if report.len() == 0 {
        false
    } else {
        match tracer_pid(report[0]) {
            Some(pid) => pid != "0"@,
            None => tracer_in_lines(report.drop_first()),
        }
    }
}

/// Whether a tracer is attached to the process, by its status report.
/// Where the report is unavailable or names no tracer, the answer is no.
pub open spec fn debugger_present(status: Option<Seq<char>>) -> bool {
    match status {
        Some(report) => tracer_in_lines(lines(report)),
        None => false,
    }
}

/// The line that reports an attached tracer.
pub open spec fn ptrace_threat(pid: Seq<char>) -> Seq<char> {
    "ptrace detected (PID: "@ + pid + ")"@
}

/// The line that reports a monitoring tool.
pub open spec fn tool_threat(tool: Seq<char>) -> Seq<char> {
    "Monitoring tool detected: "@ + tool
}

/// One threat for every line of the status report that names a tracer
/// other than `0`, in the order of the lines.
pub open spec fn ptrace_threats(report: Seq<Seq<char>>) -> Seq<Seq<char>>
    decreases report.len(),
{
    if report.len() == 0 {
        Seq::empty()
    } else {
        let before = ptrace_threats(report.drop_last());
        match tracer_pid(report.last()) {
            Some(pid) => if pid != "0"@ {
                before.push(ptrace_threat(pid))
            } else {
                before
            },
            None => before,
        }
    }
}

/// The names of the tracing, debugging and profiling tools that are
/// looked for, in the order in which they are tried.
pub open spec fn tool_names() -> Seq<Seq<char>> {
    seq![
        "strace"@,
        "ltrace"@,
        "gdb"@,
        "auditd"@,
        "sysdig"@,
        "bpftrace"@,
        "perf"@,
        "systemtap"@,
    ]
}

/// The first of `tools` whose name stands in `cmdline`.
pub open spec fn first_tool(cmdline: Seq<char>, tools: Seq<Seq<char>>) -> Option<Seq<char>>
    decreases tools.len(),
{
    if tools.len() == 0 {
        None
    } else if contains(cmdline, tools[0]) {
        Some(tools[0])
    } else {
        first_tool(cmdline, tools.drop_first())
    }
}

/// One threat for every command line that holds the name of a tool, in the
/// order of the command lines; for each, the first tool that matches.
pub open spec fn tool_threats(cmdlines: Seq<Seq<char>>) -> Seq<Seq<char>>
    decreases cmdlines.len(),
{
    if cmdlines.len() == 0 {
        Seq::empty()
    } else {
        let before = tool_threats(cmdlines.drop_last());
        match first_tool(cmdlines.last(), tool_names()) {
            Some(tool) => before.push(tool_threat(tool)),
            None => before,
        }
    }
}

/// All threats: those of the status report, then those of the command
/// lines.
pub open spec fn monitoring_threats(
    status: Option<Seq<char>>,
    cmdlines: Seq<Seq<char>>,
) -> Seq<Seq<char>> {
    (match status {
        Some(report) => ptrace_threats(lines(report)),
        None => Seq::empty(),
    }) + tool_threats(cmdlines)
}

/// What one probe finds.
pub open spec fn probed_status(
    meminfo: Option<Seq<char>>,
    status: Option<Seq<char>>,
    cmdlines: Seq<Seq<char>>,
) -> StatusModel {
    let threats = monitoring_threats(status, cmdlines);
    StatusModel {
        memory_locked: false,
        swap_disabled: !swap_enabled(meminfo),
        core_dumps_disabled: false,
        monitoring_detected: threats.len() > 0,
        threats,
    }
}

/// The view of an optional text.
pub open spec fn text_of(report: Option<&str>) -> Option<Seq<char>> {
    match report {
        Some(text) => Some(text@),
        None => None,
    }
}

/// Whether the name of an entry of the process table stands for a
/// process: it holds nothing but decimal digits.
pub fn is_process_entry(name: &str) -> (b: bool)
    ensures
        b == all_digits(name@),
{
    let chars = chars_of(name);
    digits_only(&chars)
}

/// Whether the system has swap, by its memory accounting `meminfo`.
///
/// The first line that begins with `SwapTotal:` and has a number as its
/// second word decides: swap is enabled where the number is not zero.
/// Where there is no such line, or no accounting at all, the answer is no.
pub fn is_swap_enabled(meminfo: Option<&str>) -> (b: bool)
    ensures
        b == swap_enabled(text_of(meminfo)),
{
    let report = match meminfo {
        Some(text) => split_on(&chars_of(text), '\n'),
        None => {
            return false;
        },
    };
    let label = chars_of("SwapTotal:");
    let n = report.len();
    let mut i: usize = 0;
    assert(texts(report@).skip(0) == texts(report@));
    while i < n
        invariant
            i <= n,
            n == report@.len(),
            label@ == "SwapTotal:"@,
            swap_enabled(text_of(meminfo)) == swap_in_lines(texts(report@)),
            swap_in_lines(texts(report@)) == swap_in_lines(texts(report@).skip(i as int)),
        decreases n - i,
    {
        let ghost rest = texts(report@).skip(i as int);
        assert(rest[0] == report@[i as int]@);
        assert(rest.drop_first() == texts(report@).skip(i + 1));
        match read_labelled(&report[i], &label) {
            Some(value) => match parse_u64(&value) {
                Some(kilobytes) => {
                    return kilobytes > 0;
                },
                None => {},
            },
            None => {},
        }
        i += 1;
    }
    false
}

/// Whether a tracer is attached to the process, by its status report
/// `status`.
///
/// The first line that begins with `TracerPid:` and has a second word
/// decides: a tracer is attached where that word is not `0`. Where there
/// is no such line, or no report at all, the answer is no.
pub fn is_debugger_present(status: Option<&str>) -> (b: bool)
    ensures
        b == debugger_present(text_of(status)),
{
    let report = match status {
        Some(text) => split_on(&chars_of(text), '\n'),
        None => {
            return false;
        },
    };
    let label = chars_of("TracerPid:");
    let zero = chars_of("0");
    let n = report.len();
    let mut i: usize = 0;
    assert(texts(report@).skip(0) == texts(report@));
    while i < n
        invariant
            i <= n,
            n == report@.len(),
            label@ == "TracerPid:"@,
            zero@ == "0"@,
            debugger_present(text_of(status)) == tracer_in_lines(texts(report@)),
            tracer_in_lines(texts(report@)) == tracer_in_lines(texts(report@).skip(i as int)),
        decreases n - i,
    {
        let ghost rest = texts(report@).skip(i as int);
        assert(rest[0] == report@[i as int]@);
        assert(rest.drop_first() == texts(report@).skip(i + 1));
        match read_labelled(&report[i], &label) {
            Some(pid) => {
                return !same_chars(&pid, &zero);
            },
            None => {},
        }
        i += 1;
    }
    false
}

/// The names of the tools that are looked for.
fn tools() -> (r: Vec<Vec<char>>)
    ensures
        texts(r@) == tool_names(),
{
    let mut r: Vec<Vec<char>> = Vec::new();
    r.push(chars_of("strace"));
    r.push(chars_of("ltrace"));
    r.push(chars_of("gdb"));
    r.push(chars_of("auditd"));
    r.push(chars_of("sysdig"));
    r.push(chars_of("bpftrace"));
    r.push(chars_of("perf"));
    r.push(chars_of("systemtap"));
    assert(texts(r@) =~= tool_names());
    r
}

/// The first of `tools` whose name stands in `cmdline`, as an index.
fn find_tool(cmdline: &Vec<char>, tools: &Vec<Vec<char>>) -> (r: Option<usize>)
    ensures
        match r {
            Some(k) => k < tools@.len() && first_tool(cmdline@, texts(tools@)) == Some(tools@[k as int]@),
            None => first_tool(cmdline@, texts(tools@)) is None,
        },
{
    let n = tools.len();
    let mut k: usize = 0;
    assert(texts(tools@).skip(0) == texts(tools@));
    while k < n
        invariant
            k <= n,
            n == tools@.len(),
            first_tool(cmdline@, texts(tools@)) == first_tool(
                cmdline@,
                texts(tools@).skip(k as int),
            ),
        decreases n - k,
    {
        let ghost rest = texts(tools@).skip(k as int);
        assert(rest[0] == tools@[k as int]@);
        assert(rest.drop_first() == texts(tools@).skip(k + 1));
        if contains_text(cmdline, &tools[k]) {
            return Some(k);
        }
        k += 1;
    }
    None
}

/// Appends the threats of the status report to `threats`.
fn push_ptrace_threats(threats: &mut Vec<String>, status: &str)
    ensures
        string_views(final(threats)@) == string_views(old(threats)@) + ptrace_threats(lines(status@)),
{
    let report = split_on(&chars_of(status), '\n');
    let label = chars_of("TracerPid:");
    let zero = chars_of("0");
    let n = report.len();
    let mut i: usize = 0;
    assert(texts(report@).take(0) == Seq::<Seq<char>>::empty());
    assert(string_views(threats@) + Seq::<Seq<char>>::empty() == string_views(threats@));
    while i < n
        invariant
            i <= n,
            n == report@.len(),
            label@ == "TracerPid:"@,
            zero@ == "0"@,
            string_views(threats@) == string_views(old(threats)@) + ptrace_threats(
                texts(report@).take(i as int),
            ),
        decreases n - i,
    {
        let ghost next = texts(report@).take(i + 1);
        let ghost before = string_views(threats@);
        assert(next.drop_last() == texts(report@).take(i as int));
        assert(next.last() == report@[i as int]@);
        match read_labelled(&report[i], &label) {
            Some(pid) => {
                if !same_chars(&pid, &zero) {
                    let mut line = String::from_str("ptrace detected (PID: ");
                    append_chars(&mut line, &pid, 0, pid.len());
                    line.append(")");
                    assert(pid@.subrange(0, pid@.len() as int) == pid@);
                    assert(line@ == ptrace_threat(pid@));
                    threats.push(line);
                    assert(string_views(threats@) == before.push(ptrace_threat(pid@)));
                }
            },
            None => {},
        }
        assert(string_views(threats@) == string_views(old(threats)@) + ptrace_threats(next));
        i += 1;
    }
    assert(texts(report@).take(n as int) == texts(report@));
}

/// Appends the threats of the command lines to `threats`.
fn push_tool_threats(threats: &mut Vec<String>, cmdlines: &Vec<String>)
    ensures
        string_views(final(threats)@) == string_views(old(threats)@) + tool_threats(
            string_views(cmdlines@),
        ),
{
    let names = tools();
    let n = cmdlines.len();
    let mut i: usize = 0;
    let ghost all = string_views(cmdlines@);
    assert(all.take(0) == Seq::<Seq<char>>::empty());
    assert(string_views(threats@) + Seq::<Seq<char>>::empty() == string_views(threats@));
    while i < n
        invariant
            i <= n,
            n == cmdlines@.len(),
            all == string_views(cmdlines@),
            texts(names@) == tool_names(),
            string_views(threats@) == string_views(old(threats)@) + tool_threats(
                all.take(i as int),
            ),
        decreases n - i,
    {
        let ghost next = all.take(i + 1);
        let ghost before = string_views(threats@);
        assert(next.drop_last() == all.take(i as int));
        assert(next.last() == cmdlines@[i as int]@);
        let cmdline = chars_of(cmdlines[i].as_str());
        match find_tool(&cmdline, &names) {
            Some(k) => {
                let mut line = String::from_str("Monitoring tool detected: ");
                append_chars(&mut line, &names[k], 0, names[k].len());
                assert(names@[k as int]@.subrange(0, names@[k as int]@.len() as int)
                    == names@[k as int]@);
                assert(line@ == tool_threat(names@[k as int]@));
                threats.push(line);
                assert(string_views(threats@) == before.push(tool_threat(names@[k as int]@)));
            },
            None => {},
        }
        assert(string_views(threats@) == string_views(old(threats)@) + tool_threats(next));
        i += 1;
    }
    assert(all.take(n as int) == all);
}

/// The threats that the status report `status` and the command lines
/// `cmdlines` of the running processes show.
///
/// Every line of the status report that begins with `TracerPid:` and
/// whose second word is not `0` gives `ptrace detected (PID: <pid>)`.
/// Then every command line that holds the name of a tracing, debugging or
/// profiling tool gives `Monitoring tool detected: <name>`, for the first
/// name that matches. A missing status report gives no threat.
pub fn detect_monitoring(status: Option<&str>, cmdlines: &Vec<String>) -> (threats: Vec<String>)
    ensures
        string_views(threats@) == monitoring_threats(text_of(status), string_views(cmdlines@)),
{
    let mut threats: Vec<String> = Vec::new();
    assert(string_views(threats@) == Seq::<Seq<char>>::empty());
    match status {
        Some(text) => {
            push_ptrace_threats(&mut threats, text);
            assert(Seq::<Seq<char>>::empty() + ptrace_threats(lines(text@)) == ptrace_threats(
                lines(text@),
            ));
        },
        None => {},
    }
    push_tool_threats(&mut threats, cmdlines);
    threats
}

/// One probe of the security posture.
///
/// Swap counts as disabled unless [`is_swap_enabled`] finds it; monitoring
/// counts as detected where [`detect_monitoring`] finds a threat. Memory
/// locking and core-dump blocking are reported as absent: the probe does
/// not establish them.
pub fn initialize_security(
    meminfo: Option<&str>,
    status: Option<&str>,
    cmdlines: &Vec<String>,
) -> (s: SecurityStatus)
    ensures
        s@ == probed_status(text_of(meminfo), text_of(status), string_views(cmdlines@)),
{
    let mut s = SecurityStatus::new();
    s.swap_disabled = !is_swap_enabled(meminfo);
    let threats = detect_monitoring(status, cmdlines);
    s.monitoring_detected = threats.len() > 0;
    s.threats_detected = threats;
    s
}

} // verus!
