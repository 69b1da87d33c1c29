//! What the shell does with a line: the decisions, without the doing.
//!
//! The store decides what a committed line asks for and says so in an
//! [`Action`]; the caller performs it. Where the decision needs to know
//! whether a tracer is attached, the action asks for that probe and a
//! second function takes the answer. In paranoid mode every fifth command
//! triggers such a probe, and an attached tracer ends the process with
//! [`ABNORMAL_EXIT_CODE`].

use vstd::prelude::*;
use vstd::string::*;
use crate::buffer::{BufferState, SecureBuffer};
use crate::erase::erase_chars;
use crate::text::{
    append_chars, append_decimal, blank, chars_of, copy_range, decimal, first_index, is_blank,
    lemma_blank_iff_trimmed_empty, lemma_first_index_is, same_chars, starts_with, string_of, trim,
    trimmed,
};

verus! {

broadcast use vstd::string::group_string_axioms;

/// The exit code of an abnormal termination: the panic command, or a tracer
/// found in paranoid mode.
pub const ABNORMAL_EXIT_CODE: i32 = 137;

/// The exit code of a normal end of the session.
pub const NORMAL_EXIT_CODE: i32 = 0;

/// How many seconds an encrypted copy made by the copy command stays in the
/// clipboard.
pub const COPY_TIMEOUT_SECS: u64 = 30;

/// After how many processed commands paranoid mode probes for a tracer.
pub const PARANOID_INTERVAL: usize = 5;

/// What the caller is to do.
#[derive(Debug, Clone, Copy, PartialEq, Eq, Structural)]
pub enum ActionKind {
    /// Nothing.
    Nothing,
    /// Show the text.
    Output,
    /// End the session normally.
    Exit,
    /// Clear the screen, show the text, wait for the delay, and end the
    /// process with [`ABNORMAL_EXIT_CODE`].
    Terminate,
    /// Clear the screen.
    ClearScreen,
    /// Probe the security posture and show its report.
    ReportSecurity,
    /// Probe for a tracer and hand the answer to
    /// [`SecureBuffer::after_periodic_check`].
    PeriodicCheck,
    /// Probe for a tracer and hand the answer to [`anti_debug_verdict`].
    ProbeDebugger,
    /// Copy the text to the clipboard, encrypted, for
    /// [`COPY_TIMEOUT_SECS`] seconds.
    Copy,
    /// Decrypt the clipboard with the text as the key.
    Decrypt,
    /// Change the working directory to the text; `~` stands for the home
    /// directory.
    ChangeDir,
    /// Hand the text to the host shell.
    RunShell,
}

/// An [`Action`] as mathematical values.
pub struct ActionModel {
    pub kind: ActionKind,
    pub text: Seq<char>,
    pub delay_ms: u64,
}

/// What the caller is to do, and with what.
#[derive(Debug)]
pub struct Action {
    /// What to do.
    pub kind: ActionKind,
    /// The text to do it with; empty where the kind needs none.
    pub text: String,
    /// How long to wait before a termination, in milliseconds.
    pub delay_ms: u64,
}

impl View for Action {
    type V = ActionModel;

    open spec fn view(&self) -> ActionModel {
        ActionModel { kind: self.kind, text: self.text@, delay_ms: self.delay_ms }
    }
}

/// An action without text.
pub open spec fn bare(kind: ActionKind) -> ActionModel {
    ActionModel { kind, text: Seq::empty(), delay_ms: 0 }
}

/// An action with text.
pub open spec fn with_text(kind: ActionKind, text: Seq<char>) -> ActionModel {
    ActionModel { kind, text, delay_ms: 0 }
}

/// A termination with its notice and delay.
pub open spec fn termination(notice: Seq<char>, delay_ms: u64) -> ActionModel {
    ActionModel { kind: ActionKind::Terminate, text: notice, delay_ms }
}

/// The part of `s` before its first space.
pub open spec fn head(s: Seq<char>) -> Seq<char> {
    s.take(first_index(s, ' ') as int)
}

/// The part of `s` after its first space; empty where there is no space.
pub open spec fn tail(s: Seq<char>) -> Seq<char> {
    if first_index(s, ' ') < s.len() {
        s.skip(first_index(s, ' ') as int + 1)
    } else {
        Seq::empty()
    }
}

/// The prefix of the shell's own commands.
pub open spec fn command_prefix() -> Seq<char> {
    "::"@
}

/// The lines of a history listing, numbered from one.
pub open spec fn history_lines(history: Seq<Seq<char>>) -> Seq<char>
    decreases history.len(),
{
    if history.len() == 0 {
        Seq::empty()
    } else {
        history_lines(history.drop_last()) + "  "@ + decimal(history.len()) + ": "@
            + history.last() + "\r\n"@
    }
}

/// The listing of the history.
pub open spec fn history_listing(history: Seq<Seq<char>>) -> Seq<char> {
    if history.len() == 0 {
        "No commands in history."@
    } else {
        "Command History (RAM only):\r\n"@ + history_lines(history)
    }
}

/// The confirmation of a purge of `count` entries.
pub open spec fn purge_message(count: nat) -> Seq<char> {
    "HISTORY PURGED. "@ + decimal(count) + " COMMANDS ZEROIZED FROM MEMORY."@
}

/// What is shown when paranoid mode is switched on.
pub open spec fn paranoid_on_message() -> Seq<char> {
    "⚠ PARANOID MODE ENABLED\r\n- Auto-panic on debugger detection\r\n- Periodic security checks every 5 commands\r\n- Enhanced threat monitoring"@
}

/// What is shown when paranoid mode is queried.
pub open spec fn paranoid_usage(paranoid: bool) -> Seq<char> {
    "Paranoid mode: "@ + (if paranoid {
        "ENABLED"@
    } else {
        "DISABLED"@
    }) + "\r\nUsage: ::paranoid on|off"@
}

/// The notice of the panic command.
pub open spec fn panic_notice() -> Seq<char> {
    "KERNEL PANIC - MEMORY CORRUPTION DETECTED at 0xDEADBEEF\nDumping core to /dev/null..."@
}

/// The notice of a tracer found by the periodic check.
pub open spec fn periodic_notice() -> Seq<char> {
    "⚠ PERIODIC CHECK: DEBUGGER DETECTED\nPARANOID MODE - INITIATING EMERGENCY SHUTDOWN..."@
}

/// The notice of a tracer found on request in paranoid mode.
pub open spec fn anti_debug_notice() -> Seq<char> {
    "⚠ DEBUGGER DETECTED - PARANOID MODE ACTIVE\nINITIATING EMERGENCY SHUTDOWN..."@
}

/// What the answer to a requested tracer probe leads to: without a tracer
/// an all-clear; with one a warning, or in paranoid mode the end of the
/// process.
pub open spec fn anti_debug_action(paranoid: bool, debugger_present: bool) -> ActionModel {
    if debugger_present {
        if paranoid {
            termination(anti_debug_notice(), 500)
        } else {
            with_text(ActionKind::Output, "⚠ WARNING: DEBUGGER DETECTED!"@)
        }
    } else {
        with_text(ActionKind::Output, "✓ No debugger detected."@)
    }
}

impl BufferState {
    /// Whether the periodic check is due once this command is counted:
    /// paranoid mode is on and the count reaches a multiple of five.
    pub open spec fn check_due(self) -> bool {
        self.paranoid && (self.command_count + 1) % (PARANOID_INTERVAL as nat) == 0
    }

    /// What one of the shell's own commands asks for.
    pub open spec fn own_action(self, name: Seq<char>, args: Seq<char>) -> ActionModel {
        if name == "panic"@ {
            termination(panic_notice(), 1500)
        } else if name == "status"@ {
            with_text(ActionKind::Output, "GHOST MODE ACTIVE. MEMORY SECURE. TRACE: NONE."@)
        } else if name == "security-status"@ {
            bare(ActionKind::ReportSecurity)
        } else if name == "exit"@ {
            bare(ActionKind::Exit)
        } else if name == "clear"@ {
            bare(ActionKind::ClearScreen)
        } else if name == "history"@ {
            with_text(ActionKind::Output, history_listing(self.history))
        } else if name == "purge-history"@ {
            with_text(ActionKind::Output, purge_message(self.history.len()))
        } else if name == "cp"@ {
            if args.len() == 0 {
                with_text(ActionKind::Output, "Error: No content to copy."@)
            } else {
                with_text(ActionKind::Copy, args)
            }
        } else if name == "decrypt"@ {
            if args.len() == 0 {
                with_text(ActionKind::Output, "Usage: ::decrypt <key>"@)
            } else {
                with_text(ActionKind::Decrypt, args)
            }
        } else if name == "anti-debug"@ {
            bare(ActionKind::ProbeDebugger)
        } else if name == "paranoid"@ {
            if args == "on"@ {
                with_text(ActionKind::Output, paranoid_on_message())
            } else if args == "off"@ {
                with_text(ActionKind::Output, "PARANOID MODE DISABLED"@)
            } else {
                with_text(ActionKind::Output, paranoid_usage(self.paranoid))
            }
        } else {
            with_text(ActionKind::Output, "Unknown GHOST command: '"@ + name + "'"@)
        }
    }

    /// What one of the shell's own commands does to the store: a purge
    /// empties the history, and paranoid mode goes on or off.
    pub open spec fn own_effect(self, name: Seq<char>, args: Seq<char>) -> BufferState {
        if name == "purge-history"@ {
            self.purge_history()
        } else if name == "paranoid"@ && args == "on"@ {
            self.set_paranoid(true)
        } else if name == "paranoid"@ && args == "off"@ {
            self.set_paranoid(false)
        } else {
            self
        }
    }

    /// What a line that is not one of the shell's own commands asks for.
    pub open spec fn host_action(line: Seq<char>) -> ActionModel {
        if head(line) == "cd"@ {
            with_text(
                ActionKind::ChangeDir,
                if first_index(line, ' ') < line.len() {
                    tail(line)
                } else {
                    "~"@
                },
            )
        } else if head(line) == "clear"@ {
            bare(ActionKind::ClearScreen)
        } else {
            with_text(ActionKind::RunShell, line)
        }
    }

    /// What the line asks for, the periodic check left aside.
    pub open spec fn dispatch_action(self) -> ActionModel {
        let line = trimmed(self.content);
        if line.len() == 0 {
            bare(ActionKind::Nothing)
        } else if command_prefix().is_prefix_of(line) {
            let rest = line.skip(command_prefix().len() as int);
            self.own_action(head(rest), tail(rest))
        } else {
            Self::host_action(line)
        }
    }

    /// What dispatching the line does to the store.
    pub open spec fn dispatch_effect(self) -> BufferState {
        let line = trimmed(self.content);
        if line.len() > 0 && command_prefix().is_prefix_of(line) {
            let rest = line.skip(command_prefix().len() as int);
            self.own_effect(head(rest), tail(rest))
        } else {
            self
        }
    }

    /// What processing the line asks for: nothing for a blank line; the
    /// periodic check where it is due; otherwise what the line says.
    pub open spec fn process_action(self) -> ActionModel {
        if is_blank(self.content) {
            bare(ActionKind::Nothing)
        } else if self.check_due() {
            bare(ActionKind::PeriodicCheck)
        } else {
            self.dispatch_action()
        }
    }

    /// What processing the line does to the store: a line that is not
    /// blank is counted, and dispatched unless the periodic check is due.
    pub open spec fn process_effect(self) -> BufferState {
        if is_blank(self.content) {
            self
        } else if self.check_due() {
            self.count_command()
        } else {
            self.count_command().dispatch_effect()
        }
    }

    /// What the answer to the periodic check asks for: with a tracer the
    /// end of the process, without one what the line says.
    pub open spec fn checked_action(self, debugger_present: bool) -> ActionModel {
        if debugger_present {
            termination(periodic_notice(), 500)
        } else {
            self.dispatch_action()
        }
    }

    /// What the answer to the periodic check does to the store.
    pub open spec fn checked_effect(self, debugger_present: bool) -> BufferState {
        if debugger_present {
            self
        } else {
            self.dispatch_effect()
        }
    }
}

/// In paranoid mode a tracer never passes a check: whatever the line says,
/// the periodic check with a tracer attached ends the process, and so does
/// the requested probe.
pub proof fn lemma_paranoid_fails_fast(s: BufferState)
    ensures
        s.checked_action(true).kind == ActionKind::Terminate,
        s.checked_effect(true) == s,
        anti_debug_action(true, true).kind == ActionKind::Terminate,
{
}

/// The periodic check comes with every fifth command that is not blank,
/// in paranoid mode only, and a blank line is never counted.
pub proof fn lemma_periodic_check(s: BufferState)
    ensures
        s.process_action().kind == ActionKind::PeriodicCheck ==> s.paranoid && !is_blank(s.content)
            && s.process_effect().command_count % 5 == 0,
        !is_blank(s.content) && s.paranoid && (s.command_count + 1) % 5 == 0
            ==> s.process_action().kind == ActionKind::PeriodicCheck,
        is_blank(s.content) ==> s.process_effect() == s,
        !is_blank(s.content) ==> s.process_effect().command_count == s.command_count + 1,
{
    lemma_blank_iff_trimmed_empty(s.content);
    if !is_blank(s.content) && s.check_due() {
        assert(bare(ActionKind::PeriodicCheck).kind == ActionKind::PeriodicCheck);
    } else if !is_blank(s.content) {
        let line = trimmed(s.count_command().content);
        assert(line.len() > 0);
        if command_prefix().is_prefix_of(line) {
            let rest = line.skip(command_prefix().len() as int);
            assert(s.count_command().own_action(head(rest), tail(rest)).kind
                != ActionKind::PeriodicCheck);
        }
    }
}

fn bare_action(kind: ActionKind) -> (a: Action)
    ensures
        a@ == bare(kind),
{
    Action { kind, text: String::new(), delay_ms: 0 }
}

fn text_action(kind: ActionKind, text: String) -> (a: Action)
    ensures
        a@ == with_text(kind, text@),
{
    Action { kind, text, delay_ms: 0 }
}

fn output(text: &str) -> (a: Action)
    ensures
        a@ == with_text(ActionKind::Output, text@),
{
    text_action(ActionKind::Output, String::from_str(text))
}

fn terminate(notice: &str, delay_ms: u64) -> (a: Action)
    ensures
        a@ == termination(notice@, delay_ms),
{
    Action { kind: ActionKind::Terminate, text: String::from_str(notice), delay_ms }
}

fn is_word(v: &Vec<char>, word: &str) -> (b: bool)
    ensures
        b == (v@ == word@),
{
    let w = chars_of(word);
    same_chars(v, &w)
}

/// Splits `v` at its first space.
fn split_command(v: &Vec<char>) -> (r: (Vec<char>, Vec<char>, bool))
    ensures
        r.0@ == head(v@),
        r.1@ == tail(v@),
        r.2 == (first_index(v@, ' ') < v@.len()),
{
    let n = v.len();
    let mut i: usize = 0;
    while i < n && v[i] != ' '
        invariant
            i <= n,
            n == v@.len(),
            forall|j: int| 0 <= j < i ==> #[trigger] v@[j] != ' ',
        decreases n - i,
    {
        i += 1;
    }
    proof {
        lemma_first_index_is(v@, ' ', i as int);
    }
    let name = copy_range(v, 0, i);
    if i < n {
        (name, copy_range(v, i + 1, n), true)
    } else {
        (name, Vec::new(), false)
    }
}

/// What the answer to a requested tracer probe leads to.
///
/// Without a tracer the all-clear is shown. With one, a warning is shown,
/// or in paranoid mode the process ends with [`ABNORMAL_EXIT_CODE`].
pub fn anti_debug_verdict(paranoid: bool, debugger_present: bool) -> (a: Action)
    ensures
        a@ == anti_debug_action(paranoid, debugger_present),
{
    if debugger_present {
        if paranoid {
            terminate(
                "⚠ DEBUGGER DETECTED - PARANOID MODE ACTIVE\nINITIATING EMERGENCY SHUTDOWN...",
                500,
            )
        } else {
            output("⚠ WARNING: DEBUGGER DETECTED!")
        }
    } else {
        output("✓ No debugger detected.")
    }
}

impl SecureBuffer {
    /// The listing of the history.
    pub fn history_listing(&self) -> (text: String)
        ensures
            text@ == history_listing(self@.history),
    {
        let n = self.history_len();
        if n == 0 {
            return String::from_str("No commands in history.");
        }
        let mut text = String::from_str("Command History (RAM only):\r\n");
        let ghost history = self@.history;
        let mut i: usize = 0;
        assert(history.take(0) == Seq::<Seq<char>>::empty());
        while i < n
            invariant
                i <= n,
                n == history.len(),
                history == self@.history,
                text@ == "Command History (RAM only):\r\n"@ + history_lines(history.take(i as int)),
            decreases n - i,
        {
            match self.history_entry(i) {
                Some(entry) => {
                    text.append("  ");
                    append_decimal(&mut text, (i + 1) as u64);
                    text.append(": ");
                    text.append(entry.as_str());
                    text.append("\r\n");
                    proof {
                        let next = history.take(i + 1);
                        assert(next.drop_last() == history.take(i as int));
                        assert(next.last() == entry@);
                        assert(text@ == "Command History (RAM only):\r\n"@ + history_lines(next));
                    }
                },
                None => {},
            }
            i += 1;
        }
        assert(history.take(n as int) == history);
        text
    }

    /// Decides what one of the shell's own commands asks for, and does to
    /// the store what it does itself.
    fn own_command(&mut self, name: &Vec<char>, args: &Vec<char>) -> (a: Action)
        requires
            old(self)@.wf(),
        ensures
            a@ == old(self)@.own_action(name@, args@),
            final(self)@ == old(self)@.own_effect(name@, args@),
            final(self)@.wf(),
    {
        proof {
            reveal_strlit("panic");
            reveal_strlit("status");
            reveal_strlit("security-status");
            reveal_strlit("exit");
            reveal_strlit("clear");
            reveal_strlit("history");
            reveal_strlit("purge-history");
            reveal_strlit("cp");
            reveal_strlit("decrypt");
            reveal_strlit("anti-debug");
            reveal_strlit("paranoid");
        }
        if is_word(name, "panic") {
            terminate(
                "KERNEL PANIC - MEMORY CORRUPTION DETECTED at 0xDEADBEEF\nDumping core to /dev/null...",
                1500,
            )
        } else if is_word(name, "status") {
            output("GHOST MODE ACTIVE. MEMORY SECURE. TRACE: NONE.")
        } else if is_word(name, "security-status") {
            bare_action(ActionKind::ReportSecurity)
        } else if is_word(name, "exit") {
            bare_action(ActionKind::Exit)
        } else if is_word(name, "clear") {
            bare_action(ActionKind::ClearScreen)
        } else if is_word(name, "history") {
            text_action(ActionKind::Output, self.history_listing())
        } else if is_word(name, "purge-history") {
            let count = self.history_len();
            self.purge_history();
            let mut text = String::from_str("HISTORY PURGED. ");
            append_decimal(&mut text, count as u64);
            text.append(" COMMANDS ZEROIZED FROM MEMORY.");
            text_action(ActionKind::Output, text)
        } else if is_word(name, "cp") {
            if args.len() == 0 {
                output("Error: No content to copy.")
            } else {
                text_action(ActionKind::Copy, string_of(args))
            }
        } else if is_word(name, "decrypt") {
            if args.len() == 0 {
                output("Usage: ::decrypt <key>")
            } else {
                text_action(ActionKind::Decrypt, string_of(args))
            }
        } else if is_word(name, "anti-debug") {
            bare_action(ActionKind::ProbeDebugger)
        } else if is_word(name, "paranoid") {
            if is_word(args, "on") {
                self.set_paranoid(true);
                output(
                    "⚠ PARANOID MODE ENABLED\r\n- Auto-panic on debugger detection\r\n- Periodic security checks every 5 commands\r\n- Enhanced threat monitoring",
                )
            } else if is_word(args, "off") {
                self.set_paranoid(false);
                output("PARANOID MODE DISABLED")
            } else {
                let mut text = String::from_str("Paranoid mode: ");
                text.append(
                    if self.paranoid_mode() {
                        "ENABLED"
                    } else {
                        "DISABLED"
                    },
                );
                text.append("\r\nUsage: ::paranoid on|off");
                text_action(ActionKind::Output, text)
            }
        } else {
            let mut text = String::from_str("Unknown GHOST command: '");
            append_chars(&mut text, name, 0, name.len());
            text.append("'");
            assert(name@.subrange(0, name@.len() as int) == name@);
            text_action(ActionKind::Output, text)
        }
    }

    /// Decides what the line asks for, the periodic check left aside, and
    /// does to the store what the line does itself.
    ///
    /// A blank line asks for nothing. A line that begins with `::` is one
    /// of the shell's own commands: its name runs to the first space, its
    /// arguments follow. Of the others, `cd` changes the directory, `clear`
    /// clears the screen, and anything else goes to the host shell.
    pub fn dispatch(&mut self) -> (a: Action)
        requires
            old(self)@.wf(),
        ensures
            a@ == old(self)@.dispatch_action(),
            final(self)@ == old(self)@.dispatch_effect(),
            final(self)@.wf(),
    {
        let mut raw = self.content_chars();
        let mut line = trim(&raw);
        erase_chars(&mut raw);
        if line.len() == 0 {
            return bare_action(ActionKind::Nothing);
        }
        let prefix = chars_of("::");
        let action = if starts_with(&line, &prefix) {
            let mut rest = copy_range(&line, prefix.len(), line.len());
            assert(rest@ == line@.skip(command_prefix().len() as int));
            let (mut name, mut args, _) = split_command(&rest);
            erase_chars(&mut rest);
            let action = self.own_command(&name, &args);
            erase_chars(&mut name);
            erase_chars(&mut args);
            action
        } else {
            let (mut name, mut args, has_args) = split_command(&line);
            let action = if is_word(&name, "cd") {
                if has_args {
                    text_action(ActionKind::ChangeDir, string_of(&args))
                } else {
                    text_action(ActionKind::ChangeDir, String::from_str("~"))
                }
            } else if is_word(&name, "clear") {
                bare_action(ActionKind::ClearScreen)
            } else {
                text_action(ActionKind::RunShell, string_of(&line))
            };
            erase_chars(&mut name);
            erase_chars(&mut args);
            action
        };
        erase_chars(&mut line);
        action
    }

    /// Processes the line: counts it, and decides what it asks for.
    ///
    /// A blank line is not counted and asks for nothing. In paranoid mode
    /// every fifth counted command asks for the periodic check first, and
    /// [`Self::after_periodic_check`] takes the answer. Otherwise the line
    /// is dispatched as [`Self::dispatch`] does.
    pub fn process_command(&mut self) -> (a: Action)
        requires
            old(self)@.wf(),
            old(self)@.command_count < usize::MAX,
        ensures
            a@ == old(self)@.process_action(),
            final(self)@ == old(self)@.process_effect(),
            final(self)@.wf(),
    {
        let mut raw = self.content_chars();
        let nothing = blank(&raw);
        erase_chars(&mut raw);
        if nothing {
            return bare_action(ActionKind::Nothing);
        }
        self.count_command();
        if self.paranoid_mode() && self.command_count() % PARANOID_INTERVAL == 0 {
            return bare_action(ActionKind::PeriodicCheck);
        }
        self.dispatch()
    }

    /// Takes the answer to the periodic check.
    ///
    /// With a tracer attached the process is to end with
    /// [`ABNORMAL_EXIT_CODE`], and the store is left as it is. Without one
    /// the line is dispatched as [`Self::dispatch`] does.
    pub fn after_periodic_check(&mut self, debugger_present: bool) -> (a: Action)
        requires
            old(self)@.wf(),
        ensures
            a@ == old(self)@.checked_action(debugger_present),
            final(self)@ == old(self)@.checked_effect(debugger_present),
            final(self)@.wf(),
    {
        if debugger_present {
            terminate(
                "⚠ PERIODIC CHECK: DEBUGGER DETECTED\nPARANOID MODE - INITIATING EMERGENCY SHUTDOWN...",
                500,
            )
        } else {
            self.dispatch()
        }
    }
}

} // verus!
