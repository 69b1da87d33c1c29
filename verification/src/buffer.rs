//! The secure input store: the line being edited and the command history.
//!
//! The store owns every character the user types. It erases them when a
//! line is replaced from history, when the history is purged, and when the
//! store itself goes away.

use vstd::prelude::*;
use crate::erase::{erase_chars, erase_entries};
use crate::text::{blank, copy_range, is_blank, same_chars, string_of, texts};

verus! {

/// What a [`SecureBuffer`] holds, as mathematical values.
pub struct BufferState {
    /// The line being edited.
    pub content: Seq<char>,
    /// The committed lines, oldest first.
    pub history: Seq<Seq<char>>,
    /// Which history entry is shown; `history.len()` stands for the new line.
    pub history_index: nat,
    /// The insertion point, as a number of characters from the start.
    pub cursor: nat,
    /// How many commands were processed.
    pub command_count: nat,
    /// Whether paranoid mode is on.
    pub paranoid: bool,
}

impl BufferState {
    /// The cursor is inside the line and the history index inside the
    /// history or one past its end.
    pub open spec fn wf(self) -> bool {
        &&& self.cursor <= self.content.len()
        &&& self.history_index <= self.history.len()
    }

    /// The state of a new store.
    pub open spec fn initial() -> BufferState {
        BufferState {
            content: Seq::empty(),
            history: Seq::empty(),
            history_index: 0,
            cursor: 0,
            command_count: 0,
            paranoid: false,
        }
    }

    /// `c` is inserted at the cursor, which moves past it.
    pub open spec fn insert(self, c: char) -> BufferState {
        BufferState {
            content: self.content.insert(self.cursor as int, c),
            cursor: self.cursor + 1,
            ..self
        }
    }

    /// The character before the cursor is removed, if there is one.
    pub open spec fn backspace(self) -> BufferState {
        if self.cursor > 0 {
            BufferState {
                content: self.content.remove(self.cursor - 1),
                cursor: (self.cursor - 1) as nat,
                ..self
            }
        } else {
            self
        }
    }

    /// The cursor moves one character left, but not past the start.
    pub open spec fn move_left(self) -> BufferState {
        if self.cursor > 0 {
            BufferState { cursor: (self.cursor - 1) as nat, ..self }
        } else {
            self
        }
    }

    /// The cursor moves one character right, but not past the end.
    pub open spec fn move_right(self) -> BufferState {
        if self.cursor < self.content.len() {
            BufferState { cursor: self.cursor + 1, ..self }
        } else {
            self
        }
    }

    /// The line is replaced by `text`, with the cursor at its end.
    pub open spec fn show(self, text: Seq<char>, index: nat) -> BufferState {
        BufferState { content: text, cursor: text.len(), history_index: index, ..self }
    }

    /// One step towards older history; stays at the oldest entry.
    pub open spec fn history_up(self) -> BufferState {
        if self.history_index > 0 {
            let index = (self.history_index - 1) as nat;
            self.show(self.history[index as int], index)
        } else {
            self
        }
    }

    /// One step towards newer history; past the newest entry stands the
    /// empty new line, and there it stays.
    pub open spec fn history_down(self) -> BufferState {
        if self.history_index < self.history.len() {
            let index = self.history_index + 1;
            if index == self.history.len() {
                self.show(Seq::empty(), index)
            } else {
                self.show(self.history[index as int], index)
            }
        } else {
            self
        }
    }

    /// Whether committing would add the line to the history: it is not
    /// blank and differs from the newest entry.
    pub open spec fn commits(self) -> bool {
        &&& !is_blank(self.content)
        &&& (self.history.len() == 0 || self.history.last() != self.content)
    }

    /// The line is added to the history unless [`Self::commits`] says no,
    /// and the history index moves to the new line.
    pub open spec fn commit_history(self) -> BufferState {
        let history = if self.commits() {
            self.history.push(self.content)
        } else {
            self.history
        };
        BufferState { history, history_index: history.len(), ..self }
    }

    /// The line is emptied; history and history index stay.
    pub open spec fn discard_line(self) -> BufferState {
        BufferState { content: Seq::empty(), cursor: 0, ..self }
    }

    /// The line is emptied and the history index moves to the new line.
    pub open spec fn clear_state(self) -> BufferState {
        BufferState {
            content: Seq::empty(),
            cursor: 0,
            history_index: self.history.len(),
            ..self
        }
    }

    /// The history is emptied.
    pub open spec fn purge_history(self) -> BufferState {
        BufferState { history: Seq::empty(), history_index: 0, ..self }
    }

    /// One more command was processed.
    pub open spec fn count_command(self) -> BufferState {
        BufferState { command_count: self.command_count + 1, ..self }
    }

    /// Paranoid mode is switched on or off.
    pub open spec fn set_paranoid(self, on: bool) -> BufferState {
        BufferState { paranoid: on, ..self }
    }
}

/// Committing a line, then committing the same line again with the history
/// that the first commit left, adds nothing: the history holds the line
/// once, however the cursor and the history index stood in between.
pub proof fn lemma_commit_twice(first: BufferState, second: BufferState)
    requires
        second.content == first.content,
        second.history == first.commit_history().history,
    ensures
        second.commit_history().history == second.history,
{
}

/// Committing is idempotent: a second commit right after the first changes
/// nothing.
pub proof fn lemma_commit_idempotent(s: BufferState)
    ensures
        s.commit_history().commit_history() == s.commit_history(),
{
    lemma_commit_twice(s, s.commit_history());
}

/// Holds the line being edited and the command history, and erases both
/// when it is dropped.
pub struct SecureBuffer {
    content: Vec<char>,
    history: Vec<Vec<char>>,
    history_index: usize,
    cursor_pos: usize,
    command_count: usize,
    paranoid_mode: bool,
}

impl View for SecureBuffer {
    type V = BufferState;

    closed spec fn view(&self) -> BufferState {
        BufferState {
            content: self.content@,
            history: texts(self.history@),
            history_index: self.history_index as nat,
            cursor: self.cursor_pos as nat,
            command_count: self.command_count as nat,
            paranoid: self.paranoid_mode,
        }
    }
}

impl SecureBuffer {
    /// An empty store: no text, no history, paranoid mode off.
    pub fn new() -> (b: SecureBuffer)
        ensures
            b@ == BufferState::initial(),
            b@.wf(),
    {
        let b = SecureBuffer {
            content: Vec::new(),
            history: Vec::new(),
            history_index: 0,
            cursor_pos: 0,
            command_count: 0,
            paranoid_mode: false,
        };
        assert(texts(b.history@) == Seq::<Seq<char>>::empty());
        b
    }

    /// Inserts `c` at the cursor and moves the cursor past it.
    pub fn insert(&mut self, c: char)
        requires
            old(self)@.wf(),
        ensures
            final(self)@ == old(self)@.insert(c),
            final(self)@.wf(),
    {
        self.content.insert(self.cursor_pos, c);
        let len = self.content.len();
        assert(self.cursor_pos < len);
        self.cursor_pos += 1;
    }

    /// Removes the character before the cursor, if there is one.
    pub fn backspace(&mut self)
        requires
            old(self)@.wf(),
        ensures
            final(self)@ == old(self)@.backspace(),
            final(self)@.wf(),
    {
        if self.cursor_pos > 0 {
            self.cursor_pos -= 1;
            self.content.remove(self.cursor_pos);
        }
    }

    /// Moves the cursor one character left, but not past the start.
    pub fn move_left(&mut self)
        requires
            old(self)@.wf(),
        ensures
            final(self)@ == old(self)@.move_left(),
            final(self)@.wf(),
    {
        if self.cursor_pos > 0 {
            self.cursor_pos -= 1;
        }
    }

    /// Moves the cursor one character right, but not past the end.
    pub fn move_right(&mut self)
        requires
            old(self)@.wf(),
        ensures
            final(self)@ == old(self)@.move_right(),
            final(self)@.wf(),
    {
        if self.cursor_pos < self.content.len() {
            self.cursor_pos += 1;
        }
    }

    /// Erases the line and shows history entry `index` in its place, with
    /// the cursor at its end.
    fn load(&mut self, index: usize)
        requires
            old(self)@.wf(),
            index < old(self)@.history.len(),
        ensures
            final(self)@ == old(self)@.show(old(self)@.history[index as int], index as nat),
            final(self)@.wf(),
    {
        self.cursor_pos = 0;
        erase_chars(&mut self.content);
        let n = self.history[index].len();
        let mut i: usize = 0;
        while i < n
            invariant
                i <= n,
                index < self.history@.len(),
                n == self.history@[index as int]@.len(),
                self.content@ == self.history@[index as int]@.take(i as int),
                self.cursor_pos == 0,
                self.history == old(self).history,
                self.command_count == old(self).command_count,
                self.paranoid_mode == old(self).paranoid_mode,
            decreases n - i,
        {
            let c = self.history[index][i];
            self.content.push(c);
            assert(self.history@[index as int]@.take(i + 1) == self.history@[index as int]@.take(
                i as int,
            ).push(c));
            i += 1;
        }
        assert(self.history@[index as int]@.take(n as int) == self.history@[index as int]@);
        self.history_index = index;
        self.cursor_pos = n;
    }

    /// Shows the next older history entry, erasing the line it replaces.
    /// At the oldest entry nothing changes.
    pub fn history_up(&mut self)
        requires
            old(self)@.wf(),
        ensures
            final(self)@ == old(self)@.history_up(),
            final(self)@.wf(),
    {
        if self.history_index > 0 {
            let index = self.history_index - 1;
            self.load(index);
        }
    }

    /// Shows the next newer history entry, or the empty new line after the
    /// newest one, erasing the line it replaces. At the new line nothing
    /// changes.
    pub fn history_down(&mut self)
        requires
            old(self)@.wf(),
        ensures
            final(self)@ == old(self)@.history_down(),
            final(self)@.wf(),
    {
        if self.history_index < self.history.len() {
            let index = self.history_index + 1;
            if index == self.history.len() {
                self.cursor_pos = 0;
                erase_chars(&mut self.content);
                self.history_index = index;
            } else {
                self.load(index);
            }
        }
    }

    /// Adds the line to the history unless it is blank or repeats the newest
    /// entry, and moves the history index to the new line.
    pub fn commit_history(&mut self)
        requires
            old(self)@.wf(),
        ensures
            final(self)@ == old(self)@.commit_history(),
            final(self)@.wf(),
    {
        if !blank(&self.content) {
            let n = self.history.len();
            let repeats = n > 0 && same_chars(&self.history[n - 1], &self.content);
            if !repeats {
                let entry = copy_range(&self.content, 0, self.content.len());
                assert(entry@ == self.content@);
                self.history.push(entry);
                assert(texts(self.history@) == texts(old(self).history@).push(entry@));
            }
        }
        self.history_index = self.history.len();
    }

    /// Erases the line without touching the history or the history index.
    pub fn discard_line(&mut self)
        requires
            old(self)@.wf(),
        ensures
            final(self)@ == old(self)@.discard_line(),
            final(self)@.wf(),
    {
        self.cursor_pos = 0;
        erase_chars(&mut self.content);
    }

    /// Erases the line and moves the history index to the new line.
    pub fn clear_state(&mut self)
        requires
            old(self)@.wf(),
        ensures
            final(self)@ == old(self)@.clear_state(),
            final(self)@.wf(),
    {
        self.cursor_pos = 0;
        erase_chars(&mut self.content);
        self.history_index = self.history.len();
    }

    /// Erases every history entry and empties the history.
    pub fn purge_history(&mut self)
        requires
            old(self)@.wf(),
        ensures
            final(self)@ == old(self)@.purge_history(),
            final(self)@.wf(),
    {
        self.history_index = 0;
        erase_entries(&mut self.history);
        assert(texts(self.history@) == Seq::<Seq<char>>::empty());
    }

    /// Counts one more processed command.
    pub fn count_command(&mut self)
        requires
            old(self)@.command_count < usize::MAX,
        ensures
            final(self)@ == old(self)@.count_command(),
    {
        self.command_count += 1;
    }

    /// Switches paranoid mode on or off.
    pub fn set_paranoid(&mut self, on: bool)
        ensures
            final(self)@ == old(self)@.set_paranoid(on),
    {
        self.paranoid_mode = on;
    }

    /// The line being edited, as characters.
    pub fn content_chars(&self) -> (v: Vec<char>)
        ensures
            v@ == self@.content,
    {
        let v = copy_range(&self.content, 0, self.content.len());
        assert(self.content@.subrange(0, self.content@.len() as int) == self.content@);
        v
    }

    /// Erases the line and every history entry, and resets the counters:
    /// the store is as new. This is what dropping the store does.
    pub fn wipe(&mut self)
        ensures
            final(self)@ == BufferState::initial(),
            final(self)@.wf(),
        opens_invariants none
        no_unwind
    {
        self.cursor_pos = 0;
        self.history_index = 0;
        erase_chars(&mut self.content);
        erase_entries(&mut self.history);
        self.command_count = 0;
        self.paranoid_mode = false;
        assert(texts(self.history@) == Seq::<Seq<char>>::empty());
    }

    /// Whether the cursor and the history index are in range. Every
    /// function of the store keeps them so.
    pub fn well_formed(&self) -> (b: bool)
        ensures
            b == self@.wf(),
    {
        self.cursor_pos <= self.content.len() && self.history_index <= self.history.len()
    }

    /// The line being edited.
    pub fn content(&self) -> (s: String)
        ensures
            s@ == self@.content,
    {
        string_of(&self.content)
    }

    /// The insertion point, as a number of characters from the start.
    pub fn cursor_pos(&self) -> (n: usize)
        ensures
            n == self@.cursor,
    {
        self.cursor_pos
    }

    /// Number of entries in the history.
    pub fn history_len(&self) -> (n: usize)
        ensures
            n == self@.history.len(),
    {
        self.history.len()
    }

    /// History entry `i`, oldest first, where there is one.
    pub fn history_entry(&self, i: usize) -> (r: Option<String>)
        ensures
            r is Some <==> i < self@.history.len(),
            r matches Some(s) ==> s@ == self@.history[i as int],
    {
        if i < self.history.len() {
            Some(string_of(&self.history[i]))
        } else {
            None
        }
    }

    /// Which history entry is shown; [`Self::history_len`] stands for the
    /// new line.
    pub fn history_index(&self) -> (n: usize)
        ensures
            n == self@.history_index,
    {
        self.history_index
    }

    /// How many commands were processed.
    pub fn command_count(&self) -> (n: usize)
        ensures
            n == self@.command_count,
    {
        self.command_count
    }

    /// Whether paranoid mode is on.
    pub fn paranoid_mode(&self) -> (b: bool)
        ensures
            b == self@.paranoid,
    {
        self.paranoid_mode
    }
}

impl Drop for SecureBuffer {
    /// Erases the line and every history entry before the memory is
    /// released: what is dropped is a store that holds nothing.
    fn drop(&mut self)
        ensures
            final(self)@ == BufferState::initial(),
        opens_invariants none
        no_unwind
    {
        self.wipe();
    }
}

} // verus!
