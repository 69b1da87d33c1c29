//! Completion of the last word of the line, and the prompt.
//!
//! The caller lists the directory; the store decides whether the listing
//! completes the word, and with what.

use vstd::prelude::*;
use vstd::string::*;
use crate::buffer::{BufferState, SecureBuffer};
use crate::erase::{erase_chars, erase_entries};
use crate::text::{
    chars_of, copy_range, split_words, starts_with, string_of, string_views, texts, words,
};

verus! {

broadcast use vstd::string::group_string_axioms;

/// The names that begin with `prefix`, in their order.
pub open spec fn candidates(names: Seq<Seq<char>>, prefix: Seq<char>) -> Seq<Seq<char>>
    decreases names.len(),
{
    if names.len() == 0 {
        Seq::empty()
    } else {
        let before = candidates(names.drop_last(), prefix);
        if prefix.is_prefix_of(names.last()) {
            before.push(names.last())
        } else {
            before
        }
    }
}

/// What completes `prefix`: the rest of the one name that begins with it.
/// Where no name or more than one begins with it, nothing does.
pub open spec fn completion(names: Seq<Seq<char>>, prefix: Seq<char>) -> Option<Seq<char>> {
    let found = candidates(names, prefix);
    if found.len() == 1 {
        Some(found[0].skip(prefix.len() as int))
    } else {
        None
    }
}

/// The last word of a line, where it has one.
pub open spec fn last_word(line: Seq<char>) -> Option<Seq<char>> {
    if words(line).len() > 0 {
        Some(words(line).last())
    } else {
        None
    }
}

/// The text of the prompt in a directory named `dir`.
pub open spec fn prompt_text(dir: Seq<char>) -> Seq<char> {
    "gsh "@ + dir + ">> "@
}

impl BufferState {
    /// `text` is inserted at the cursor, which moves past it.
    pub open spec fn insert_text(self, text: Seq<char>) -> BufferState {
        BufferState {
            content: self.content.take(self.cursor as int) + text + self.content.skip(
                self.cursor as int,
            ),
            cursor: self.cursor + text.len(),
            ..self
        }
    }

    /// The line is completed from `names` where they complete `prefix`.
    pub open spec fn autocomplete(self, prefix: Seq<char>, names: Seq<Seq<char>>) -> BufferState {
        match completion(names, prefix) {
            Some(rest) => self.insert_text(rest),
            None => self,
        }
    }
}

/// Inserting a text is inserting its characters one after the other:
/// the empty text changes nothing, and a text with one more character is
/// the text followed by an insertion of that character.
pub proof fn lemma_insert_text_by_character(s: BufferState, text: Seq<char>, c: char)
    requires
        s.wf(),
    ensures
        s.insert_text(Seq::empty()) == s,
        s.insert_text(text).wf(),
        s.insert_text(text).insert(c) == s.insert_text(text.push(c)),
{
    let left = s.content.take(s.cursor as int);
    let right = s.content.skip(s.cursor as int);
    assert(left + Seq::<char>::empty() + right == s.content);
    assert((left + text + right).insert((s.cursor + text.len()) as int, c) == left + text.push(c)
        + right);
}

/// The prompt shown in a directory named `dir`.
pub fn prompt(dir: &str) -> (text: String)
    ensures
        text@ == prompt_text(dir@),
{
    let mut text = String::from_str("gsh ");
    text.append(dir);
    text.append(">> ");
    text
}

/// The rest of the one of `names` that begins with `prefix`.
pub fn complete(prefix: &str, names: &Vec<String>) -> (r: Option<String>)
    ensures
        match r {
            Some(rest) => completion(string_views(names@), prefix@) == Some(rest@),
            None => completion(string_views(names@), prefix@) is None,
        },
{
    let wanted = chars_of(prefix);
    let ghost all = string_views(names@);
    let mut found: Vec<Vec<char>> = Vec::new();
    let n = names.len();
    let mut i: usize = 0;
    assert(all.take(0) == Seq::<Seq<char>>::empty());
    assert(texts(found@) == Seq::<Seq<char>>::empty());
    while i < n
        invariant
            i <= n,
            n == names@.len(),
            all == string_views(names@),
            wanted@ == prefix@,
            texts(found@) == candidates(all.take(i as int), prefix@),
            forall|k: int| 0 <= k < found@.len() ==> prefix@.is_prefix_of(#[trigger] found@[k]@),
        decreases n - i,
    {
        let ghost next = all.take(i + 1);
        assert(next.drop_last() == all.take(i as int));
        assert(next.last() == names@[i as int]@);
        let name = chars_of(names[i].as_str());
        if starts_with(&name, &wanted) {
            let ghost before = texts(found@);
            found.push(name);
            assert(texts(found@) == before.push(name@));
        }
        i += 1;
    }
    assert(all.take(n as int) == all);
    if found.len() == 1 {
        assert(texts(found@)[0] == found@[0]@);
        let rest = copy_range(&found[0], wanted.len(), found[0].len());
        assert(rest@ == found@[0]@.skip(prefix@.len() as int));
        Some(string_of(&rest))
    } else {
        None
    }
}

impl SecureBuffer {
    /// The last word of the line, where it has one.
    pub fn last_word(&self) -> (r: Option<String>)
        ensures
            match r {
                Some(w) => last_word(self@.content) == Some(w@),
                None => last_word(self@.content) is None,
            },
    {
        let mut line = self.content_chars();
        let mut parts = split_words(&line);
        erase_chars(&mut line);
        let word = if parts.len() > 0 {
            let last = &parts[parts.len() - 1];
            assert(texts(parts@).last() == last@);
            Some(string_of(last))
        } else {
            None
        };
        erase_entries(&mut parts);
        word
    }

    /// Inserts the characters of `text` at the cursor.
    pub fn insert_text(&mut self, text: &str)
        requires
            old(self)@.wf(),
        ensures
            final(self)@ == old(self)@.insert_text(text@),
            final(self)@.wf(),
    {
        let chars = chars_of(text);
        let n = chars.len();
        let mut i: usize = 0;
        assert(chars@.take(0) == Seq::<char>::empty());
        proof {
            lemma_insert_text_by_character(old(self)@, Seq::empty(), ' ');
        }
        while i < n
            invariant
                i <= n,
                n == chars@.len(),
                chars@ == text@,
                old(self)@.wf(),
                self@.wf(),
                self@ == old(self)@.insert_text(chars@.take(i as int)),
            decreases n - i,
        {
            proof {
                lemma_insert_text_by_character(old(self)@, chars@.take(i as int), chars@[i as int]);
                assert(chars@.take(i + 1) == chars@.take(i as int).push(chars@[i as int]));
            }
            self.insert(chars[i]);
            i += 1;
        }
        assert(chars@.take(n as int) == chars@);
    }

    /// Completes the line from the names of a directory: where exactly one
    /// of `names` begins with `prefix`, its rest is inserted at the cursor;
    /// otherwise nothing changes.
    pub fn autocomplete(&mut self, prefix: &str, names: &Vec<String>)
        requires
            old(self)@.wf(),
        ensures
            final(self)@ == old(self)@.autocomplete(prefix@, string_views(names@)),
            final(self)@.wf(),
    {
        match complete(prefix, names) {
            Some(rest) => {
                self.insert_text(rest.as_str());
            },
            None => {},
        }
    }
}

} // verus!
