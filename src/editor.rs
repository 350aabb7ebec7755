use vstd::prelude::*;
use crate::keys::{Key, KeyCode};

verus! {

/// What a key means to the line editor once it has been applied.
#[derive(Clone, Copy, Debug, PartialEq, Eq, Structural)]
pub enum EditResult {
    /// Commit the text.
    Enter,
    /// Discard the text.
    Esc,
    /// Keep editing.
    Continue,
}

/// A line of text being typed, with a cursor counted in characters.
pub struct EditBuffer {
    pub text: Vec<char>,
    pub cursor: usize,
}

/// The whitespace of `u8::is_ascii_whitespace`: space, tab, line feed, form
/// feed and carriage return.
pub open spec fn is_ws(c: char) -> bool {
    c == ' ' || c == '\t' || c == '\n' || c == '\x0C' || c == '\r'
}

/// Moving left from `k` over whitespace.
pub open spec fn skip_ws_back(t: Seq<char>, k: int) -> int
    decreases k,
{
    if 0 < k <= t.len() && is_ws(t[k - 1]) {
        skip_ws_back(t, k - 1)
    } else {
        k
    }
}

/// Moving left from `k` over non-whitespace.
pub open spec fn skip_word_back(t: Seq<char>, k: int) -> int
    decreases k,
{
    if 0 < k <= t.len() && !is_ws(t[k - 1]) {
        skip_word_back(t, k - 1)
    } else {
        k
    }
}

/// Moving right from `k` over non-whitespace.
pub open spec fn skip_word_fwd(t: Seq<char>, k: int) -> int
    decreases t.len() - k,
{
    if 0 <= k < t.len() && !is_ws(t[k]) {
        skip_word_fwd(t, k + 1)
    } else {
        k
    }
}

/// Moving right from `k` over whitespace.
pub open spec fn skip_ws_fwd(t: Seq<char>, k: int) -> int
    decreases t.len() - k,
{
    if 0 <= k < t.len() && is_ws(t[k]) {
        skip_ws_fwd(t, k + 1)
    } else {
        k
    }
}

/// Start of the word before the cursor: past the whitespace just before it,
/// then past the word before that.
pub open spec fn word_left(t: Seq<char>, c: int) -> int {
    skip_word_back(t, skip_ws_back(t, c))
}

/// Start of the next word: past the rest of the current word, then past the
/// whitespace after it.
pub open spec fn word_right(t: Seq<char>, c: int) -> int {
    skip_ws_fwd(t, skip_word_fwd(t, c))
}

/// What the editor reports for a key.
pub open spec fn edit_result(k: Key) -> EditResult {
    match k.code {
        KeyCode::Enter => EditResult::Enter,
        KeyCode::Esc => EditResult::Esc,
        _ => EditResult::Continue,
    }
}

/// The text after a key: a character is inserted at the cursor, Backspace
/// removes the character before it; other keys leave the text alone.
pub open spec fn edited_text(t: Seq<char>, c: int, k: Key) -> Seq<char> {
    match k.code {
        KeyCode::Char(ch) => t.insert(c, ch),
        KeyCode::Backspace => if c > 0 { t.remove(c - 1) } else { t },
        _ => t,
    }
}

/// The cursor after a key.
pub open spec fn edited_cursor(t: Seq<char>, c: int, k: Key) -> int {
    match k.code {
        KeyCode::Char(_) => c + 1,
        KeyCode::Backspace => if c > 0 { c - 1 } else { c },
        KeyCode::Left => if k.ctrl { word_left(t, c) } else if c > 0 { c - 1 } else { c },
        KeyCode::Right => if k.ctrl { word_right(t, c) } else if c < t.len() { c + 1 } else { c },
        _ => c,
    }
}

pub proof fn lemma_skip_back_bounds(t: Seq<char>, k: int)
    requires
        0 <= k <= t.len(),
    ensures
        0 <= skip_ws_back(t, k) <= k,
        0 <= skip_word_back(t, k) <= k,
    decreases k,
{
    if k > 0 {
        lemma_skip_back_bounds(t, k - 1);
    }
}

pub proof fn lemma_skip_fwd_bounds(t: Seq<char>, k: int)
    requires
        0 <= k <= t.len(),
    ensures
        k <= skip_ws_fwd(t, k) <= t.len(),
        k <= skip_word_fwd(t, k) <= t.len(),
    decreases t.len() - k,
{
    if k < t.len() {
        lemma_skip_fwd_bounds(t, k + 1);
    }
}

/// Both word jumps stay within the text.
pub proof fn lemma_word_jumps_in_range(t: Seq<char>, c: int)
    requires
        0 <= c <= t.len(),
    ensures
        0 <= word_left(t, c) <= c,
        c <= word_right(t, c) <= t.len(),
{
    lemma_skip_back_bounds(t, c);
    lemma_skip_back_bounds(t, skip_ws_back(t, c));
    lemma_skip_fwd_bounds(t, c);
    lemma_skip_fwd_bounds(t, skip_word_fwd(t, c));
}

/// Editing keeps the cursor within the text.
pub proof fn lemma_edit_in_range(t: Seq<char>, c: int, k: Key)
    requires
        0 <= c <= t.len(),
    ensures
        0 <= edited_cursor(t, c, k) <= edited_text(t, c, k).len(),
{
    lemma_word_jumps_in_range(t, c);
}

pub fn is_ws_char(c: char) -> (r: bool)
    ensures
        r == is_ws(c),
{
    c == ' ' || c == '\t' || c == '\n' || c == '\x0C' || c == '\r'
}

impl EditBuffer {
    pub open spec fn wf(&self) -> bool {
        self.cursor <= self.text.len()
    }

    /// An empty buffer.
    pub fn new() -> (r: EditBuffer)
        ensures
            r.text@ == Seq::<char>::empty(),
            r.cursor == 0,
    {
        EditBuffer { text: Vec::new(), cursor: 0 }
    }

    /// A buffer holding `text`, with the cursor at its end.
    pub fn with_text(text: Vec<char>) -> (r: EditBuffer)
        ensures
            r.text@ == text@,
            r.cursor == text.len(),
    {
        let cursor = text.len();
        EditBuffer { text, cursor }
    }

    /// Empties the buffer and puts the cursor at 0.
    pub fn clear(&mut self)
        ensures
            final(self).text@ == Seq::<char>::empty(),
            final(self).cursor == 0,
    {
        self.text.clear();
        self.cursor = 0;
    }

    /// Start of the word before the cursor.
    pub fn word_left_pos(&self) -> (r: usize)
        requires
            self.wf(),
        ensures
            r == word_left(self.text@, self.cursor as int),
    {
        let ghost t = self.text@;
        let ghost c = self.cursor as int;
        let mut pos: usize = self.cursor;
        while pos > 0 && is_ws_char(self.text[pos - 1])
            invariant
                pos <= c <= t.len(),
                t == self.text@,
                skip_ws_back(t, pos as int) == skip_ws_back(t, c),
            decreases pos,
        {
            pos = pos - 1;
        }
        while pos > 0 && !is_ws_char(self.text[pos - 1])
            invariant
                pos <= c <= t.len(),
                t == self.text@,
                skip_word_back(t, pos as int) == word_left(t, c),
            decreases pos,
        {
            pos = pos - 1;
        }
        pos
    }

    /// Start of the next word after the cursor.
    pub fn word_right_pos(&self) -> (r: usize)
        requires
            self.wf(),
        ensures
            r == word_right(self.text@, self.cursor as int),
    {
        let ghost t = self.text@;
        let ghost c = self.cursor as int;
        let len = self.text.len();
        let mut pos: usize = self.cursor;
        while pos < len && !is_ws_char(self.text[pos])
            invariant
                c <= pos <= len,
                len == t.len(),
                t == self.text@,
                skip_word_fwd(t, pos as int) == skip_word_fwd(t, c),
            decreases len - pos,
        {
            pos = pos + 1;
        }
        while pos < len && is_ws_char(self.text[pos])
            invariant
                c <= pos <= len,
                len == t.len(),
                t == self.text@,
                skip_ws_fwd(t, pos as int) == word_right(t, c),
            decreases len - pos,
        {
            pos = pos + 1;
        }
        pos
    }

    /// Applies one key to the buffer: typing, deletion and cursor motion.
    /// Enter and Esc leave the buffer as it is and are reported to the caller.
    pub fn edit(&mut self, key: Key) -> (r: EditResult)
        requires
            old(self).wf(),
        ensures
            final(self).wf(),
            r == edit_result(key),
            final(self).text@ == edited_text(old(self).text@, old(self).cursor as int, key),
            final(self).cursor == edited_cursor(old(self).text@, old(self).cursor as int, key),
    {
        match key.code {
            KeyCode::Enter => EditResult::Enter,
            KeyCode::Esc => EditResult::Esc,
            KeyCode::Char(c) => {
                self.text.insert(self.cursor, c);
                assert(self.cursor < self.text.len());
                self.cursor = self.cursor + 1;
                EditResult::Continue
            },
            KeyCode::Backspace => {
                if self.cursor > 0 {
                    self.cursor = self.cursor - 1;
                    self.text.remove(self.cursor);
                }
                EditResult::Continue
            },
            KeyCode::Left => {
                proof {
                    lemma_word_jumps_in_range(self.text@, self.cursor as int);
                }
                if key.ctrl {
                    self.cursor = self.word_left_pos();
                } else if self.cursor > 0 {
                    self.cursor = self.cursor - 1;
                }
                EditResult::Continue
            },
            KeyCode::Right => {
                proof {
                    lemma_word_jumps_in_range(self.text@, self.cursor as int);
                }
                if key.ctrl {
                    self.cursor = self.word_right_pos();
                } else if self.cursor < self.text.len() {
                    self.cursor = self.cursor + 1;
                }
                EditResult::Continue
            },
            _ => EditResult::Continue,
        }
    }
}

} // verus!
