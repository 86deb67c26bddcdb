use vstd::prelude::*;

use crate::text::{char_is_whitespace, chars_of, string_from_chars, white_space};

verus! {

/// Editing operations on a text input buffer.
#[derive(Clone, Copy, Debug, PartialEq, Eq)]
pub enum InputAction {
    /// Removes the character before the cursor.
    DeleteLeft,
    /// Removes the character at the cursor.
    DeleteRight,
    /// Removes the word before the cursor.
    DeleteWordLeft,
    /// Removes the word after the cursor.
    DeleteWordRight,
    /// Moves the cursor one character to the left.
    MoveLeft,
    /// Moves the cursor one character to the right.
    MoveRight,
    /// Moves the cursor to the start of the previous word.
    MoveWordLeft,
    /// Moves the cursor to the end of the next word.
    MoveWordRight,
    /// Moves the cursor to the start of the text.
    MoveToStart,
    /// Moves the cursor to the end of the text.
    MoveToEnd,
    /// Inserts a character at the cursor.
    Insert(char),
}

/// Abstract state of an input buffer: its characters and the cursor,
/// counted in characters.
pub struct Buffer {
    pub text: Seq<char>,
    pub cursor: int,
}

impl Buffer {
    pub open spec fn wf(self) -> bool {
        0 <= self.cursor <= self.text.len()
    }
}

/// Position reached from `i` going left over characters whose
/// whitespace-ness is `ws`.
pub open spec fn skip_left(t: Seq<char>, i: int, ws: bool) -> int
    decreases i,
{
    if i > 0 && i <= t.len() && white_space(t[i - 1]) == ws {
        skip_left(t, i - 1, ws)
    } else {
        i
    }
}

/// Position reached from `i` going right over characters whose
/// whitespace-ness is `ws`.
pub open spec fn skip_right(t: Seq<char>, i: int, ws: bool) -> int
    decreases t.len() - i,
{
    if 0 <= i < t.len() && white_space(t[i]) == ws {
        skip_right(t, i + 1, ws)
    } else {
        i
    }
}

/// Start of the word before position `i`: spaces first, then the word.
pub open spec fn word_left(t: Seq<char>, i: int) -> int {
    skip_left(t, skip_left(t, i, true), false)
}

/// End of the word after position `i`: spaces first, then the word.
pub open spec fn word_right(t: Seq<char>, i: int) -> int {
    skip_right(t, skip_right(t, i, true), false)
}

/// The text with the characters of `[a, b)` removed.
pub open spec fn cut(t: Seq<char>, a: int, b: int) -> Seq<char> {
    t.subrange(0, a) + t.subrange(b, t.len() as int)
}

/// The effect of one editing action on a buffer.
pub open spec fn apply_action(b: Buffer, a: InputAction) -> Buffer {
    match a {
        InputAction::DeleteLeft => if b.cursor == 0 {
            b
        } else {
            Buffer { text: b.text.remove(b.cursor - 1), cursor: b.cursor - 1 }
        },
        InputAction::DeleteRight => if b.cursor == b.text.len() {
            b
        } else {
            Buffer { text: b.text.remove(b.cursor), cursor: b.cursor }
        },
        InputAction::DeleteWordLeft => {
            let w = word_left(b.text, b.cursor);
            Buffer { text: cut(b.text, w, b.cursor), cursor: w }
        },
        InputAction::DeleteWordRight => Buffer {
            text: cut(b.text, b.cursor, word_right(b.text, b.cursor)),
            cursor: b.cursor,
        },
        InputAction::MoveLeft => if b.cursor == 0 {
            b
        } else {
            Buffer { cursor: b.cursor - 1, ..b }
        },
        InputAction::MoveRight => if b.cursor == b.text.len() {
            b
        } else {
            Buffer { cursor: b.cursor + 1, ..b }
        },
        InputAction::MoveWordLeft => Buffer { cursor: word_left(b.text, b.cursor), ..b },
        InputAction::MoveWordRight => Buffer { cursor: word_right(b.text, b.cursor), ..b },
        InputAction::MoveToStart => Buffer { cursor: 0, ..b },
        InputAction::MoveToEnd => Buffer { cursor: b.text.len() as int, ..b },
        InputAction::Insert(c) => Buffer {
            text: b.text.insert(b.cursor, c),
            cursor: b.cursor + 1,
        },
    }
}

/// The effect of a sequence of editing actions, applied in order.
pub open spec fn apply_actions(b: Buffer, acts: Seq<InputAction>) -> Buffer
    decreases acts.len(),
{
    if acts.len() == 0 {
        b
    } else {
        apply_actions(apply_action(b, acts[0]), acts.drop_first())
    }
}

pub proof fn lemma_skip_left_bounds(t: Seq<char>, i: int, ws: bool)
    requires
        0 <= i <= t.len(),
    ensures
        0 <= skip_left(t, i, ws) <= i,
    decreases i,
{
    if i > 0 && white_space(t[i - 1]) == ws {
        lemma_skip_left_bounds(t, i - 1, ws);
    }
}

pub proof fn lemma_skip_right_bounds(t: Seq<char>, i: int, ws: bool)
    requires
        0 <= i <= t.len(),
    ensures
        i <= skip_right(t, i, ws) <= t.len(),
    decreases t.len() - i,
{
    if i < t.len() && white_space(t[i]) == ws {
        lemma_skip_right_bounds(t, i + 1, ws);
    }
}

pub proof fn lemma_word_bounds(t: Seq<char>, i: int)
    requires
        0 <= i <= t.len(),
    ensures
        0 <= word_left(t, i) <= i,
        i <= word_right(t, i) <= t.len(),
{
    lemma_skip_left_bounds(t, i, true);
    lemma_skip_left_bounds(t, skip_left(t, i, true), false);
    lemma_skip_right_bounds(t, i, true);
    lemma_skip_right_bounds(t, skip_right(t, i, true), false);
}

/// Every editing action keeps the cursor within the text.
pub proof fn lemma_action_keeps_cursor(b: Buffer, a: InputAction)
    requires
        b.wf(),
    ensures
        apply_action(b, a).wf(),
{
    lemma_word_bounds(b.text, b.cursor);
}

/// Whatever sequence of insertions, deletions and moves is applied to a
/// buffer, its cursor stays between 0 and the length of its text after
/// every step.
pub proof fn lemma_cursor_stays_in_bounds(b: Buffer, acts: Seq<InputAction>)
    requires
        b.wf(),
    ensures
        forall|k: int| 0 <= k <= acts.len() ==> #[trigger] apply_actions(b, acts.take(k)).wf(),
    decreases acts.len(),
{
    if acts.len() > 0 {
        lemma_action_keeps_cursor(b, acts[0]);
        let nb = apply_action(b, acts[0]);
        lemma_cursor_stays_in_bounds(nb, acts.drop_first());
        assert forall|k: int| 0 <= k <= acts.len() implies #[trigger] apply_actions(
            b,
            acts.take(k),
        ).wf() by {
            if k > 0 {
                assert(acts.take(k).drop_first() =~= acts.drop_first().take(k - 1));
                assert(apply_actions(b, acts.take(k)) == apply_actions(
                    nb,
                    acts.drop_first().take(k - 1),
                ));
            } else {
                assert(acts.take(k) =~= Seq::<InputAction>::empty());
            }
        }
    } else {
        assert forall|k: int| 0 <= k <= acts.len() implies #[trigger] apply_actions(
            b,
            acts.take(k),
        ).wf() by {
            assert(acts.take(k) =~= Seq::<InputAction>::empty());
        }
    }
}

/// A text input buffer with a cursor counted in characters.
pub struct Input {
    content: Vec<char>,
    cursor: usize,
}

impl View for Input {
    type V = Buffer;

    closed spec fn view(&self) -> Buffer {
        Buffer { text: self.content@, cursor: self.cursor as int }
    }
}

impl Input {
    /// The cursor lies within the text.
    pub open spec fn wf(&self) -> bool {
        self@.wf()
    }

    /// An empty input.
    pub fn new() -> (r: Self)
        ensures
            r.wf(),
            r@.text == Seq::<char>::empty(),
            r@.cursor == 0,
    {
        Input { content: Vec::new(), cursor: 0 }
    }

    /// An input holding `content`, with the cursor at its end.
    pub fn new_with(content: &str) -> (r: Self)
        ensures
            r.wf(),
            r@.text == content@,
            r@.cursor == content@.len(),
    {
        let chars = chars_of(content);
        let n = chars.len();
        Input { content: chars, cursor: n }
    }

    /// The same input with the cursor moved to `cursor`, clamped to the text.
    pub fn with_cursor(self, cursor: usize) -> (r: Self)
        requires
            self.wf(),
        ensures
            r.wf(),
            r@.text == self@.text,
            r@.cursor == if cursor <= self@.text.len() { cursor as int } else { self@.text.len() as int },
    {
        let n = self.content.len();
        let c = if cursor <= n { cursor } else { n };
        Input { content: self.content, cursor: c }
    }

    /// The text of the input.
    pub fn content(&self) -> (r: String)
        requires
            self.wf(),
        ensures
            r@ == self@.text,
    {
        string_from_chars(self.content.as_slice())
    }

    /// The cursor position, in characters.
    pub fn cursor(&self) -> (r: usize)
        requires
            self.wf(),
        ensures
            r == self@.cursor,
            r <= self@.text.len(),
    {
        self.cursor
    }

    /// The number of characters in the input.
    pub fn length(&self) -> (r: usize)
        requires
            self.wf(),
        ensures
            r == self@.text.len(),
    {
        self.content.len()
    }

    pub fn is_empty(&self) -> (r: bool)
        requires
            self.wf(),
        ensures
            r == (self@.text.len() == 0),
    {
        self.content.len() == 0
    }

    /// Removes every character.
    pub fn clear(&mut self)
        requires
            old(self).wf(),
        ensures
            final(self).wf(),
            final(self)@.text == Seq::<char>::empty(),
            final(self)@.cursor == 0,
    {
        self.cursor = 0;
        self.content.clear();
    }

    /// Inserts `c` at the cursor and moves the cursor past it.
    pub fn insert(&mut self, c: char)
        requires
            old(self).wf(),
            old(self)@.text.len() < usize::MAX,
        ensures
            final(self).wf(),
            final(self)@ == apply_action(old(self)@, InputAction::Insert(c)),
    {
        let i = self.cursor;
        self.content.insert(i, c);
        self.cursor = i + 1;
    }

    /// Removes the character before the cursor; nothing at the start.
    pub fn delete_left(&mut self)
        requires
            old(self).wf(),
        ensures
            final(self).wf(),
            final(self)@ == apply_action(old(self)@, InputAction::DeleteLeft),
            old(self)@.cursor == 0 ==> final(self)@ == old(self)@,
    {
        if self.cursor > 0 {
            self.cursor = self.cursor - 1;
            let i = self.cursor;
            self.content.remove(i);
        }
    }

    /// Removes the character at the cursor; nothing at the end.
    pub fn delete_right(&mut self)
        requires
            old(self).wf(),
        ensures
            final(self).wf(),
            final(self)@ == apply_action(old(self)@, InputAction::DeleteRight),
            old(self)@.cursor == old(self)@.text.len() ==> final(self)@ == old(self)@,
    {
        if self.cursor < self.content.len() {
            let i = self.cursor;
            self.content.remove(i);
        }
    }

    pub fn move_left(&mut self)
        requires
            old(self).wf(),
        ensures
            final(self).wf(),
            final(self)@ == apply_action(old(self)@, InputAction::MoveLeft),
    {
        if self.cursor > 0 {
            self.cursor = self.cursor - 1;
        }
    }

    pub fn move_right(&mut self)
        requires
            old(self).wf(),
        ensures
            final(self).wf(),
            final(self)@ == apply_action(old(self)@, InputAction::MoveRight),
    {
        if self.cursor < self.content.len() {
            self.cursor = self.cursor + 1;
        }
    }

    pub fn move_to_start(&mut self)
        requires
            old(self).wf(),
        ensures
            final(self).wf(),
            final(self)@ == apply_action(old(self)@, InputAction::MoveToStart),
    {
        self.cursor = 0;
    }

    pub fn move_to_end(&mut self)
        requires
            old(self).wf(),
        ensures
            final(self).wf(),
            final(self)@ == apply_action(old(self)@, InputAction::MoveToEnd),
    {
        self.cursor = self.content.len();
    }

    /// Position reached going left from the cursor over characters whose
    /// whitespace-ness is `ws`.
    fn skip_left_from(&self, start: usize, ws: bool) -> (r: usize)
        requires
            self.wf(),
            start <= self@.text.len(),
        ensures
            r == skip_left(self@.text, start as int, ws),
    {
        let mut i = start;
        while i > 0 && char_is_whitespace(self.content[i - 1]) == ws
            invariant
                i <= start <= self.content@.len(),
                skip_left(self.content@, i as int, ws) == skip_left(self.content@, start as int, ws),
            decreases i,
        {
            i = i - 1;
        }
        i
    }

    /// Position reached going right from `start` over characters whose
    /// whitespace-ness is `ws`.
    fn skip_right_from(&self, start: usize, ws: bool) -> (r: usize)
        requires
            self.wf(),
            start <= self@.text.len(),
        ensures
            r == skip_right(self@.text, start as int, ws),
    {
        let mut i = start;
        let n = self.content.len();
        while i < n && char_is_whitespace(self.content[i]) == ws
            invariant
                start <= i <= n,
                n == self.content@.len(),
                skip_right(self.content@, i as int, ws) == skip_right(self.content@, start as int, ws),
            decreases n - i,
        {
            i = i + 1;
        }
        i
    }

    fn word_left_pos(&self) -> (r: usize)
        requires
            self.wf(),
        ensures
            r == word_left(self@.text, self@.cursor),
    {
        proof { lemma_skip_left_bounds(self@.text, self@.cursor, true); }
        let s = self.skip_left_from(self.cursor, true);
        self.skip_left_from(s, false)
    }

    fn word_right_pos(&self) -> (r: usize)
        requires
            self.wf(),
        ensures
            r == word_right(self@.text, self@.cursor),
    {
        proof { lemma_skip_right_bounds(self@.text, self@.cursor, true); }
        let s = self.skip_right_from(self.cursor, true);
        self.skip_right_from(s, false)
    }

    pub fn move_word_left(&mut self)
        requires
            old(self).wf(),
        ensures
            final(self).wf(),
            final(self)@ == apply_action(old(self)@, InputAction::MoveWordLeft),
    {
        proof { lemma_word_bounds(self@.text, self@.cursor); }
        self.cursor = self.word_left_pos();
    }

    pub fn move_word_right(&mut self)
        requires
            old(self).wf(),
        ensures
            final(self).wf(),
            final(self)@ == apply_action(old(self)@, InputAction::MoveWordRight),
    {
        proof { lemma_word_bounds(self@.text, self@.cursor); }
        self.cursor = self.word_right_pos();
    }

    /// Removes the characters in `[a, b)`.
    fn remove_range(&mut self, a: usize, b: usize)
        requires
            old(self).wf(),
            a == old(self)@.cursor,
            a <= b <= old(self)@.text.len(),
        ensures
            final(self).wf(),
            final(self)@.text == cut(old(self)@.text, a as int, b as int),
            final(self)@.cursor == old(self)@.cursor,
    {
        let mut out: Vec<char> = Vec::new();
        let n = self.content.len();
        let mut i: usize = 0;
        while i < n
            invariant
                n == self.content@.len(),
                a <= b <= n,
                i <= n,
                out@ == cut(self.content@, a as int, b as int).subrange(
                    0,
                    if i <= a { i as int } else if i <= b { a as int } else { i - (b - a) },
                ),
            decreases n - i,
        {
            if i < a || i >= b {
                out.push(self.content[i]);
            }
            proof {
                let c = cut(self.content@, a as int, b as int);
                let k = if i + 1 <= a { i + 1 } else if i + 1 <= b { a as int } else { i + 1 - (b - a) };
                assert(out@ =~= c.subrange(0, k));
            }
            i = i + 1;
        }
        proof {
            let c = cut(self.content@, a as int, b as int);
            assert(out@ =~= c);
            assert(c.len() == n - (b - a));
        }
        self.content = out;
    }

    pub fn delete_word_left(&mut self)
        requires
            old(self).wf(),
        ensures
            final(self).wf(),
            final(self)@ == apply_action(old(self)@, InputAction::DeleteWordLeft),
    {
        proof { lemma_word_bounds(self@.text, self@.cursor); }
        let w = self.word_left_pos();
        let c = self.cursor;
        self.cursor = w;
        self.remove_range(w, c);
    }

    pub fn delete_word_right(&mut self)
        requires
            old(self).wf(),
        ensures
            final(self).wf(),
            final(self)@ == apply_action(old(self)@, InputAction::DeleteWordRight),
    {
        proof { lemma_word_bounds(self@.text, self@.cursor); }
        let w = self.word_right_pos();
        let c = self.cursor;
        self.remove_range(c, w);
    }

    /// Applies `action`; returns whether the text changed.
    pub fn handle(&mut self, action: InputAction) -> (changed: bool)
        requires
            old(self).wf(),
            action is Insert ==> old(self)@.text.len() < usize::MAX,
        ensures
            final(self).wf(),
            final(self)@ == apply_action(old(self)@, action),
            changed == (final(self)@.text != old(self)@.text),
    {
        let ghost t0 = self@.text;
        let ghost c0 = self@.cursor;
        let before = self.content.len();
        match action {
            InputAction::DeleteLeft => {
                self.delete_left();
                proof {
                    lemma_word_bounds(t0, c0);
                    if self.content@.len() == before {
                        assert(self@.text =~= t0);
                    }
                }
                self.content.len() != before
            },
            InputAction::DeleteRight => {
                self.delete_right();
                proof {
                    lemma_word_bounds(t0, c0);
                    if self.content@.len() == before {
                        assert(self@.text =~= t0);
                    }
                }
                self.content.len() != before
            },
            InputAction::DeleteWordLeft => {
                self.delete_word_left();
                proof {
                    lemma_word_bounds(t0, c0);
                    if self.content@.len() == before {
                        assert(self@.text =~= t0);
                    }
                }
                self.content.len() != before
            },
            InputAction::DeleteWordRight => {
                self.delete_word_right();
                proof {
                    lemma_word_bounds(t0, c0);
                    if self.content@.len() == before {
                        assert(self@.text =~= t0);
                    }
                }
                self.content.len() != before
            },
            InputAction::MoveLeft => {
                self.move_left();
                false
            },
            InputAction::MoveRight => {
                self.move_right();
                false
            },
            InputAction::MoveWordLeft => {
                self.move_word_left();
                false
            },
            InputAction::MoveWordRight => {
                self.move_word_right();
                false
            },
            InputAction::MoveToStart => {
                self.move_to_start();
                false
            },
            InputAction::MoveToEnd => {
                self.move_to_end();
                false
            },
            InputAction::Insert(c) => {
                self.insert(c);
                true
            },
        }
    }

    /// The text before the cursor, the character at the cursor (a space
    /// when the cursor is at the end) and the text after it.
    pub fn split(&self) -> (r: (String, String, String))
        requires
            self.wf(),
        ensures
            r.0@ == self@.text.subrange(0, self@.cursor),
            r.1@ == if self@.cursor < self@.text.len() {
                seq![self@.text[self@.cursor]]
            } else {
                seq![' ']
            },
            r.2@ == if self@.cursor < self@.text.len() {
                self@.text.subrange(self@.cursor + 1, self@.text.len() as int)
            } else {
                Seq::<char>::empty()
            },
    {
        let n = self.content.len();
        let c = self.cursor;
        let before = string_from_chars(&self.content.as_slice()[0..c]);
        if c < n {
            let at = string_from_chars(&self.content.as_slice()[c..c + 1]);
            let after = string_from_chars(&self.content.as_slice()[c + 1..n]);
            (before, at, after)
        } else {
            let space = vec![' '];
            let at = string_from_chars(space.as_slice());
            let empty: Vec<char> = Vec::new();
            let after = string_from_chars(empty.as_slice());
            (before, at, after)
        }
    }
}

} // verus!
