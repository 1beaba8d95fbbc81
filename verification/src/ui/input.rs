//! A single-line text editor whose cursor counts characters, not bytes.
use vstd::prelude::*;

use crate::text::{chars_of, string_from_chars};

verus! {

/// Abstract state of a [`TextInput`]: the text and the cursor, counted in
/// characters from the start of the text.
pub struct InputView {
    pub text: Seq<char>,
    pub cursor: nat,
}

impl InputView {
    /// The cursor stands on a character of the text or just after its end.
    pub open spec fn wf(self) -> bool {
        self.cursor <= self.text.len()
    }

    pub open spec fn inserted(self, c: char) -> InputView {
        InputView { text: self.text.insert(self.cursor as int, c), cursor: self.cursor + 1 }
    }

    pub open spec fn deleted_before(self) -> InputView {
        if self.cursor == 0 {
            self
        } else {
            InputView {
                text: self.text.remove(self.cursor - 1),
                cursor: (self.cursor - 1) as nat,
            }
        }
    }

    pub open spec fn deleted_after(self) -> InputView {
        if self.cursor >= self.text.len() {
            self
        } else {
            InputView { text: self.text.remove(self.cursor as int), cursor: self.cursor }
        }
    }

    pub open spec fn moved_left(self) -> InputView {
        if self.cursor > 0 {
            InputView { text: self.text, cursor: (self.cursor - 1) as nat }
        } else {
            self
        }
    }

    pub open spec fn moved_right(self) -> InputView {
        if self.cursor < self.text.len() {
            InputView { text: self.text, cursor: self.cursor + 1 }
        } else {
            self
        }
    }

    pub open spec fn moved_start(self) -> InputView {
        InputView { text: self.text, cursor: 0 }
    }

    pub open spec fn moved_end(self) -> InputView {
        InputView { text: self.text, cursor: self.text.len() }
    }

    /// Column `col` of the input widget, after the two-column `"> "` prompt,
    /// clamped to the end of the text.
    pub open spec fn clicked(self, col: u16) -> InputView {
        let text_col: nat = if col >= 2 { (col - 2) as nat } else { 0 };
        InputView {
            text: self.text,
            cursor: if text_col <= self.text.len() { text_col } else { self.text.len() },
        }
    }

    pub open spec fn empty() -> InputView {
        InputView { text: Seq::empty(), cursor: 0 }
    }
}

/// The text typed in the input box and the cursor position in characters, so
/// that multi-byte characters are edited as one.
pub struct TextInput {
    buf: String,
    cursor: usize,
}

impl View for TextInput {
    type V = InputView;

    closed spec fn view(&self) -> InputView {
        InputView { text: self.buf@, cursor: self.cursor as nat }
    }
}

impl TextInput {
    #[verifier::type_invariant]
    spec fn cursor_in_text(self) -> bool {
        self.cursor <= self.buf@.len()
    }

    /// An empty input with the cursor at the start.
    pub fn new() -> (res: Self)
        ensures
            res@ == InputView::empty(),
    {
        TextInput { buf: String::new(), cursor: 0 }
    }

    /// The text currently in the input box.
    pub fn as_str(&self) -> (res: &str)
        ensures
            res@ == self@.text,
    {
        self.buf.as_str()
    }

    /// Cursor position in characters from the start of the text.
    pub fn cursor(&self) -> (res: usize)
        ensures
            res == self@.cursor,
            res <= self@.text.len(),
    {
        proof {
            use_type_invariant(self);
        }
        self.cursor
    }

    /// Inserts `c` at the cursor and moves the cursor past it.
    pub fn insert(&mut self, c: char)
        ensures
            final(self)@ == old(self)@.inserted(c),
            final(self)@.wf(),
    {
        proof {
            use_type_invariant(&*self);
        }
        let mut chars = chars_of(self.buf.as_str());
        chars.insert(self.cursor, c);
        let n = chars.len();
        let buf = string_from_chars(chars.as_slice());
        self.buf = buf;
        self.cursor = self.cursor + 1;
        assert(n == self.buf@.len());
    }

    /// Deletes the character before the cursor (Backspace).
    pub fn delete_before(&mut self)
        ensures
            final(self)@ == old(self)@.deleted_before(),
            final(self)@.wf(),
    {
        proof {
            use_type_invariant(&*self);
        }
        if self.cursor == 0 {
            return ;
        }
        self.cursor = self.cursor - 1;
        let mut chars = chars_of(self.buf.as_str());
        chars.remove(self.cursor);
        self.buf = string_from_chars(chars.as_slice());
    }

    /// Deletes the character at the cursor (Delete).
    pub fn delete_after(&mut self)
        ensures
            final(self)@ == old(self)@.deleted_after(),
            final(self)@.wf(),
    {
        proof {
            use_type_invariant(&*self);
        }
        let mut chars = chars_of(self.buf.as_str());
        let len = chars.len();
        if self.cursor >= len {
            return ;
        }
        chars.remove(self.cursor);
        self.buf = string_from_chars(chars.as_slice());
    }

    pub fn move_left(&mut self)
        ensures
            final(self)@ == old(self)@.moved_left(),
            final(self)@.wf(),
    {
        proof {
            use_type_invariant(&*self);
        }
        if self.cursor > 0 {
            self.cursor = self.cursor - 1;
        }
    }

    pub fn move_right(&mut self)
        ensures
            final(self)@ == old(self)@.moved_right(),
            final(self)@.wf(),
    {
        proof {
            use_type_invariant(&*self);
        }
        let len = self.buf.as_str().unicode_len();
        if self.cursor < len {
            self.cursor = self.cursor + 1;
        }
    }

    pub fn move_start(&mut self)
        ensures
            final(self)@ == old(self)@.moved_start(),
            final(self)@.wf(),
    {
        self.cursor = 0;
    }

    pub fn move_end(&mut self)
        ensures
            final(self)@ == old(self)@.moved_end(),
            final(self)@.wf(),
    {
        self.cursor = self.buf.as_str().unicode_len();
    }

    /// Places the cursor at column `col` of the input widget; columns 0 and 1
    /// hold the `"> "` prompt.
    pub fn set_cursor_from_click(&mut self, col: u16)
        ensures
            final(self)@ == old(self)@.clicked(col),
            final(self)@.wf(),
    {
        let text_col: usize = if col >= 2 { (col - 2) as usize } else { 0 };
        let len = self.buf.as_str().unicode_len();
        self.cursor = if text_col <= len { text_col } else { len };
    }

    /// Returns the text and resets the input to empty.
    pub fn take(&mut self) -> (res: String)
        ensures
            res@ == old(self)@.text,
            final(self)@ == InputView::empty(),
    {
        self.cursor = 0;
        let mut res = String::new();
        std::mem::swap(&mut res, &mut self.buf);
        res
    }
}

impl Default for TextInput {
    fn default() -> (res: Self)
        ensures
            res@ == InputView::empty(),
    {
        Self::new()
    }
}

/// The input after typing the characters `cs` one by one.
pub open spec fn typed(start: InputView, cs: Seq<char>) -> InputView
    decreases cs.len(),
{
    if cs.len() == 0 {
        start
    } else {
        typed(start, cs.drop_last()).inserted(cs.last())
    }
}

/// Typing into an empty input gives back exactly what was typed, with the
/// cursor after it.
pub proof fn lemma_typing_gives_text(cs: Seq<char>)
    ensures
        typed(InputView::empty(), cs) == (InputView { text: cs, cursor: cs.len() }),
    decreases cs.len(),
{
    if cs.len() > 0 {
        lemma_typing_gives_text(cs.drop_last());
        let prev = typed(InputView::empty(), cs.drop_last());
        assert(prev.text.insert(prev.cursor as int, cs.last()) =~= cs);
    } else {
        assert(InputView::empty().text =~= cs);
    }
}

/// Backspace undoes the insertion of a character: the text and the cursor
/// are back to what they were.
pub proof fn lemma_backspace_undoes_insert(v: InputView, c: char)
    requires
        v.wf(),
    ensures
        v.inserted(c).deleted_before() == v,
{
    assert(v.inserted(c).deleted_before().text =~= v.text);
}

/// Moving left over a freshly inserted character and deleting it with the
/// Delete key restores the text, with the cursor where it was.
pub proof fn lemma_delete_undoes_insert(v: InputView, c: char)
    requires
        v.wf(),
    ensures
        v.inserted(c).moved_left().deleted_after() == v,
{
    assert(v.inserted(c).moved_left().deleted_after().text =~= v.text);
}

/// Cursor movement never changes the text, and every edit keeps the cursor
/// within the text.
pub proof fn lemma_edits_keep_cursor_in_text(v: InputView, c: char, col: u16)
    requires
        v.wf(),
    ensures
        v.inserted(c).wf(),
        v.deleted_before().wf(),
        v.deleted_after().wf(),
        v.moved_left().wf() && v.moved_left().text == v.text,
        v.moved_right().wf() && v.moved_right().text == v.text,
        v.moved_start().wf() && v.moved_start().text == v.text,
        v.moved_end().wf() && v.moved_end().text == v.text,
        v.clicked(col).wf() && v.clicked(col).text == v.text,
{
}

/// Moving right and then left returns to the same place, unless the cursor
/// was already at the end of the text.
pub proof fn lemma_right_then_left(v: InputView)
    requires
        v.wf(),
        v.cursor < v.text.len(),
    ensures
        v.moved_right().moved_left() == v,
{
}

/// An insertion adds exactly one character, placed at the old cursor, and
/// keeps the characters before and after it in order.
pub proof fn lemma_insert_places_char(v: InputView, c: char)
    requires
        v.wf(),
    ensures
        v.inserted(c).text.len() == v.text.len() + 1,
        v.inserted(c).text[v.cursor as int] == c,
        v.inserted(c).text.take(v.cursor as int) == v.text.take(v.cursor as int),
        v.inserted(c).text.skip(v.cursor + 1int) == v.text.skip(v.cursor as int),
{
    assert(v.inserted(c).text.take(v.cursor as int) =~= v.text.take(v.cursor as int));
    assert(v.inserted(c).text.skip(v.cursor + 1int) =~= v.text.skip(v.cursor as int));
}

} // verus!
