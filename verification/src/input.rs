use vstd::prelude::*;
use crate::key::{KeyCode, KeyEvent};
use crate::text::clone_chars;

verus! {

/// The mathematical value of an [`InputBuffer`]: the typed text and the
/// cursor offset within it.
#[verifier::ext_equal]
pub ghost struct InputView {
    pub text: Seq<char>,
    pub cursor: int,
}

/// The cursor always sits between 0 and the text length, inclusive.
pub open spec fn input_wf(v: InputView) -> bool {
    0 <= v.cursor <= v.text.len()
}

/// An empty editor with the cursor at the start.
pub open spec fn empty_input() -> InputView {
    InputView { text: Seq::empty(), cursor: 0 }
}

/// Line-editing state owned by the chat component while in `Insert` mode.
#[derive(Debug)]
pub struct InputBuffer {
    text: Vec<char>,
    cursor: usize,
}

impl View for InputBuffer {
    type V = InputView;

    closed spec fn view(&self) -> InputView {
        InputView { text: self.text@, cursor: self.cursor as int }
    }
}

/// What one key does to the editor: insertion at the cursor, deletion,
/// and cursor motion. Keys pressed with a modifier, and keys that are not
/// editing keys, leave the editor unchanged. A buffer already at the
/// machine's size limit ignores further insertions.
pub open spec fn edit_spec(v: InputView, k: KeyEvent) -> InputView {
    if k.ctrl || k.alt {
        v
    } else {
        match k.code {
            KeyCode::Char(c) => if v.text.len() < usize::MAX {
                InputView { text: v.text.insert(v.cursor, c), cursor: v.cursor + 1 }
            } else {
                v
            },
            KeyCode::Backspace => if v.cursor > 0 {
                InputView { text: v.text.remove(v.cursor - 1), cursor: v.cursor - 1 }
            } else {
                v
            },
            KeyCode::Delete => if v.cursor < v.text.len() {
                InputView { text: v.text.remove(v.cursor), cursor: v.cursor }
            } else {
                v
            },
            KeyCode::Left => if v.cursor > 0 {
                InputView { text: v.text, cursor: v.cursor - 1 }
            } else {
                v
            },
            KeyCode::Right => if v.cursor < v.text.len() {
                InputView { text: v.text, cursor: v.cursor + 1 }
            } else {
                v
            },
            KeyCode::Home => InputView { text: v.text, cursor: 0 },
            KeyCode::End => InputView { text: v.text, cursor: v.text.len() as int },
            _ => v,
        }
    }
}

impl InputBuffer {
    pub open spec fn wf(&self) -> bool {
        input_wf(self@)
    }

    pub fn new() -> (r: InputBuffer)
        ensures
            r@ == empty_input(),
            r.wf(),
    {
        let r = InputBuffer { text: Vec::new(), cursor: 0 };
        assert(r@ =~= empty_input());
        r
    }

    /// The typed text, as an owned copy.
    pub fn value(&self) -> (r: Vec<char>)
        ensures
            r@ == self@.text,
    {
        clone_chars(&self.text)
    }

    pub fn cursor(&self) -> (c: usize)
        ensures
            c as int == self@.cursor,
    {
        self.cursor
    }

    pub fn len(&self) -> (n: usize)
        ensures
            n == self@.text.len(),
    {
        self.text.len()
    }

    /// Empties the editor; used exactly when a query is submitted or
    /// `Insert` mode is cancelled.
    pub fn clear(&mut self)
        ensures
            final(self)@ == empty_input(),
            final(self).wf(),
    {
        self.text.clear();
        self.cursor = 0;
        assert(self@ =~= empty_input());
    }

    /// Applies one key to the editor.
    pub fn handle_key(&mut self, k: KeyEvent)
        requires
            old(self).wf(),
        ensures
            final(self)@ == edit_spec(old(self)@, k),
            final(self).wf(),
    {
        if k.ctrl || k.alt {
            return ;
        }
        match k.code {
            KeyCode::Char(c) => {
                if self.text.len() < usize::MAX {
                    self.text.insert(self.cursor, c);
                    self.cursor = self.cursor + 1;
                }
            },
            KeyCode::Backspace => {
                if self.cursor > 0 {
                    self.text.remove(self.cursor - 1);
                    self.cursor = self.cursor - 1;
                }
            },
            KeyCode::Delete => {
                if self.cursor < self.text.len() {
                    self.text.remove(self.cursor);
                }
            },
            KeyCode::Left => {
                if self.cursor > 0 {
                    self.cursor = self.cursor - 1;
                }
            },
            KeyCode::Right => {
                if self.cursor < self.text.len() {
                    self.cursor = self.cursor + 1;
                }
            },
            KeyCode::Home => {
                self.cursor = 0;
            },
            KeyCode::End => {
                self.cursor = self.text.len();
            },
            _ => {},
        }
    }

    /// How far the rendered text is scrolled so the cursor stays inside a
    /// window of `width` columns; a zero-width window reports the cursor
    /// offset itself.
    pub fn visual_scroll(&self, width: usize) -> (s: usize)
        requires
            self.wf(),
        ensures
            width == 0 ==> s as int == self@.cursor,
            width > 0 && self@.cursor < width ==> s == 0,
            width > 0 && self@.cursor >= width ==> s as int == self@.cursor - width + 1,
    {
        if width == 0 {
            self.cursor
        } else if self.cursor < width {
            0
        } else {
            self.cursor - width + 1
        }
    }
}

} // verus!
