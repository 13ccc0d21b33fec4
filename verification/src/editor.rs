//! A single-line text editor: a buffer of characters and a cursor in it.

use vstd::prelude::*;
use crate::key::Key;

verus! {

/// The mathematical state of an editor: the text and the cursor's offset.
pub struct Line {
    pub text: Seq<char>,
    pub cursor: nat,
}

/// What a key press means to an editor.
#[derive(Clone, Copy, Debug, PartialEq, Eq)]
pub enum EditStatus {
    /// The edit goes on.
    Editing,
    /// Enter: the text is accepted.
    Committed,
    /// Escape: the edit is given up.
    Canceled,
}

impl Line {
    /// The cursor stands inside the text or right behind it.
    pub open spec fn wf(self) -> bool {
        self.cursor <= self.text.len()
    }

    /// The line that holds `text`, cursor behind its last character.
    pub open spec fn at_end(text: Seq<char>) -> Line {
        Line { text, cursor: text.len() }
    }

    /// `c` enters at the cursor and the cursor moves behind it.
    pub open spec fn insert(self, c: char) -> Line {
        Line { text: self.text.insert(self.cursor as int, c), cursor: self.cursor + 1 }
    }

    /// The character before the cursor leaves, if there is one.
    pub open spec fn backspace(self) -> Line {
        if self.cursor > 0 {
            Line { text: self.text.remove(self.cursor - 1), cursor: (self.cursor - 1) as nat }
        } else {
            self
        }
    }

    /// One step to the left, not past the start.
    pub open spec fn left(self) -> Line {
        if self.cursor > 0 {
            Line { text: self.text, cursor: (self.cursor - 1) as nat }
        } else {
            self
        }
    }

    /// One step to the right, not past the end.
    pub open spec fn right(self) -> Line {
        if self.cursor < self.text.len() {
            Line { text: self.text, cursor: self.cursor + 1 }
        } else {
            self
        }
    }

    /// The line after `key`.
    pub open spec fn press(self, key: Key) -> Line {
        match key {
            Key::Char(c) => self.insert(c),
            Key::Backspace => self.backspace(),
            Key::Left => self.left(),
            Key::Right => self.right(),
            _ => self,
        }
    }

    /// The line after each of `keys` in turn.
    pub open spec fn press_all(self, keys: Seq<Key>) -> Line
        decreases keys.len(),
    {
        if keys.len() == 0 {
            self
        } else {
            self.press_all(keys.drop_last()).press(keys.last())
        }
    }
}

/// How the edit stands after `key`.
pub open spec fn status_after(key: Key) -> EditStatus {
    match key {
        Key::Enter => EditStatus::Committed,
        Key::Esc => EditStatus::Canceled,
        _ => EditStatus::Editing,
    }
}

/// No key moves the cursor out of the text.
pub proof fn cursor_stays_in_text(line: Line, key: Key)
    requires
        line.wf(),
    ensures
        line.press(key).wf(),
{
}

/// On an empty line, moving left or right and deleting backwards change
/// nothing, however often they are done: the text stays empty and the cursor
/// stays at 0.
pub proof fn empty_line_stays_empty(keys: Seq<Key>)
    requires
        forall|i: int|
            0 <= i < keys.len() ==> keys[i] == Key::Left || keys[i] == Key::Right || keys[i]
                == Key::Backspace,
    ensures
        Line::at_end(Seq::empty()).press_all(keys) == Line::at_end(Seq::empty()),
    decreases keys.len(),
{
    if keys.len() > 0 {
        empty_line_stays_empty(keys.drop_last());
    }
}

/// The executable editor.
pub struct Editor {
    buffer: Vec<char>,
    cursor: usize,
}

impl View for Editor {
    type V = Line;

    closed spec fn view(&self) -> Line {
        Line { text: self.buffer@, cursor: self.cursor as nat }
    }
}

impl Editor {
    #[verifier::type_invariant]
    spec fn cursor_in_text(self) -> bool {
        self.cursor <= self.buffer.len()
    }

    /// An editor on `text`, the cursor behind its last character.
    pub fn new(text: Vec<char>) -> (editor: Editor)
        ensures
            editor@ == Line::at_end(text@),
    {
        let cursor = text.len();
        Editor { buffer: text, cursor }
    }

    /// The text as it stands.
    pub fn text(&self) -> (text: &Vec<char>)
        ensures
            text@ == self@.text,
    {
        &self.buffer
    }

    /// The cursor's offset, in characters from the start.
    pub fn cursor(&self) -> (cursor: usize)
        ensures
            cursor == self@.cursor,
            cursor <= self@.text.len(),
    {
        proof {
            use_type_invariant(self);
        }
        self.cursor
    }

    /// Puts `c` in at the cursor.
    pub fn insert(&mut self, c: char)
        ensures
            final(self)@ == old(self)@.insert(c),
    {
        proof {
            use_type_invariant(&*self);
        }
        let at = self.cursor;
        self.cursor = 0;
        let mut buffer = Vec::new();
        std::mem::swap(&mut buffer, &mut self.buffer);
        buffer.insert(at, c);
        assert(at < buffer.len()) by {
            assert(buffer@.len() == buffer.len());
        }
        *self = Editor { buffer, cursor: at + 1 };
    }

    /// Takes out the character before the cursor, if there is one.
    pub fn backspace(&mut self)
        ensures
            final(self)@ == old(self)@.backspace(),
    {
        proof {
            use_type_invariant(&*self);
        }
        if self.cursor > 0 {
            let at = self.cursor - 1;
            self.cursor = 0;
            let mut buffer = Vec::new();
            std::mem::swap(&mut buffer, &mut self.buffer);
            buffer.remove(at);
            *self = Editor { buffer, cursor: at };
        }
    }

    /// Moves the cursor one character to the left, unless it is at the start.
    pub fn left(&mut self)
        ensures
            final(self)@ == old(self)@.left(),
    {
        proof {
            use_type_invariant(&*self);
        }
        if self.cursor > 0 {
            self.cursor = self.cursor - 1;
        }
    }

    /// Moves the cursor one character to the right, unless it is at the end.
    pub fn right(&mut self)
        ensures
            final(self)@ == old(self)@.right(),
    {
        proof {
            use_type_invariant(&*self);
        }
        if self.cursor < self.buffer.len() {
            self.cursor = self.cursor + 1;
        }
    }

    /// Applies one key press and says how the edit stands.
    pub fn press(&mut self, key: Key) -> (status: EditStatus)
        ensures
            final(self)@ == old(self)@.press(key),
            status == status_after(key),
    {
        match key {
            Key::Char(c) => {
                self.insert(c);
                EditStatus::Editing
            },
            Key::Backspace => {
                self.backspace();
                EditStatus::Editing
            },
            Key::Left => {
                self.left();
                EditStatus::Editing
            },
            Key::Right => {
                self.right();
                EditStatus::Editing
            },
            Key::Enter => EditStatus::Committed,
            Key::Esc => EditStatus::Canceled,
            Key::Other => EditStatus::Editing,
        }
    }
}

} // verus!
