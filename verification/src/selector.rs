//! The field selector: which of an entry's two fields is to be edited.

use vstd::prelude::*;
use vstd::string::StringExecFns;
use crate::key::Key;

verus! {

/// The fields of an entry, in the order in which the selector shows them.
#[derive(Clone, Copy, Debug, PartialEq, Eq)]
pub enum Field {
    Alias,
    Path,
}

/// What a key press means to the selector.
#[derive(Clone, Copy, Debug, PartialEq, Eq)]
pub enum Choice {
    /// No decision yet; the field is the one now highlighted.
    Pending(Field),
    /// The field is chosen for editing.
    Chosen(Field),
    /// The whole edit is given up.
    Canceled,
}

impl Field {
    /// The field to the left, or the field itself where there is none.
    pub open spec fn spec_left(self) -> Field {
        Field::Alias
    }

    /// The field to the right, or the field itself where there is none.
    pub open spec fn spec_right(self) -> Field {
        Field::Path
    }

    /// The text that names the field in the selector.
    pub open spec fn spec_label(self) -> Seq<char> {
        match self {
            Field::Alias => "alias (a)"@,
            Field::Path => "path (p)"@,
        }
    }

    /// How the selector shows the field while `selected` is highlighted.
    pub open spec fn shown(self, selected: Field) -> Seq<char> {
        if self == selected {
            "\x1b[38:5:41m["@ + self.spec_label() + "]\x1b[0m"@
        } else {
            " "@ + self.spec_label() + " "@
        }
    }

    /// The field to the left, or the field itself where there is none.
    #[verifier::when_used_as_spec(spec_left)]
    pub fn left(self) -> (field: Field)
        ensures
            field == self.spec_left(),
    {
        match self {
            Field::Alias => Field::Alias,
            Field::Path => Field::Alias,
        }
    }

    /// The field to the right, or the field itself where there is none.
    #[verifier::when_used_as_spec(spec_right)]
    pub fn right(self) -> (field: Field)
        ensures
            field == self.spec_right(),
    {
        match self {
            Field::Alias => Field::Path,
            Field::Path => Field::Path,
        }
    }

    /// The text that names the field in the selector.
    pub fn label(self) -> (label: &'static str)
        ensures
            label@ == self.spec_label(),
    {
        match self {
            Field::Alias => "alias (a)",
            Field::Path => "path (p)",
        }
    }
}

/// What `key` decides while `current` is highlighted.
pub open spec fn choice(current: Field, key: Key) -> Choice {
    match key {
        Key::Enter => Choice::Chosen(current),
        Key::Left => Choice::Pending(current.spec_left()),
        Key::Right => Choice::Pending(current.spec_right()),
        Key::Esc => Choice::Canceled,
        Key::Char(c) => if c == 'a' || c == 'A' {
            Choice::Chosen(Field::Alias)
        } else if c == 'p' || c == 'P' {
            Choice::Chosen(Field::Path)
        } else if c == 'h' {
            Choice::Pending(current.spec_left())
        } else if c == 'l' {
            Choice::Pending(current.spec_right())
        } else if c == 'q' || c == 'Q' {
            Choice::Canceled
        } else {
            Choice::Pending(current)
        },
        _ => Choice::Pending(current),
    }
}

/// The highlight after each of `keys` has moved it in turn, starting at
/// `current`; a key that decides or cancels moves nothing.
pub open spec fn highlight_after(current: Field, keys: Seq<Key>) -> Field
    decreases keys.len(),
{
    if keys.len() == 0 {
        current
    } else {
        match choice(highlight_after(current, keys.drop_last()), keys.last()) {
            Choice::Pending(field) => field,
            _ => highlight_after(current, keys.drop_last()),
        }
    }
}

/// The selector's line while `selected` is highlighted: the line is cleared
/// and both fields are drawn.
pub open spec fn selector_line(selected: Field) -> Seq<char> {
    "\r\x1B[2K"@ + Field::Alias.shown(selected) + Field::Path.shown(selected)
}

/// Decides what `key` means while `current` is highlighted.
pub fn select(current: Field, key: Key) -> (decided: Choice)
    ensures
        decided == choice(current, key),
{
    match key {
        Key::Enter => Choice::Chosen(current),
        Key::Left => Choice::Pending(current.left()),
        Key::Right => Choice::Pending(current.right()),
        Key::Esc => Choice::Canceled,
        Key::Char(c) => {
            if c == 'a' || c == 'A' {
                Choice::Chosen(Field::Alias)
            } else if c == 'p' || c == 'P' {
                Choice::Chosen(Field::Path)
            } else if c == 'h' {
                Choice::Pending(current.left())
            } else if c == 'l' {
                Choice::Pending(current.right())
            } else if c == 'q' || c == 'Q' {
                Choice::Canceled
            } else {
                Choice::Pending(current)
            }
        },
        _ => Choice::Pending(current),
    }
}

fn draw_field(out: &mut String, field: Field, selected: Field)
    ensures
        final(out)@ == old(out)@ + field.shown(selected),
{
    let highlighted = match (field, selected) {
        (Field::Alias, Field::Alias) => true,
        (Field::Path, Field::Path) => true,
        _ => false,
    };
    if highlighted {
        out.append("\x1b[38:5:41m[");
        out.append(field.label());
        out.append("]\x1b[0m");
    } else {
        out.append(" ");
        out.append(field.label());
        out.append(" ");
    }
}

/// Draws the selector's line while `selected` is highlighted.
pub fn draw_selector(selected: Field) -> (line: String)
    ensures
        line@ == selector_line(selected),
{
    let mut line = String::from_str("\r\x1B[2K");
    draw_field(&mut line, Field::Alias, selected);
    draw_field(&mut line, Field::Path, selected);
    line
}

/// Moving left from the first field, or right from the last, leaves the
/// highlight where it is, however often it is done.
pub proof fn selection_is_clamped(keys: Seq<Key>)
    ensures
        (forall|i: int| 0 <= i < keys.len() ==> keys[i] == Key::Left || keys[i] == Key::Char('h'))
            ==> highlight_after(Field::Alias, keys) == Field::Alias,
        (forall|i: int| 0 <= i < keys.len() ==> keys[i] == Key::Right || keys[i] == Key::Char('l'))
            ==> highlight_after(Field::Path, keys) == Field::Path,
    decreases keys.len(),
{
    if keys.len() > 0 {
        selection_is_clamped(keys.drop_last());
    }
}

} // verus!
