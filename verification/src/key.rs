//! Key presses, as the dialogs see them.

use vstd::prelude::*;

verus! {

/// One event read from the keyboard.
///
/// Every key without a meaning in any dialog, and every event that is no key
/// press at all, is `Other`.
#[derive(Clone, Copy, Debug, PartialEq, Eq)]
pub enum Key {
    Char(char),
    Enter,
    Esc,
    Backspace,
    Left,
    Right,
    Other,
}

} // verus!
