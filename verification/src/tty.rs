//! The terminal session as the library sees it: the text that is waiting to
//! be drawn, and the confirmation prompt.
//!
//! Nothing here touches a device. Whoever holds the terminal writes out what
//! `take_output` hands over and feeds back the keys it reads.

use vstd::prelude::*;
use vstd::string::StringExecFns;
use crate::key::Key;
use crate::text::{chars_of, push_char};

verus! {

/// How a confirmation prompt stands.
#[derive(Clone, Copy, Debug, PartialEq, Eq)]
pub enum Confirmation {
    /// No answer yet.
    Prompting,
    /// The user said yes.
    Confirmed,
    /// The user said no.
    Declined,
}

/// How the prompt stands after `key`; `None` is the moment before any key.
pub open spec fn confirmation(key: Option<Key>) -> Confirmation {
    match key {
        Some(Key::Char(c)) => if c == 'y' || c == 'Y' {
            Confirmation::Confirmed
        } else if c == 'n' || c == 'N' || c == 'q' || c == 'Q' {
            Confirmation::Declined
        } else {
            Confirmation::Prompting
        },
        Some(Key::Esc) => Confirmation::Declined,
        _ => Confirmation::Prompting,
    }
}

/// What is drawn when the prompt stands at `state`: the cleared line and the
/// question while it is open, a line break once it is answered.
pub open spec fn confirmation_text(state: Confirmation) -> Seq<char> {
    match state {
        Confirmation::Prompting => "\r\x1B[2K"@ + "Are you sure you want to do this? (y/n)"@,
        _ => "\n\r"@,
    }
}

/// `text` as a terminal in raw mode needs it: behind every line feed stands a
/// carriage return.
pub open spec fn raw_mode_text(text: Seq<char>) -> Seq<char>
    decreases text.len(),
{
    if text.len() == 0 {
        Seq::empty()
    } else if text.last() == '\n' {
        raw_mode_text(text.drop_last()).push('\n').push('\r')
    } else {
        raw_mode_text(text.drop_last()).push(text.last())
    }
}

/// The text waiting to be drawn.
pub struct Tty {
    pending: String,
}

impl View for Tty {
    type V = Seq<char>;

    closed spec fn view(&self) -> Seq<char> {
        self.pending@
    }
}

impl Tty {
    /// A session with nothing to draw.
    pub fn new() -> (tty: Tty)
        ensures
            tty@ == Seq::<char>::empty(),
    {
        Tty { pending: String::new() }
    }

    /// Queues `msg`, a carriage return added behind each of its line feeds.
    pub fn write(&mut self, msg: String)
        ensures
            final(self)@ == old(self)@ + raw_mode_text(msg@),
    {
        let chars = chars_of(msg.as_str());
        let mut i: usize = 0;
        while i < chars.len()
            invariant
                i <= chars.len(),
                chars@ == msg@,
                self@ == old(self)@ + raw_mode_text(chars@.take(i as int)),
            decreases chars.len() - i,
        {
            let c = chars[i];
            proof {
                assert(chars@.take(i + 1).drop_last() == chars@.take(i as int));
            }
            push_char(&mut self.pending, c);
            if c == '\n' {
                push_char(&mut self.pending, '\r');
            }
            i = i + 1;
        }
        proof {
            assert(chars@.take(chars.len() as int) == chars@);
        }
    }

    /// Queues `text` as it is.
    pub fn draw(&mut self, text: &str)
        ensures
            final(self)@ == old(self)@ + text@,
    {
        self.pending.append(text);
    }

    /// Hands over what is waiting to be drawn and leaves nothing waiting.
    pub fn take_output(&mut self) -> (text: String)
        ensures
            text@ == old(self)@,
            final(self)@ == Seq::<char>::empty(),
    {
        let mut text = String::new();
        std::mem::swap(&mut text, &mut self.pending);
        text
    }

    /// One step of the confirmation prompt.
    ///
    /// Called with `None` it opens the prompt; called with the key that was
    /// read it says how the prompt stands now. While the prompt is open the
    /// question is queued again; once it is answered a line break is queued.
    pub fn ask_confirmation(&mut self, key: Option<Key>) -> (state: Confirmation)
        ensures
            state == confirmation(key),
            final(self)@ == old(self)@ + confirmation_text(state),
    {
        let state = match key {
            Some(Key::Char(c)) => {
                if c == 'y' || c == 'Y' {
                    Confirmation::Confirmed
                } else if c == 'n' || c == 'N' || c == 'q' || c == 'Q' {
                    Confirmation::Declined
                } else {
                    Confirmation::Prompting
                }
            },
            Some(Key::Esc) => Confirmation::Declined,
            _ => Confirmation::Prompting,
        };
        match state {
            Confirmation::Prompting => {
                self.pending.append("\r\x1B[2K");
                self.pending.append("Are you sure you want to do this? (y/n)");
            },
            _ => {
                self.pending.append("\n\r");
            },
        }
        state
    }
}

} // verus!
