//! Terminal events, as far as the to-do list looks at them.

use vstd::prelude::*;

verus! {

/// A key on the keyboard.
#[derive(Clone, Copy, Debug, PartialEq, Eq, Structural)]
pub enum KeyCode {
    Esc,
    Enter,
    Backspace,
    Delete,
    Tab,
    Up,
    Down,
    Home,
    End,
    Char(char),
    /// Any key that the list has no use for.
    Other,
}

/// What happened to a key.
#[derive(Clone, Copy, Debug, PartialEq, Eq, Structural)]
pub enum KeyEventKind {
    Press,
    Repeat,
    Release,
}

/// A key, what happened to it, and which of two modifiers were held.
#[derive(Clone, Copy, Debug, PartialEq, Eq, Structural)]
pub struct KeyEvent {
    pub code: KeyCode,
    pub control: bool,
    pub alt: bool,
    pub kind: KeyEventKind,
}

/// What the terminal reports.
#[derive(Clone, Copy, Debug, PartialEq, Eq, Structural)]
pub enum Event {
    Key(KeyEvent),
    /// A resize, the mouse, a paste, a change of focus.
    Other,
}

impl Event {
    /// The key that the event is to be handled as: one that is pressed or held down.
    pub open spec fn stroke(self) -> Option<KeyEvent> {
        match self {
            Event::Key(key) => match key.kind {
                KeyEventKind::Press | KeyEventKind::Repeat => Some(key),
                KeyEventKind::Release => None,
            },
            Event::Other => None,
        }
    }

    /// The key that was pressed or is held down, if that is what the event reports.
    pub fn pressed(self) -> (r: Option<KeyEvent>)
        ensures
            r == self.stroke(),
    {
        match self {
            Event::Key(key) => match key.kind {
                KeyEventKind::Press | KeyEventKind::Repeat => Some(key),
                KeyEventKind::Release => None,
            },
            Event::Other => None,
        }
    }
}

} // verus!
