use vstd::prelude::*;

verus! {

/// A logical input code read from the terminal.
#[derive(Clone, Copy, Debug, PartialEq, Eq, Structural)]
pub enum Key {
    Char(char),
    Ctrl(char),
    Alt(char),
    F(u8),
    Enter,
    Tab,
    Backspace,
    Delete,
    Insert,
    Left,
    Right,
    Up,
    Down,
    Home,
    End,
    PageUp,
    PageDown,
    Esc,
    /// A mouse action.
    Mouse,
    /// A placeholder that no key press produces.
    Null,
}

/// What the event source hands to the render loop.
#[derive(Clone, Copy, Debug, PartialEq, Eq, Structural)]
pub enum Event {
    /// Time to redraw.
    Tick,
    /// A key or mouse action.
    Input(Key),
}

impl Event {
    /// Whether this event is the press of `exit_key`.
    pub fn is_key(&self, exit_key: Key) -> (r: bool)
        ensures
            r <==> *self == Event::Input(exit_key),
    {
        match self {
            Event::Input(k) => *k == exit_key,
            Event::Tick => false,
        }
    }
}

} // verus!
