//! Keys and events as the state machine sees them.

use vstd::prelude::*;

verus! {

/// A key press, reduced to what the dispatch tables tell apart.
#[derive(Debug, Clone, Copy, PartialEq, Eq, Structural)]
pub enum Key {
    Char(char),
    Enter,
    Esc,
    Backspace,
    Left,
    Right,
    Up,
    Down,
    PageUp,
    PageDown,
    Tab,
    BackTab,
    /// A function key with its number, `F(1)` for F1.
    F(u8),
    /// Any key that no table mentions.
    Other,
}

impl Key {
    /// The key that types `c`.
    pub open spec fn of_char(c: char) -> Key {
        Key::Char(c)
    }
}

/// One item of the event stream that feeds the state machine.
#[derive(Debug, Clone, Copy, PartialEq, Eq, Structural)]
pub enum Event {
    Key(Key),
    /// The terminal was resized to this width and height.
    Resize(u16, u16),
    Tick,
    Render,
}

} // verus!
