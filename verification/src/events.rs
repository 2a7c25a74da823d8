//! The frame's input events, as the host snapshot delivers them.

use vstd::prelude::*;

verus! {

/// A key the host can report; only `Backspace` affects the buffer.
#[derive(Clone, Copy, Debug, PartialEq, Eq, Structural)]
pub enum Key {
    Backspace,
    Delete,
    Down,
    End,
    Enter,
    Escape,
    Home,
    Left,
    Right,
    Tab,
    Up,
}

/// One input event of the current frame, delivered in order and consumed
/// once.
#[derive(Clone, Debug, PartialEq)]
pub enum Event {
    /// Request to copy the widget's content to the clipboard.
    Copy,
    /// Request to cut; this core copies without deleting.
    Cut,
    /// A fragment of entered text.
    Text(String),
    /// A key went down (`pressed`) or up.
    Key { key: Key, pressed: bool },
}

} // verus!
