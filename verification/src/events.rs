use vstd::prelude::*;

verus! {

/// A key press, already decoded from the terminal backend.
#[derive(Clone, Copy, Debug, PartialEq, Eq, Structural)]
pub enum Key {
    Up,
    Down,
    Enter,
    Esc,
    Char(char),
}

/// One input event of the interactive session: a key press, or a resize
/// of the terminal window to the given width and height.
#[derive(Clone, Copy, Debug, PartialEq, Eq, Structural)]
pub enum Event {
    Key(Key),
    Resize(u16, u16),
}

} // verus!
