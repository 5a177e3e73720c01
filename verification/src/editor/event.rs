use vstd::prelude::*;

verus! {

/// The bit of the modifier mask that stands for the Control key.
pub const CONTROL: u8 = 0b0000_0010;

/// The keys that the editor tells apart.
#[derive(Copy, Clone, Debug, PartialEq, Eq, Structural)]
pub enum KeyCode {
    Char(char),
    Up,
    Down,
    Left,
    Right,
    PageUp,
    PageDown,
    Home,
    End,
    Other,
}

/// Whether a key went down, is held, or went up.
#[derive(Copy, Clone, Debug, PartialEq, Eq, Structural)]
pub enum KeyEventKind {
    Press,
    Repeat,
    Release,
}

/// A key event: the key, the mask of the modifier keys held with it, and
/// its kind.
#[derive(Copy, Clone, Debug, PartialEq, Eq, Structural)]
pub struct KeyEvent {
    pub code: KeyCode,
    pub modifiers: u8,
    pub kind: KeyEventKind,
}

/// An event from the terminal: a key, a new size (columns, rows), or
/// anything else.
#[derive(Copy, Clone, Debug, PartialEq, Eq, Structural)]
pub enum Event {
    Key(KeyEvent),
    Resize(u16, u16),
    Other,
}

} // verus!
