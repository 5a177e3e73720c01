use crate::editor::terminal::Size;
use vstd::prelude::*;

verus! {

/// A way to move the cursor through the text.
#[derive(Copy, Clone, Debug, PartialEq, Eq, Structural)]
pub enum Direction {
    PageUp,
    PageDown,
    Home,
    End,
    Up,
    Left,
    Right,
    Down,
}

/// What the editor is asked to do.
#[derive(Copy, Clone, Debug, PartialEq, Eq, Structural)]
pub enum EditorCommand {
    Move(Direction),
    Resize(Size),
    Quit,
}

} // verus!
