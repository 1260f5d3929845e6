//! The abstract key alphabet the state machine understands. Decoding real
//! terminal events into these lives with the event source, outside the
//! library.

use vstd::prelude::*;

verus! {

/// One decoded key press.
#[derive(Clone, Copy, PartialEq, Eq, Structural, Debug)]
pub enum Key {
    Backspace,
    Enter,
    Left,
    Right,
    Up,
    Down,
    Tab,
    Delete,
    Insert,
    F(u8),
    Alt(char),
    Ctrl(char),
    Char(char),
    Esc,
    Unused,
}

} // verus!
