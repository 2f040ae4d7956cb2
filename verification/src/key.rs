//! The key strokes the coordinator reacts to, independent of any terminal
//! backend.  The caller translates real input events into these values.

use vstd::prelude::*;

verus! {

#[derive(Clone, Copy, PartialEq, Eq, Structural, Debug)]
pub enum Key {
    Char(char),
    Up,
    Down,
    Enter,
    Backspace,
    Other,
}

} // verus!
