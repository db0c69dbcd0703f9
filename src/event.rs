//! What the control loop receives: key presses and timer ticks.
use vstd::prelude::*;

verus! {

/// One item of the merged stream that the control loop consumes.
pub enum Event<I> {
    /// A key press from the keyboard reader.
    Input(I),
    /// The advance timer finished one requested sleep.
    Tick,
}

/// The keys that the reading engine reacts to; every other key is `Other`.
#[derive(Clone, Copy, Debug, PartialEq, Eq, Structural)]
pub enum Key {
    Char(char),
    Left,
    Right,
    Other,
}

} // verus!
