//! What reaches the render loop, and what the loop does next.

use vstd::prelude::*;

verus! {

/// One item of the stream that the render loop consumes: an input of type
/// `I`, or a tick of the timer.
#[derive(Debug)]
pub enum Event<I> {
    Input(I),
    Tick,
}

/// A key press, as far as the trace tells keys apart: a plain character, or
/// anything else.
#[derive(Debug, Clone, Copy, PartialEq, Eq)]
pub enum Key {
    Char(char),
    Other,
}

/// What the render loop does after an event.
#[derive(Debug, Clone, Copy, PartialEq, Eq)]
pub enum Control {
    /// Paint the next frame and wait for the next event.
    Continue,
    /// Stop at once.
    Quit,
}

/// The one key that the trace knows: it ends the program.
pub open spec fn quits(key: Key) -> bool {
    key == Key::Char('q')
}

} // verus!
