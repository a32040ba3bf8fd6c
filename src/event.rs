use vstd::prelude::*;

verus! {

/// A key press as the dispatcher sees it: a character key, or any other key.
#[derive(Clone, Copy, Debug, PartialEq, Eq, Structural)]
pub enum Key {
    Char(char),
    Other,
}

/// A notification sent from the sampler to the dispatcher.
#[derive(Clone, Copy, Debug, PartialEq, Eq, Structural)]
pub enum Event<I> {
    /// One key press.
    Input(I),
    /// One tick interval elapsed.
    Tick,
}

} // verus!
