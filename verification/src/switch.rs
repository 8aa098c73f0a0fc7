//! The two halves of a context switch, as plain values.

use vstd::prelude::*;

verus! {

/// A switch about to be made: the stack address to switch into and the word
/// handed to whoever is parked there.
#[derive(Clone, Copy, PartialEq, Eq, Debug, Structural)]
pub struct Transfer {
    /// The parked stack address that receives control.
    pub target: usize,
    /// The word delivered with it.
    pub word: usize,
}

/// What a side finds when control comes back to it: the address at which the
/// other side parked itself, and the word it sent.
#[derive(Clone, Copy, PartialEq, Eq, Debug, Structural)]
pub struct Arrival {
    /// Where the other side is parked now.
    pub stack: usize,
    /// The word it sent.
    pub word: usize,
}

} // verus!
