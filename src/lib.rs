//! A flipper: contract storage holding one boolean flag that can be read
//! and toggled.
//!
//! The state is modelled by its view, the flag itself. Every operation is
//! total: each of the two states is a valid initial state, and `flip` moves
//! between them unconditionally.
use vstd::prelude::*;

verus! {

/// The toggle transition of the flag's state machine.
pub open spec fn flipped(b: bool) -> bool {
    !b
}

/// Storage of the contract: a single boolean flag.
pub struct MyFirstContract {
    value: bool,
}

impl View for MyFirstContract {
    type V = bool;

    closed spec fn view(&self) -> bool {
        self.value
    }
}

impl MyFirstContract {
    /// Creates the storage with the flag set to `init_value`.
    pub fn new(init_value: bool) -> (r: Self)
        ensures
            r@ == init_value,
    {
        MyFirstContract { value: init_value }
    }

    /// Creates the storage with the flag at its default, `false`.
    pub fn default() -> (r: Self)
        ensures
            r@ == false,
    {
        Self::new(false)
    }

    /// Toggles the flag.
    pub fn flip(&mut self)
        ensures
            final(self)@ == flipped(old(self)@),
    {
        self.value = !self.value;
    }

    /// Reads the flag.
    pub fn get(&self) -> (r: bool)
        ensures
            r == self@,
    {
        self.value
    }
}

/// Flipping twice from any state gives back the state it started from.
pub proof fn lemma_flip_twice(s: bool)
    ensures
        flipped(flipped(s)) == s,
{
}

/// After a flip the flag reads as the negation of what it held before.
pub proof fn lemma_flip_negates(s: bool)
    ensures
        flipped(s) == !s,
        flipped(s) != s,
{
}

} // verus!
