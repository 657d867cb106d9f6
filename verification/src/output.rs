use vstd::prelude::*;

verus! {

/// A single byte of host-visible state, as handed across the boundary.
pub struct OutputState {
    pub test: u8,
}

impl OutputState {
    /// Wraps one byte.
    pub fn new(test: u8) -> (r: OutputState)
        ensures
            r.test == test,
    {
        OutputState { test }
    }

    /// The wrapped byte.
    pub fn get(&self) -> (r: u8)
        ensures
            r == self.test,
    {
        self.test
    }
}

} // verus!
