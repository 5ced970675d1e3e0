use vstd::prelude::*;

verus! {

/// Generates the identifiers of requests: 1, 2, 3 and so on.
#[derive(Debug, Default)]
pub struct IdStepper(u64);

impl View for IdStepper {
    type V = u64;

    closed spec fn view(&self) -> u64 {
        self.0
    }
}

impl IdStepper {
    /// A stepper whose first identifier will be 1.
    pub fn new() -> (stepper: IdStepper)
        ensures
            stepper@ == 0,
    {
        IdStepper(0)
    }

    /// The identifier that was returned last; zero before the first.
    pub fn last(&self) -> (id: u64)
        ensures
            id == self@,
    {
        self.0
    }

    /// Returns the next request identifier: one more than the last.
    pub fn next(&mut self) -> (id: u64)
        requires
            old(self)@ < u64::MAX,
        ensures
            id == old(self)@ + 1,
            final(self)@ == id,
    {
        self.0 = self.0 + 1;
        self.0
    }
}

} // verus!
