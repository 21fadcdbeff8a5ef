//! The single pending liveness signal shared between the probe and the trace.

use vstd::prelude::*;

verus! {

/// One pending "alive" signal. Raising it twice before it is taken leaves one
/// signal, not two.
pub struct LivenessFlag {
    raised: bool,
}

impl View for LivenessFlag {
    type V = bool;

    closed spec fn view(&self) -> bool {
        self.raised
    }
}

impl LivenessFlag {
    /// A flag with nothing pending.
    pub fn new() -> (flag: Self)
        ensures
            !flag@,
    {
        LivenessFlag { raised: false }
    }

    /// Whether a signal is pending.
    pub fn is_raised(&self) -> (raised: bool)
        ensures
            raised == self@,
    {
        self.raised
    }

    /// Records the outcome of one probe: a success raises the flag, a failure
    /// leaves it as it was.
    pub fn report(&mut self, alive: bool)
        ensures
            final(self)@ == (old(self)@ || alive),
    {
        if alive {
            self.raised = true;
        }
    }

    /// Reads the flag and clears it in one step.
    pub fn take(&mut self) -> (pending: bool)
        ensures
            pending == old(self)@,
            !final(self)@,
    {
        let pending = self.raised;
        self.raised = false;
        pending
    }
}

} // verus!
