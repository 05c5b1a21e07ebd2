use vstd::prelude::*;

verus! {

/// A one-shot stop notification: it fires at most once, and every later
/// firing is a harmless no-op.
#[derive(Clone, Copy, Debug, PartialEq, Eq, Structural)]
pub struct StopSignal {
    pub fired: bool,
}

impl StopSignal {
    /// A signal that has not fired yet.
    pub fn new() -> (r: StopSignal)
        ensures
            !r.fired,
    {
        StopSignal { fired: false }
    }

    /// Fires the signal. Returns `true` only for the firing that takes effect,
    /// that is, the first one.
    pub fn fire(&mut self) -> (effective: bool)
        ensures
            effective == !old(self).fired,
            final(self).fired,
    {
        let effective = !self.fired;
        self.fired = true;
        effective
    }

    /// Whether the signal has fired.
    pub fn is_fired(&self) -> (r: bool)
        ensures
            r == self.fired,
    {
        self.fired
    }
}

} // verus!
