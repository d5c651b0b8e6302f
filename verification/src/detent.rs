//! The control/selector-unit lever: its discrete detent positions and the
//! monitor that remembers the position of the previous cycle.

use vstd::prelude::*;

verus! {

/// A discrete lever position. `OutOfDetent` and `Fault` are transitional or
/// degraded readings that the engine treats conservatively.
#[derive(Clone, Copy, PartialEq, Eq, Structural, Debug)]
pub enum Detent {
    Retracted,
    Detent1,
    Detent2,
    Detent3,
    Full,
    OutOfDetent,
    Fault,
}

/// Tracks the lever's current and immediately previous detent across update
/// cycles. There is no filtering or debounce beyond this single step of
/// memory.
#[derive(Clone, Copy, PartialEq, Eq, Structural, Debug)]
pub struct DetentMonitor {
    pub current: Detent,
    pub previous: Detent,
}

impl DetentMonitor {
    pub fn new(initial: Detent) -> (m: DetentMonitor)
        ensures
            m.current == initial,
            m.previous == initial,
    {
        DetentMonitor { current: initial, previous: initial }
    }

    /// One cycle: shifts the prior current position into `previous`, then
    /// takes `current` from the new lever reading.
    pub fn update(&mut self, reading: Detent)
        ensures
            final(self).previous == old(self).current,
            final(self).current == reading,
    {
        self.previous = self.current;
        self.current = reading;
    }

    pub fn get_current_detent(&self) -> (d: Detent)
        ensures
            d == self.current,
    {
        self.current
    }

    pub fn get_previous_detent(&self) -> (d: Detent)
        ensures
            d == self.previous,
    {
        self.previous
    }
}

} // verus!
