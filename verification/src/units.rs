//! Scalar physical quantities with an explicit unit.
//!
//! No bare numbers cross the engine boundary: every angle, speed and altitude
//! is wrapped in a unit-tagged type. Values are held in fixed point, in
//! hundredths of the customary unit (centidegrees, centiknots, centifeet),
//! which represents every threshold of the rule tables exactly.

use vstd::prelude::*;

verus! {

/// An angle in hundredths of a degree (feedback-sensor reference).
#[derive(Clone, Copy, PartialEq, Eq, Structural, Debug)]
pub struct Angle {
    pub centidegrees: i64,
}

/// A speed in hundredths of a knot.
#[derive(Clone, Copy, PartialEq, Eq, Structural, Debug)]
pub struct Velocity {
    pub centiknots: i64,
}

/// An altitude in hundredths of a foot.
#[derive(Clone, Copy, PartialEq, Eq, Structural, Debug)]
pub struct Altitude {
    pub centifeet: i64,
}

impl Angle {
    pub fn from_centidegrees(v: i64) -> (a: Angle)
        ensures
            a.centidegrees == v,
    {
        Angle { centidegrees: v }
    }

    pub fn zero() -> (a: Angle)
        ensures
            a.centidegrees == 0,
    {
        Angle { centidegrees: 0 }
    }
}

impl Velocity {
    pub fn from_centiknots(v: i64) -> (s: Velocity)
        ensures
            s.centiknots == v,
    {
        Velocity { centiknots: v }
    }
}

impl Altitude {
    pub fn from_centifeet(v: i64) -> (h: Altitude)
        ensures
            h.centifeet == v,
    {
        Altitude { centifeet: v }
    }
}

} // verus!
