//! Alpha-lock and baulk-lock: two independent slat latches that, under
//! defined angle-of-attack and airspeed conditions, hold a slat extension
//! target against full retraction.
//!
//! Each latch is evaluated once per cycle and fails safe: whenever its
//! qualifying condition is false — or, for the baulk lock, whenever the
//! airspeed measurement is entirely absent — it disengages, and so does any
//! unmatched condition. While either latch is engaged the lock command
//! angle is the Detent1 slat target; a higher-level consumer substitutes
//! that angle for the engine's own demand while locked.

use vstd::prelude::*;

verus! {

use crate::detent::Detent;
use crate::units::Angle;
use crate::units::Velocity;

/// The Detent1 slat target, in centidegrees of the feedback-sensor
/// reference: the angle a latch holds while engaged.
pub const DETENT1_SLAT_TARGET_CDEG: i64 = 22227;

/// Floor, in centiknots, above which the lock logic qualifies on airspeed
/// alone; below it, only extended landing gear qualifies.
pub const LOCK_ACTIVE_SPEED_CKT: i64 = 6000;

/// Strictly above this angle of attack (centidegrees) the alpha lock
/// engages.
pub const ALPHA_LOCK_ENGAGE_AOA_CDEG: i64 = 760;

/// Strictly below this angle of attack (centidegrees) an engaged alpha lock
/// releases; wider than the engage threshold, giving deliberate hysteresis.
pub const ALPHA_LOCK_RELEASE_AOA_CDEG: i64 = 850;

/// Strictly below this airspeed (centiknots) the baulk lock engages.
pub const BAULK_LOCK_ENGAGE_SPEED_CKT: i64 = 14800;

/// Strictly above this airspeed (centiknots) an engaged baulk lock
/// releases.
pub const BAULK_LOCK_RELEASE_SPEED_CKT: i64 = 15400;

/// Half-width, in centidegrees, of the enlarged target range around a
/// commanded angle. The exact band is provisional pending flight-test
/// reference data.
pub const ENLARGED_RANGE_TOLERANCE_CDEG: i64 = 80;

/// True when the feedback angle has reached, or passed beyond, the enlarged
/// target range around `target`: a tolerance band, not exact equality.
pub open spec fn spec_in_or_above_enlarged_target_range(feedback: Angle, target: Angle) -> bool {
    feedback.centidegrees >= target.centidegrees - ENLARGED_RANGE_TOLERANCE_CDEG
}

pub fn in_or_above_enlarged_target_range(feedback: Angle, target: Angle) -> (r: bool)
    ensures
        r == spec_in_or_above_enlarged_target_range(feedback, target),
{
    (feedback.centidegrees as i128) >= (target.centidegrees as i128) - (
    ENLARGED_RANGE_TOLERANCE_CDEG as i128)
}

/// Combines two redundant angle-of-attack sources: the lower (more
/// conservative) reading wins when both are present, a single present
/// reading wins over an absent one.
pub open spec fn spec_resolve_angle_of_attack(
    first: Option<Angle>,
    second: Option<Angle>,
) -> Option<Angle> {
    match (first, second) {
        (Some(a), Some(b)) => Some(
            if a.centidegrees <= b.centidegrees {
                a
            } else {
                b
            },
        ),
        (Some(a), None) => Some(a),
        (None, Some(b)) => Some(b),
        (None, None) => None,
    }
}

pub fn resolve_angle_of_attack(first: Option<Angle>, second: Option<Angle>) -> (r: Option<Angle>)
    ensures
        r == spec_resolve_angle_of_attack(first, second),
{
    match (first, second) {
        (Some(a), Some(b)) => Some(
            if a.centidegrees <= b.centidegrees {
                a
            } else {
                b
            },
        ),
        (Some(a), None) => Some(a),
        (None, Some(b)) => Some(b),
        (None, None) => None,
    }
}

/// Combines two redundant computed-airspeed sources: the higher (more
/// conservative for a low-speed latch) reading wins when both are present.
pub open spec fn spec_resolve_computed_airspeed(
    first: Option<Velocity>,
    second: Option<Velocity>,
) -> Option<Velocity> {
    match (first, second) {
        (Some(a), Some(b)) => Some(
            if a.centiknots >= b.centiknots {
                a
            } else {
                b
            },
        ),
        (Some(a), None) => Some(a),
        (None, Some(b)) => Some(b),
        (None, None) => None,
    }
}

pub fn resolve_computed_airspeed(first: Option<Velocity>, second: Option<Velocity>) -> (r: Option<
    Velocity,
>)
    ensures
        r == spec_resolve_computed_airspeed(first, second),
{
    match (first, second) {
        (Some(a), Some(b)) => Some(
            if a.centiknots >= b.centiknots {
                a
            } else {
                b
            },
        ),
        (Some(a), None) => Some(a),
        (None, Some(b)) => Some(b),
        (None, None) => None,
    }
}

/// The two slat lock latches and the angle they command while engaged, all
/// latched across cycles.
#[derive(Clone, Copy, PartialEq, Eq, Structural, Debug)]
pub struct LockState {
    pub alpha_lock_engaged: bool,
    pub baulk_lock_engaged: bool,
    pub lock_command_angle: Angle,
}

/// Whether the alpha lock is engaged after one evaluation. In rule order:
/// a failed qualifying condition disengages; with a measurement present,
/// the lock engages at Retracted on high angle of attack with the surface
/// already in or above the enlarged Detent1 range, holds unchanged through
/// the transitional `OutOfDetent` lever state, and releases at Retracted
/// once the angle of attack drops below the (wider) release threshold; an
/// absent measurement or any unmatched condition disengages.
pub open spec fn spec_alpha_lock_engaged_after(
    s: LockState,
    aoa: Option<Angle>,
    cas: Option<Velocity>,
    gear_extended: bool,
    current_detent: Detent,
    feedback: Angle,
) -> bool {
    let cas_ckt = match cas {
        Some(c) => c.centiknots,
        None => 0,
    };
    if !(cas_ckt >= LOCK_ACTIVE_SPEED_CKT || gear_extended) {
        false
    } else {
        match aoa {
            Some(a) => {
                if a.centidegrees > ALPHA_LOCK_ENGAGE_AOA_CDEG && current_detent is Retracted
                    && spec_in_or_above_enlarged_target_range(
                    feedback,
                    Angle { centidegrees: DETENT1_SLAT_TARGET_CDEG },
                ) {
                    true
                } else if current_detent is OutOfDetent {
                    s.alpha_lock_engaged
                } else if a.centidegrees < ALPHA_LOCK_RELEASE_AOA_CDEG
                    && current_detent is Retracted && s.alpha_lock_engaged {
                    false
                } else {
                    false
                }
            },
            None => false,
        }
    }
}

/// The lock state after one alpha-lock evaluation: the latch as
/// `spec_alpha_lock_engaged_after` says, the baulk latch untouched, and the
/// lock command angle set to the Detent1 slat target while engaged.
pub open spec fn spec_alpha_lock_after(
    s: LockState,
    aoa: Option<Angle>,
    cas: Option<Velocity>,
    gear_extended: bool,
    current_detent: Detent,
    feedback: Angle,
) -> LockState {
    let engaged = spec_alpha_lock_engaged_after(s, aoa, cas, gear_extended, current_detent, feedback);
    LockState {
        alpha_lock_engaged: engaged,
        baulk_lock_engaged: s.baulk_lock_engaged,
        lock_command_angle: if engaged {
            Angle { centidegrees: DETENT1_SLAT_TARGET_CDEG }
        } else {
            s.lock_command_angle
        },
    }
}

/// Whether the baulk lock is engaged after one evaluation. An entirely
/// absent airspeed measurement disengages before anything else; then, in
/// rule order: a failed qualifying condition disengages; the lock engages
/// at Retracted on low airspeed with the surface already in or above the
/// enlarged Detent1 range, holds unchanged through `OutOfDetent`, and
/// releases at Retracted once airspeed rises above the release threshold;
/// any unmatched condition disengages.
pub open spec fn spec_baulk_lock_engaged_after(
    s: LockState,
    cas: Option<Velocity>,
    gear_extended: bool,
    current_detent: Detent,
    feedback: Angle,
) -> bool {
    match cas {
        None => false,
        Some(c) => {
            if !(c.centiknots >= LOCK_ACTIVE_SPEED_CKT || gear_extended) {
                false
            } else if c.centiknots < BAULK_LOCK_ENGAGE_SPEED_CKT && current_detent is Retracted
                && spec_in_or_above_enlarged_target_range(
                feedback,
                Angle { centidegrees: DETENT1_SLAT_TARGET_CDEG },
            ) {
                true
            } else if current_detent is OutOfDetent {
                s.baulk_lock_engaged
            } else if c.centiknots > BAULK_LOCK_RELEASE_SPEED_CKT && current_detent is Retracted
                && s.baulk_lock_engaged {
                false
            } else {
                false
            }
        },
    }
}

/// The lock state after one baulk-lock evaluation.
pub open spec fn spec_baulk_lock_after(
    s: LockState,
    cas: Option<Velocity>,
    gear_extended: bool,
    current_detent: Detent,
    feedback: Angle,
) -> LockState {
    let engaged = spec_baulk_lock_engaged_after(s, cas, gear_extended, current_detent, feedback);
    LockState {
        alpha_lock_engaged: s.alpha_lock_engaged,
        baulk_lock_engaged: engaged,
        lock_command_angle: if engaged {
            Angle { centidegrees: DETENT1_SLAT_TARGET_CDEG }
        } else {
            s.lock_command_angle
        },
    }
}

impl LockState {
    pub fn new() -> (s: LockState)
        ensures
            !s.alpha_lock_engaged,
            !s.baulk_lock_engaged,
            s.lock_command_angle.centidegrees == 0,
    {
        LockState {
            alpha_lock_engaged: false,
            baulk_lock_engaged: false,
            lock_command_angle: Angle { centidegrees: 0 },
        }
    }

    /// One alpha-lock evaluation. `aoa` and `cas` are the already-resolved
    /// redundant measurements (see the resolve functions); `feedback` is
    /// the surface angle the position pick-off unit reports.
    pub fn update_slat_alpha_lock(
        &mut self,
        aoa: Option<Angle>,
        cas: Option<Velocity>,
        gear_extended: bool,
        current_detent: Detent,
        feedback: Angle,
    )
        ensures
            *final(self) == spec_alpha_lock_after(
                *old(self),
                aoa,
                cas,
                gear_extended,
                current_detent,
                feedback,
            ),
    {
        let cas_ckt: i64 = match cas {
            Some(c) => c.centiknots,
            None => 0,
        };
        if !(cas_ckt >= LOCK_ACTIVE_SPEED_CKT || gear_extended) {
            self.alpha_lock_engaged = false;
        } else {
            match aoa {
                Some(a) => {
                    if a.centidegrees > ALPHA_LOCK_ENGAGE_AOA_CDEG && current_detent
                        == Detent::Retracted && in_or_above_enlarged_target_range(
                        feedback,
                        Angle { centidegrees: DETENT1_SLAT_TARGET_CDEG },
                    ) {
                        self.alpha_lock_engaged = true;
                    } else if current_detent == Detent::OutOfDetent {
                        // the transitional lever state freezes the latch
                    } else {
                        self.alpha_lock_engaged = false;
                    }
                },
                None => {
                    self.alpha_lock_engaged = false;
                },
            }
        }
        if self.alpha_lock_engaged {
            self.lock_command_angle = Angle { centidegrees: DETENT1_SLAT_TARGET_CDEG };
        }
    }

    /// One baulk-lock evaluation; parameters as in `update_slat_alpha_lock`.
    pub fn update_slat_baulk(
        &mut self,
        cas: Option<Velocity>,
        gear_extended: bool,
        current_detent: Detent,
        feedback: Angle,
    )
        ensures
            *final(self) == spec_baulk_lock_after(
                *old(self),
                cas,
                gear_extended,
                current_detent,
                feedback,
            ),
    {
        match cas {
            None => {
                self.baulk_lock_engaged = false;
            },
            Some(c) => {
                if !(c.centiknots >= LOCK_ACTIVE_SPEED_CKT || gear_extended) {
                    self.baulk_lock_engaged = false;
                } else if c.centiknots < BAULK_LOCK_ENGAGE_SPEED_CKT && current_detent
                    == Detent::Retracted && in_or_above_enlarged_target_range(
                    feedback,
                    Angle { centidegrees: DETENT1_SLAT_TARGET_CDEG },
                ) {
                    self.baulk_lock_engaged = true;
                } else if current_detent == Detent::OutOfDetent {
                    // the transitional lever state freezes the latch
                } else {
                    self.baulk_lock_engaged = false;
                }
            },
        }
        if self.baulk_lock_engaged {
            self.lock_command_angle = Angle { centidegrees: DETENT1_SLAT_TARGET_CDEG };
        }
    }

    /// True while either latch commands the lock angle.
    pub fn retraction_inhibited(&self) -> (r: bool)
        ensures
            r == (self.alpha_lock_engaged || self.baulk_lock_engaged),
    {
        self.alpha_lock_engaged || self.baulk_lock_engaged
    }
}

/// Disengage-on-no-data law for the alpha lock: with the angle-of-attack
/// measurement entirely absent, one evaluation leaves the latch disengaged,
/// whatever the prior state, airspeed, gear position, lever detent or
/// feedback angle.
pub proof fn lemma_alpha_lock_disengages_without_angle_of_attack(
    s: LockState,
    cas: Option<Velocity>,
    gear_extended: bool,
    current_detent: Detent,
    feedback: Angle,
)
    ensures
        !spec_alpha_lock_after(
            s,
            None,
            cas,
            gear_extended,
            current_detent,
            feedback,
        ).alpha_lock_engaged,
{
}

/// Disengage-on-no-data law: with the airspeed measurement entirely absent,
/// one baulk-lock evaluation leaves the latch disengaged, whatever the
/// prior state, gear position, lever detent or feedback angle.
pub proof fn lemma_baulk_lock_disengages_without_airspeed(
    s: LockState,
    gear_extended: bool,
    current_detent: Detent,
    feedback: Angle,
)
    ensures
        !spec_baulk_lock_after(s, None, gear_extended, current_detent, feedback).baulk_lock_engaged,
{
}

} // verus!
