//! Per-surface, per-airframe-variant rule tables for the configuration
//! engine.
//!
//! The four shipped state machines (flap and slat channel, narrow-body and
//! wide-body airframe) share one rule shape and differ only in their
//! threshold and target constants and in which optional rules are present.
//! A `Profile` captures one column of that table; it is selected once, at
//! engine construction.

use vstd::prelude::*;

verus! {

use crate::units::Altitude;
use crate::units::Angle;
use crate::units::Velocity;

/// The threshold and target constants of one surface on one airframe
/// variant, together with the flags that enable its optional rules.
///
/// Speed thresholds are compared exactly as the rule text states: a
/// `..._speed_max` gates an at-or-below comparison, a `..._speed_min` a
/// strictly-above one. A threshold field whose enabling flag is `false` is
/// never read.
#[derive(Clone, Copy, Debug)]
pub struct Profile {
    /// The Detent1 "full" target, reached when entering or holding Detent1
    /// while slow (or on the ground, where `ground_snap` is set).
    pub detent1_full_target: Angle,
    /// The target while fast at Detent1: zero for a flap surface, the full
    /// target again for a slat surface that never relaxes at Detent1.
    pub detent1_relaxed_target: Angle,
    /// Whether holding Detent1 (not only entering it from Retracted) also
    /// snaps back to the full target while slow.
    pub detent1_snap_from_held: bool,
    /// At or below this airspeed, entering Detent1 snaps to the full target.
    pub detent1_snap_speed_max: Velocity,
    /// Whether being on the ground also snaps Detent1 to the full target.
    pub ground_snap: bool,
    /// Strictly above this airspeed, holding Detent1 relaxes to the relaxed
    /// target; at or below it, the transitional band preserves the latched
    /// demand.
    pub detent1_relax_speed_min: Velocity,
    /// Cruise baulk: while nominally commanding Detent1, force the surface
    /// to zero beyond a high-speed or high-altitude ceiling.
    pub cruise_baulk: bool,
    /// Strictly above this airspeed the cruise baulk fires.
    pub cruise_baulk_speed_min: Velocity,
    /// Strictly above this altitude the cruise baulk fires.
    pub cruise_baulk_altitude_min: Altitude,
    /// Alpha-speed lock: on retraction toward Retracted while airborne,
    /// hold the Detent1 target until speed or angle of attack recovers.
    pub alpha_speed_lock: bool,
    /// Strictly above this airspeed an active lock releases.
    pub alpha_speed_lock_release_speed_min: Velocity,
    /// Strictly below this angle of attack an active lock releases.
    pub alpha_speed_lock_release_aoa_max: Angle,
    /// Strictly below this airspeed the lock engages on retraction.
    pub alpha_speed_lock_engage_speed_max: Velocity,
    /// Strictly above this angle of attack the lock engages on retraction.
    pub alpha_speed_lock_engage_aoa_min: Angle,
    /// Speed-graduated sub-targets within a held detent: above a
    /// load-relief speed the surface relieves to a shallower target, and
    /// only once relieved does a lower speed deepen it again.
    pub speed_sub_targets: bool,
    pub detent2_load_relief_speed_min: Velocity,
    pub detent2_shallow_target: Angle,
    pub detent2_deepen_speed_max: Velocity,
    pub detent3_load_relief_speed_min: Velocity,
    pub detent3_shallow_target: Angle,
    pub detent3_deepen_speed_max: Velocity,
    pub full_load_relief_speed_min: Velocity,
    pub full_shallow_target: Angle,
    pub full_deepen_speed_max: Velocity,
    /// Nominal targets taken when entering a higher detent.
    pub detent2_target: Angle,
    pub detent3_target: Angle,
    pub full_target: Angle,
}

/// The narrow-body flap channel: a plain two-threshold Detent1 hysteresis
/// band and fixed targets for the higher detents.
pub open spec fn spec_narrow_body_flaps() -> Profile {
    Profile {
        detent1_full_target: Angle { centidegrees: 12022 },
        detent1_relaxed_target: Angle { centidegrees: 0 },
        detent1_snap_from_held: false,
        detent1_snap_speed_max: Velocity { centiknots: 10000 },
        ground_snap: false,
        detent1_relax_speed_min: Velocity { centiknots: 21000 },
        cruise_baulk: false,
        cruise_baulk_speed_min: Velocity { centiknots: 0 },
        cruise_baulk_altitude_min: Altitude { centifeet: 0 },
        alpha_speed_lock: false,
        alpha_speed_lock_release_speed_min: Velocity { centiknots: 0 },
        alpha_speed_lock_release_aoa_max: Angle { centidegrees: 0 },
        alpha_speed_lock_engage_speed_max: Velocity { centiknots: 0 },
        alpha_speed_lock_engage_aoa_min: Angle { centidegrees: 0 },
        speed_sub_targets: false,
        detent2_load_relief_speed_min: Velocity { centiknots: 0 },
        detent2_shallow_target: Angle { centidegrees: 0 },
        detent2_deepen_speed_max: Velocity { centiknots: 0 },
        detent3_load_relief_speed_min: Velocity { centiknots: 0 },
        detent3_shallow_target: Angle { centidegrees: 0 },
        detent3_deepen_speed_max: Velocity { centiknots: 0 },
        full_load_relief_speed_min: Velocity { centiknots: 0 },
        full_shallow_target: Angle { centidegrees: 0 },
        full_deepen_speed_max: Velocity { centiknots: 0 },
        detent2_target: Angle { centidegrees: 14551 },
        detent3_target: Angle { centidegrees: 16835 },
        full_target: Angle { centidegrees: 25197 },
    }
}

/// The narrow-body slat channel: the lever position alone selects the
/// target. The speed thresholds sit above any attainable airspeed, so the
/// Detent1 rules extend unconditionally; the separate lock latches guard
/// retraction instead.
pub open spec fn spec_narrow_body_slats() -> Profile {
    Profile {
        detent1_full_target: Angle { centidegrees: 22227 },
        detent1_relaxed_target: Angle { centidegrees: 22227 },
        detent1_snap_from_held: true,
        detent1_snap_speed_max: Velocity { centiknots: i64::MAX },
        ground_snap: false,
        detent1_relax_speed_min: Velocity { centiknots: i64::MAX },
        cruise_baulk: false,
        cruise_baulk_speed_min: Velocity { centiknots: 0 },
        cruise_baulk_altitude_min: Altitude { centifeet: 0 },
        alpha_speed_lock: false,
        alpha_speed_lock_release_speed_min: Velocity { centiknots: 0 },
        alpha_speed_lock_release_aoa_max: Angle { centidegrees: 0 },
        alpha_speed_lock_engage_speed_max: Velocity { centiknots: 0 },
        alpha_speed_lock_engage_aoa_min: Angle { centidegrees: 0 },
        speed_sub_targets: false,
        detent2_load_relief_speed_min: Velocity { centiknots: 0 },
        detent2_shallow_target: Angle { centidegrees: 0 },
        detent2_deepen_speed_max: Velocity { centiknots: 0 },
        detent3_load_relief_speed_min: Velocity { centiknots: 0 },
        detent3_shallow_target: Angle { centidegrees: 0 },
        detent3_deepen_speed_max: Velocity { centiknots: 0 },
        full_load_relief_speed_min: Velocity { centiknots: 0 },
        full_shallow_target: Angle { centidegrees: 0 },
        full_deepen_speed_max: Velocity { centiknots: 0 },
        detent2_target: Angle { centidegrees: 27227 },
        detent3_target: Angle { centidegrees: 27227 },
        full_target: Angle { centidegrees: 33416 },
    }
}

/// The wide-body flap channel: ground snap, cruise baulk, alpha-speed lock
/// and speed-graduated sub-targets in every higher detent.
pub open spec fn spec_wide_body_flaps() -> Profile {
    Profile {
        detent1_full_target: Angle { centidegrees: 10828 },
        detent1_relaxed_target: Angle { centidegrees: 0 },
        detent1_snap_from_held: true,
        // the rule text reads "strictly below 205 kt": at or below 204.99
        detent1_snap_speed_max: Velocity { centiknots: 20499 },
        ground_snap: true,
        detent1_relax_speed_min: Velocity { centiknots: 21200 },
        cruise_baulk: true,
        cruise_baulk_speed_min: Velocity { centiknots: 26550 },
        cruise_baulk_altitude_min: Altitude { centifeet: 2_200_000 },
        alpha_speed_lock: true,
        alpha_speed_lock_release_speed_min: Velocity { centiknots: 16100 },
        alpha_speed_lock_release_aoa_max: Angle { centidegrees: 920 },
        alpha_speed_lock_engage_speed_max: Velocity { centiknots: 15500 },
        alpha_speed_lock_engage_aoa_min: Angle { centidegrees: 950 },
        speed_sub_targets: true,
        detent2_load_relief_speed_min: Velocity { centiknots: 22250 },
        detent2_shallow_target: Angle { centidegrees: 10828 },
        detent2_deepen_speed_max: Velocity { centiknots: 21750 },
        detent3_load_relief_speed_min: Velocity { centiknots: 19850 },
        detent3_shallow_target: Angle { centidegrees: 15465 },
        detent3_deepen_speed_max: Velocity { centiknots: 19350 },
        full_load_relief_speed_min: Velocity { centiknots: 18450 },
        full_shallow_target: Angle { centidegrees: 19403 },
        full_deepen_speed_max: Velocity { centiknots: 17950 },
        detent2_target: Angle { centidegrees: 15465 },
        detent3_target: Angle { centidegrees: 19403 },
        full_target: Angle { centidegrees: 21891 },
    }
}

/// The wide-body slat channel: the wide-body rule set, with a slat surface
/// that never relaxes at Detent1 and whose sub-target pairs coincide with
/// the nominal targets (the deepen thresholds are then immaterial).
pub open spec fn spec_wide_body_slats() -> Profile {
    Profile {
        detent1_full_target: Angle { centidegrees: 24727 },
        detent1_relaxed_target: Angle { centidegrees: 24727 },
        detent1_snap_from_held: true,
        detent1_snap_speed_max: Velocity { centiknots: 20499 },
        ground_snap: true,
        detent1_relax_speed_min: Velocity { centiknots: 21200 },
        cruise_baulk: true,
        cruise_baulk_speed_min: Velocity { centiknots: 26550 },
        cruise_baulk_altitude_min: Altitude { centifeet: 2_200_000 },
        alpha_speed_lock: true,
        alpha_speed_lock_release_speed_min: Velocity { centiknots: 16100 },
        alpha_speed_lock_release_aoa_max: Angle { centidegrees: 920 },
        alpha_speed_lock_engage_speed_max: Velocity { centiknots: 15500 },
        alpha_speed_lock_engage_aoa_min: Angle { centidegrees: 950 },
        speed_sub_targets: true,
        detent2_load_relief_speed_min: Velocity { centiknots: 22250 },
        detent2_shallow_target: Angle { centidegrees: 24727 },
        detent2_deepen_speed_max: Velocity { centiknots: 0 },
        detent3_load_relief_speed_min: Velocity { centiknots: 19850 },
        detent3_shallow_target: Angle { centidegrees: 28465 },
        detent3_deepen_speed_max: Velocity { centiknots: 0 },
        full_load_relief_speed_min: Velocity { centiknots: 18450 },
        full_shallow_target: Angle { centidegrees: 28465 },
        full_deepen_speed_max: Velocity { centiknots: 0 },
        detent2_target: Angle { centidegrees: 24727 },
        detent3_target: Angle { centidegrees: 28465 },
        full_target: Angle { centidegrees: 28465 },
    }
}

impl Profile {
    pub fn narrow_body_flaps() -> (p: Profile)
        ensures
            p == spec_narrow_body_flaps(),
    {
        Profile {
            detent1_full_target: Angle { centidegrees: 12022 },
            detent1_relaxed_target: Angle { centidegrees: 0 },
            detent1_snap_from_held: false,
            detent1_snap_speed_max: Velocity { centiknots: 10000 },
            ground_snap: false,
            detent1_relax_speed_min: Velocity { centiknots: 21000 },
            cruise_baulk: false,
            cruise_baulk_speed_min: Velocity { centiknots: 0 },
            cruise_baulk_altitude_min: Altitude { centifeet: 0 },
            alpha_speed_lock: false,
            alpha_speed_lock_release_speed_min: Velocity { centiknots: 0 },
            alpha_speed_lock_release_aoa_max: Angle { centidegrees: 0 },
            alpha_speed_lock_engage_speed_max: Velocity { centiknots: 0 },
            alpha_speed_lock_engage_aoa_min: Angle { centidegrees: 0 },
            speed_sub_targets: false,
            detent2_load_relief_speed_min: Velocity { centiknots: 0 },
            detent2_shallow_target: Angle { centidegrees: 0 },
            detent2_deepen_speed_max: Velocity { centiknots: 0 },
            detent3_load_relief_speed_min: Velocity { centiknots: 0 },
            detent3_shallow_target: Angle { centidegrees: 0 },
            detent3_deepen_speed_max: Velocity { centiknots: 0 },
            full_load_relief_speed_min: Velocity { centiknots: 0 },
            full_shallow_target: Angle { centidegrees: 0 },
            full_deepen_speed_max: Velocity { centiknots: 0 },
            detent2_target: Angle { centidegrees: 14551 },
            detent3_target: Angle { centidegrees: 16835 },
            full_target: Angle { centidegrees: 25197 },
        }
    }

    pub fn narrow_body_slats() -> (p: Profile)
        ensures
            p == spec_narrow_body_slats(),
    {
        Profile {
            detent1_full_target: Angle { centidegrees: 22227 },
            detent1_relaxed_target: Angle { centidegrees: 22227 },
            detent1_snap_from_held: true,
            detent1_snap_speed_max: Velocity { centiknots: i64::MAX },
            ground_snap: false,
            detent1_relax_speed_min: Velocity { centiknots: i64::MAX },
            cruise_baulk: false,
            cruise_baulk_speed_min: Velocity { centiknots: 0 },
            cruise_baulk_altitude_min: Altitude { centifeet: 0 },
            alpha_speed_lock: false,
            alpha_speed_lock_release_speed_min: Velocity { centiknots: 0 },
            alpha_speed_lock_release_aoa_max: Angle { centidegrees: 0 },
            alpha_speed_lock_engage_speed_max: Velocity { centiknots: 0 },
            alpha_speed_lock_engage_aoa_min: Angle { centidegrees: 0 },
            speed_sub_targets: false,
            detent2_load_relief_speed_min: Velocity { centiknots: 0 },
            detent2_shallow_target: Angle { centidegrees: 0 },
            detent2_deepen_speed_max: Velocity { centiknots: 0 },
            detent3_load_relief_speed_min: Velocity { centiknots: 0 },
            detent3_shallow_target: Angle { centidegrees: 0 },
            detent3_deepen_speed_max: Velocity { centiknots: 0 },
            full_load_relief_speed_min: Velocity { centiknots: 0 },
            full_shallow_target: Angle { centidegrees: 0 },
            full_deepen_speed_max: Velocity { centiknots: 0 },
            detent2_target: Angle { centidegrees: 27227 },
            detent3_target: Angle { centidegrees: 27227 },
            full_target: Angle { centidegrees: 33416 },
        }
    }

    pub fn wide_body_flaps() -> (p: Profile)
        ensures
            p == spec_wide_body_flaps(),
    {
        Profile {
            detent1_full_target: Angle { centidegrees: 10828 },
            detent1_relaxed_target: Angle { centidegrees: 0 },
            detent1_snap_from_held: true,
            detent1_snap_speed_max: Velocity { centiknots: 20499 },
            ground_snap: true,
            detent1_relax_speed_min: Velocity { centiknots: 21200 },
            cruise_baulk: true,
            cruise_baulk_speed_min: Velocity { centiknots: 26550 },
            cruise_baulk_altitude_min: Altitude { centifeet: 2_200_000 },
            alpha_speed_lock: true,
            alpha_speed_lock_release_speed_min: Velocity { centiknots: 16100 },
            alpha_speed_lock_release_aoa_max: Angle { centidegrees: 920 },
            alpha_speed_lock_engage_speed_max: Velocity { centiknots: 15500 },
            alpha_speed_lock_engage_aoa_min: Angle { centidegrees: 950 },
            speed_sub_targets: true,
            detent2_load_relief_speed_min: Velocity { centiknots: 22250 },
            detent2_shallow_target: Angle { centidegrees: 10828 },
            detent2_deepen_speed_max: Velocity { centiknots: 21750 },
            detent3_load_relief_speed_min: Velocity { centiknots: 19850 },
            detent3_shallow_target: Angle { centidegrees: 15465 },
            detent3_deepen_speed_max: Velocity { centiknots: 19350 },
            full_load_relief_speed_min: Velocity { centiknots: 18450 },
            full_shallow_target: Angle { centidegrees: 19403 },
            full_deepen_speed_max: Velocity { centiknots: 17950 },
            detent2_target: Angle { centidegrees: 15465 },
            detent3_target: Angle { centidegrees: 19403 },
            full_target: Angle { centidegrees: 21891 },
        }
    }

    pub fn wide_body_slats() -> (p: Profile)
        ensures
            p == spec_wide_body_slats(),
    {
        Profile {
            detent1_full_target: Angle { centidegrees: 24727 },
            detent1_relaxed_target: Angle { centidegrees: 24727 },
            detent1_snap_from_held: true,
            detent1_snap_speed_max: Velocity { centiknots: 20499 },
            ground_snap: true,
            detent1_relax_speed_min: Velocity { centiknots: 21200 },
            cruise_baulk: true,
            cruise_baulk_speed_min: Velocity { centiknots: 26550 },
            cruise_baulk_altitude_min: Altitude { centifeet: 2_200_000 },
            alpha_speed_lock: true,
            alpha_speed_lock_release_speed_min: Velocity { centiknots: 16100 },
            alpha_speed_lock_release_aoa_max: Angle { centidegrees: 920 },
            alpha_speed_lock_engage_speed_max: Velocity { centiknots: 15500 },
            alpha_speed_lock_engage_aoa_min: Angle { centidegrees: 950 },
            speed_sub_targets: true,
            detent2_load_relief_speed_min: Velocity { centiknots: 22250 },
            detent2_shallow_target: Angle { centidegrees: 24727 },
            detent2_deepen_speed_max: Velocity { centiknots: 0 },
            detent3_load_relief_speed_min: Velocity { centiknots: 19850 },
            detent3_shallow_target: Angle { centidegrees: 28465 },
            detent3_deepen_speed_max: Velocity { centiknots: 0 },
            full_load_relief_speed_min: Velocity { centiknots: 18450 },
            full_shallow_target: Angle { centidegrees: 28465 },
            full_deepen_speed_max: Velocity { centiknots: 0 },
            detent2_target: Angle { centidegrees: 24727 },
            detent3_target: Angle { centidegrees: 28465 },
            full_target: Angle { centidegrees: 28465 },
        }
    }
}

} // verus!
