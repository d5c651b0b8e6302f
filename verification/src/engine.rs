//! The configuration engine: a memory-bearing state machine that turns the
//! detent pair, the flight-condition snapshot and its own latched previous
//! demand into a new demanded surface angle.
//!
//! The rule table is evaluated in a fixed priority order; the first matching
//! guarded rule wins, and any unmatched combination preserves the latched
//! demand. Boundary equality routes exactly as each guard is written, since
//! flicker at an exact threshold is the failure mode this design guards
//! against.

use vstd::prelude::*;

verus! {

use crate::arinc::Arinc429WordBetter;
use crate::arinc::SignStatus;
use crate::detent::Detent;
use crate::detent::DetentMonitor;
use crate::profile::Profile;
use crate::units::Altitude;
use crate::units::Angle;
use crate::units::Velocity;

/// One read-only snapshot of the flight conditions, taken per update cycle.
/// A measurement that can be invalid arrives as `None` ("no data").
#[derive(Clone, Copy, Debug)]
pub struct FlightConditions {
    pub indicated_airspeed: Velocity,
    pub pressure_altitude: Altitude,
    pub angle_of_attack: Option<Angle>,
    pub computed_airspeed: Option<Velocity>,
    pub on_ground: bool,
    pub in_flight: bool,
    pub gear_extended: bool,
}

pub open spec fn spec_zero_angle() -> Angle {
    Angle { centidegrees: 0 }
}

/// The angle of attack, with an absent measurement read as zero — which
/// leaves every "above" lock-engage condition unsatisfied and satisfies
/// every "below" lock-release condition, the conservative direction.
pub open spec fn spec_aoa_or_zero(fc: FlightConditions) -> Angle {
    match fc.angle_of_attack {
        Some(a) => a,
        None => Angle { centidegrees: 0 },
    }
}

/// The sub-table shared by the higher detents (2, 3 and Full). In order:
/// load relief above the relief speed when entering from below or holding;
/// once relieved, deepening again below the deepen speed; a nominal snap on
/// entering the detent; otherwise the latched demand is preserved.
pub open spec fn spec_graded_detent_demand(
    sub_targets: bool,
    from_below_or_held: bool,
    held: bool,
    load_relief_speed_min: Velocity,
    shallow_target: Angle,
    deepen_speed_max: Velocity,
    nominal_target: Angle,
    ias: Velocity,
    last_demanded: Angle,
) -> Angle {
    if sub_targets && from_below_or_held && ias.centiknots > load_relief_speed_min.centiknots {
        shallow_target
    } else if sub_targets && held && last_demanded == shallow_target {
        if ias.centiknots < deepen_speed_max.centiknots {
            nominal_target
        } else {
            shallow_target
        }
    } else if !held {
        nominal_target
    } else {
        last_demanded
    }
}

/// The demanded angle after one evaluation of the rule table: the heart of
/// the control law. `previous` and `current` are the detent pair of this
/// cycle, `last_demanded` the engine's own latched previous output.
pub open spec fn demanded_after(
    p: Profile,
    previous: Detent,
    current: Detent,
    fc: FlightConditions,
    alpha_speed_lock_active: bool,
    last_demanded: Angle,
) -> Angle {
    let ias = fc.indicated_airspeed;
    let alt = fc.pressure_altitude;
    let aoa = spec_aoa_or_zero(fc);
    match current {
        Detent::Detent1 => {
            if (previous is Retracted || (p.detent1_snap_from_held && previous is Detent1)) && (
            ias.centiknots <= p.detent1_snap_speed_max.centiknots || (p.ground_snap
                && fc.on_ground)) {
                p.detent1_full_target
            } else if p.cruise_baulk && (previous is Retracted || previous is Detent1) && (
            ias.centiknots > p.cruise_baulk_speed_min.centiknots || alt.centifeet
                > p.cruise_baulk_altitude_min.centifeet) {
                spec_zero_angle()
            } else if previous is Retracted {
                p.detent1_relaxed_target
            } else if previous is Detent1 && ias.centiknots > p.detent1_relax_speed_min.centiknots {
                p.detent1_relaxed_target
            } else if previous is Detent1 {
                last_demanded
            } else if ias.centiknots <= p.detent1_relax_speed_min.centiknots {
                p.detent1_full_target
            } else {
                p.detent1_relaxed_target
            }
        },
        Detent::Retracted => {
            if p.alpha_speed_lock && fc.in_flight && alpha_speed_lock_active {
                if ias.centiknots > p.alpha_speed_lock_release_speed_min.centiknots
                    || aoa.centidegrees < p.alpha_speed_lock_release_aoa_max.centidegrees {
                    spec_zero_angle()
                } else {
                    last_demanded
                }
            } else if p.alpha_speed_lock && fc.in_flight && (previous is Detent1
                || previous is Detent2 || previous is Detent3 || previous is Full) && (
            ias.centiknots < p.alpha_speed_lock_engage_speed_max.centiknots || aoa.centidegrees
                > p.alpha_speed_lock_engage_aoa_min.centidegrees) {
                p.detent1_full_target
            } else {
                spec_zero_angle()
            }
        },
        Detent::Detent2 => spec_graded_detent_demand(
            p.speed_sub_targets,
            previous is Detent1 || previous is Detent2,
            previous is Detent2,
            p.detent2_load_relief_speed_min,
            p.detent2_shallow_target,
            p.detent2_deepen_speed_max,
            p.detent2_target,
            ias,
            last_demanded,
        ),
        Detent::Detent3 => spec_graded_detent_demand(
            p.speed_sub_targets,
            previous is Detent2 || previous is Detent3,
            previous is Detent3,
            p.detent3_load_relief_speed_min,
            p.detent3_shallow_target,
            p.detent3_deepen_speed_max,
            p.detent3_target,
            ias,
            last_demanded,
        ),
        Detent::Full => spec_graded_detent_demand(
            p.speed_sub_targets,
            previous is Detent3 || previous is Full,
            previous is Full,
            p.full_load_relief_speed_min,
            p.full_shallow_target,
            p.full_deepen_speed_max,
            p.full_target,
            ias,
            last_demanded,
        ),
        Detent::OutOfDetent => last_demanded,
        Detent::Fault => last_demanded,
    }
}

/// Executable mirror of `spec_graded_detent_demand`.
fn graded_detent_demand(
    sub_targets: bool,
    from_below_or_held: bool,
    held: bool,
    load_relief_speed_min: Velocity,
    shallow_target: Angle,
    deepen_speed_max: Velocity,
    nominal_target: Angle,
    ias: Velocity,
    last_demanded: Angle,
) -> (a: Angle)
    ensures
        a == spec_graded_detent_demand(
            sub_targets,
            from_below_or_held,
            held,
            load_relief_speed_min,
            shallow_target,
            deepen_speed_max,
            nominal_target,
            ias,
            last_demanded,
        ),
{
    if sub_targets && from_below_or_held && ias.centiknots > load_relief_speed_min.centiknots {
        shallow_target
    } else if sub_targets && held && last_demanded == shallow_target {
        if ias.centiknots < deepen_speed_max.centiknots {
            nominal_target
        } else {
            shallow_target
        }
    } else if !held {
        nominal_target
    } else {
        last_demanded
    }
}

/// One evaluation of the rule table, exactly as `demanded_after` states it.
pub fn generate_configuration(
    p: &Profile,
    previous: Detent,
    current: Detent,
    fc: &FlightConditions,
    alpha_speed_lock_active: bool,
    last_demanded: Angle,
) -> (a: Angle)
    ensures
        a == demanded_after(*p, previous, current, *fc, alpha_speed_lock_active, last_demanded),
{
    let ias = fc.indicated_airspeed;
    let alt = fc.pressure_altitude;
    let aoa = match fc.angle_of_attack {
        Some(a) => a,
        None => Angle { centidegrees: 0 },
    };
    match current {
        Detent::Detent1 => {
            if (previous == Detent::Retracted || (p.detent1_snap_from_held && previous
                == Detent::Detent1)) && (ias.centiknots <= p.detent1_snap_speed_max.centiknots || (
            p.ground_snap && fc.on_ground)) {
                p.detent1_full_target
            } else if p.cruise_baulk && (previous == Detent::Retracted || previous
                == Detent::Detent1) && (ias.centiknots > p.cruise_baulk_speed_min.centiknots
                || alt.centifeet > p.cruise_baulk_altitude_min.centifeet) {
                Angle { centidegrees: 0 }
            } else if previous == Detent::Retracted {
                p.detent1_relaxed_target
            } else if previous == Detent::Detent1 && ias.centiknots
                > p.detent1_relax_speed_min.centiknots {
                p.detent1_relaxed_target
            } else if previous == Detent::Detent1 {
                last_demanded
            } else if ias.centiknots <= p.detent1_relax_speed_min.centiknots {
                p.detent1_full_target
            } else {
                p.detent1_relaxed_target
            }
        },
        Detent::Retracted => {
            if p.alpha_speed_lock && fc.in_flight && alpha_speed_lock_active {
                if ias.centiknots > p.alpha_speed_lock_release_speed_min.centiknots
                    || aoa.centidegrees < p.alpha_speed_lock_release_aoa_max.centidegrees {
                    Angle { centidegrees: 0 }
                } else {
                    last_demanded
                }
            } else if p.alpha_speed_lock && fc.in_flight && (previous == Detent::Detent1 || previous
                == Detent::Detent2 || previous == Detent::Detent3 || previous == Detent::Full) && (
            ias.centiknots < p.alpha_speed_lock_engage_speed_max.centiknots || aoa.centidegrees
                > p.alpha_speed_lock_engage_aoa_min.centidegrees) {
                p.detent1_full_target
            } else {
                Angle { centidegrees: 0 }
            }
        },
        Detent::Detent2 => graded_detent_demand(
            p.speed_sub_targets,
            previous == Detent::Detent1 || previous == Detent::Detent2,
            previous == Detent::Detent2,
            p.detent2_load_relief_speed_min,
            p.detent2_shallow_target,
            p.detent2_deepen_speed_max,
            p.detent2_target,
            ias,
            last_demanded,
        ),
        Detent::Detent3 => graded_detent_demand(
            p.speed_sub_targets,
            previous == Detent::Detent2 || previous == Detent::Detent3,
            previous == Detent::Detent3,
            p.detent3_load_relief_speed_min,
            p.detent3_shallow_target,
            p.detent3_deepen_speed_max,
            p.detent3_target,
            ias,
            last_demanded,
        ),
        Detent::Full => graded_detent_demand(
            p.speed_sub_targets,
            previous == Detent::Detent3 || previous == Detent::Full,
            previous == Detent::Full,
            p.full_load_relief_speed_min,
            p.full_shallow_target,
            p.full_deepen_speed_max,
            p.full_target,
            ias,
            last_demanded,
        ),
        Detent::OutOfDetent => last_demanded,
        Detent::Fault => last_demanded,
    }
}

/// One surface's control-law engine: the rule table selected at
/// construction, the detent monitor, and the latched demanded angle that
/// makes the machine a Mealy machine rather than a pure function of the
/// current inputs.
#[derive(Clone, Copy, Debug)]
pub struct ConfigurationEngine {
    pub profile: Profile,
    pub monitor: DetentMonitor,
    pub demanded_angle: Angle,
    pub feedback_angle: Angle,
}

impl ConfigurationEngine {
    pub fn new(profile: Profile, initial_detent: Detent) -> (e: ConfigurationEngine)
        ensures
            e.profile == profile,
            e.monitor.current == initial_detent,
            e.monitor.previous == initial_detent,
            e.demanded_angle.centidegrees == 0,
            e.feedback_angle.centidegrees == 0,
    {
        ConfigurationEngine {
            profile,
            monitor: DetentMonitor::new(initial_detent),
            demanded_angle: Angle { centidegrees: 0 },
            feedback_angle: Angle { centidegrees: 0 },
        }
    }

    /// Advances exactly one cycle: the detent monitor shifts first, then the
    /// rule table is evaluated over the fresh detent pair and the latched
    /// demand, and last the feedback angle reported by the position pick-off
    /// unit is stored for publication.
    pub fn update(
        &mut self,
        lever: Detent,
        fc: &FlightConditions,
        alpha_speed_lock_active: bool,
        feedback: Angle,
    )
        ensures
            final(self).profile == old(self).profile,
            final(self).monitor.previous == old(self).monitor.current,
            final(self).monitor.current == lever,
            final(self).demanded_angle == demanded_after(
                old(self).profile,
                old(self).monitor.current,
                lever,
                *fc,
                alpha_speed_lock_active,
                old(self).demanded_angle,
            ),
            final(self).feedback_angle == feedback,
    {
        self.monitor.update(lever);
        let demanded = generate_configuration(
            &self.profile,
            self.monitor.get_previous_detent(),
            self.monitor.get_current_detent(),
            fc,
            alpha_speed_lock_active,
            self.demanded_angle,
        );
        self.demanded_angle = demanded;
        self.feedback_angle = feedback;
    }

    pub fn get_demanded_angle(&self) -> (a: Angle)
        ensures
            a == self.demanded_angle,
    {
        self.demanded_angle
    }

    pub fn get_feedback_angle(&self) -> (a: Angle)
        ensures
            a == self.feedback_angle,
    {
        self.feedback_angle
    }

    pub fn get_detent_monitor(&self) -> (m: DetentMonitor)
        ensures
            m == self.monitor,
    {
        self.monitor
    }

    /// The status word publishing the feedback angle: the angle in
    /// centidegrees as the data payload, tagged as normal operation. The
    /// payload field is nineteen bits wide, a transport limit the caller
    /// must respect.
    pub fn actual_position_word(&self) -> (w: Arinc429WordBetter)
        requires
            0 <= self.feedback_angle.centidegrees < 0x8_0000,
        ensures
            w == Arinc429WordBetter::spec_encode(
                self.feedback_angle.centidegrees as u32,
                SignStatus::NormalOperation,
                0,
                0,
            ),
            w.data == self.feedback_angle.centidegrees,
            w.ssm is NormalOperation,
            w.wf(),
            w.encoded(),
    {
        Arinc429WordBetter::new(
            self.feedback_angle.centidegrees as u32,
            SignStatus::NormalOperation,
        )
    }
}

/// Hysteresis law, holding part: with the lever held at Detent1 and a
/// full-extension demand latched, any airspeed at or below the relax
/// threshold (and within the cruise-baulk ceilings, where that rule exists)
/// leaves the demand unchanged. In particular, airspeed jitter straddling
/// the lower snap threshold cannot make the demand oscillate.
pub proof fn lemma_detent1_hold(
    p: Profile,
    fc: FlightConditions,
    alpha_speed_lock_active: bool,
    last: Angle,
)
    requires
        fc.indicated_airspeed.centiknots <= p.detent1_relax_speed_min.centiknots,
        p.cruise_baulk ==> fc.indicated_airspeed.centiknots <= p.cruise_baulk_speed_min.centiknots
            && fc.pressure_altitude.centifeet <= p.cruise_baulk_altitude_min.centifeet,
        last == p.detent1_full_target,
    ensures
        demanded_after(p, Detent::Detent1, Detent::Detent1, fc, alpha_speed_lock_active, last)
            == p.detent1_full_target,
{
}

/// Hysteresis law, relaxing part: with the lever held at Detent1, the
/// demand leaves the full target exactly when airspeed rises strictly above
/// the relax threshold — to zero where the cruise baulk fires, and to the
/// relaxed target otherwise.
pub proof fn lemma_detent1_relax(
    p: Profile,
    fc: FlightConditions,
    alpha_speed_lock_active: bool,
    last: Angle,
)
    requires
        fc.indicated_airspeed.centiknots > p.detent1_relax_speed_min.centiknots,
        p.detent1_snap_speed_max.centiknots <= p.detent1_relax_speed_min.centiknots,
        !(p.ground_snap && fc.on_ground),
    ensures
        demanded_after(p, Detent::Detent1, Detent::Detent1, fc, alpha_speed_lock_active, last) == (
        if p.cruise_baulk && (fc.indicated_airspeed.centiknots
            > p.cruise_baulk_speed_min.centiknots || fc.pressure_altitude.centifeet
            > p.cruise_baulk_altitude_min.centifeet) {
            spec_zero_angle()
        } else {
            p.detent1_relaxed_target
        }),
{
}

} // verus!
