use sfcc::detent::Detent;
use sfcc::lock::in_or_above_enlarged_target_range;
use sfcc::lock::resolve_angle_of_attack;
use sfcc::lock::resolve_computed_airspeed;
use sfcc::lock::LockState;
use sfcc::units::Angle;
use sfcc::units::Velocity;

fn extended_feedback() -> Angle {
    Angle { centidegrees: 22200 }
}

#[test]
fn test_baulk_lock_engages_at_low_speed() {
    let mut locks = LockState::new();
    locks.update_slat_baulk(
        Some(Velocity { centiknots: 14_000 }),
        false,
        Detent::Retracted,
        extended_feedback(),
    );
    assert!(locks.baulk_lock_engaged);
    assert_eq!(locks.lock_command_angle, Angle { centidegrees: 22227 });
    assert!(locks.retraction_inhibited());
}

#[test]
fn test_baulk_lock_disengages_without_airspeed() {
    // airspeed measurement absent and gear retracted: always disengaged,
    // whatever the prior state
    let mut locks = LockState {
        alpha_lock_engaged: false,
        baulk_lock_engaged: true,
        lock_command_angle: Angle { centidegrees: 22227 },
    };
    locks.update_slat_baulk(None, false, Detent::Retracted, extended_feedback());
    assert!(!locks.baulk_lock_engaged);

    let mut locks = LockState {
        alpha_lock_engaged: false,
        baulk_lock_engaged: true,
        lock_command_angle: Angle { centidegrees: 22227 },
    };
    locks.update_slat_baulk(None, true, Detent::Retracted, extended_feedback());
    assert!(!locks.baulk_lock_engaged);
}

#[test]
fn test_baulk_lock_disengages_when_not_qualifying() {
    let mut locks = LockState {
        alpha_lock_engaged: false,
        baulk_lock_engaged: true,
        lock_command_angle: Angle { centidegrees: 22227 },
    };
    // below the qualifying speed floor and gear retracted
    locks.update_slat_baulk(
        Some(Velocity { centiknots: 5_000 }),
        false,
        Detent::Retracted,
        extended_feedback(),
    );
    assert!(!locks.baulk_lock_engaged);
}

#[test]
fn test_baulk_lock_freezes_out_of_detent_and_releases_fast() {
    let mut locks = LockState::new();
    locks.update_slat_baulk(
        Some(Velocity { centiknots: 14_000 }),
        true,
        Detent::Retracted,
        extended_feedback(),
    );
    assert!(locks.baulk_lock_engaged);

    // the transitional lever state preserves the latch unchanged
    locks.update_slat_baulk(
        Some(Velocity { centiknots: 20_000 }),
        true,
        Detent::OutOfDetent,
        extended_feedback(),
    );
    assert!(locks.baulk_lock_engaged);

    // back at Retracted above the release speed the latch disengages
    locks.update_slat_baulk(
        Some(Velocity { centiknots: 15_500 }),
        true,
        Detent::Retracted,
        extended_feedback(),
    );
    assert!(!locks.baulk_lock_engaged);
    // the command angle keeps its last value; only the latch drops
    assert_eq!(locks.lock_command_angle, Angle { centidegrees: 22227 });
}

#[test]
fn test_baulk_lock_needs_surface_in_enlarged_range() {
    let mut locks = LockState::new();
    // surface still short of the enlarged Detent1 range: no engagement
    locks.update_slat_baulk(
        Some(Velocity { centiknots: 14_000 }),
        true,
        Detent::Retracted,
        Angle { centidegrees: 22_146 },
    );
    assert!(!locks.baulk_lock_engaged);
}

#[test]
fn test_alpha_lock_engages_at_high_angle_of_attack() {
    let mut locks = LockState::new();
    locks.update_slat_alpha_lock(
        Some(Angle { centidegrees: 800 }),
        Some(Velocity { centiknots: 14_000 }),
        false,
        Detent::Retracted,
        extended_feedback(),
    );
    assert!(locks.alpha_lock_engaged);
    assert_eq!(locks.lock_command_angle, Angle { centidegrees: 22227 });

    // the transitional lever state preserves the latch
    locks.update_slat_alpha_lock(
        Some(Angle { centidegrees: 700 }),
        Some(Velocity { centiknots: 14_000 }),
        false,
        Detent::OutOfDetent,
        extended_feedback(),
    );
    assert!(locks.alpha_lock_engaged);

    // back at Retracted with the angle of attack below the release
    // threshold the latch disengages
    locks.update_slat_alpha_lock(
        Some(Angle { centidegrees: 700 }),
        Some(Velocity { centiknots: 14_000 }),
        false,
        Detent::Retracted,
        extended_feedback(),
    );
    assert!(!locks.alpha_lock_engaged);
}

#[test]
fn test_alpha_lock_disengages_without_angle_of_attack() {
    let mut locks = LockState {
        alpha_lock_engaged: true,
        baulk_lock_engaged: false,
        lock_command_angle: Angle { centidegrees: 22227 },
    };
    locks.update_slat_alpha_lock(
        None,
        Some(Velocity { centiknots: 14_000 }),
        false,
        Detent::Retracted,
        extended_feedback(),
    );
    assert!(!locks.alpha_lock_engaged);
}

#[test]
fn test_alpha_lock_qualifies_on_gear_when_slow() {
    let mut locks = LockState::new();
    // airspeed below the floor, but both gears extended still qualify
    locks.update_slat_alpha_lock(
        Some(Angle { centidegrees: 800 }),
        Some(Velocity { centiknots: 5_000 }),
        true,
        Detent::Retracted,
        extended_feedback(),
    );
    assert!(locks.alpha_lock_engaged);

    // and with the gear up as well, the qualifying condition fails
    let mut locks = LockState::new();
    locks.update_slat_alpha_lock(
        Some(Angle { centidegrees: 800 }),
        Some(Velocity { centiknots: 5_000 }),
        false,
        Detent::Retracted,
        extended_feedback(),
    );
    assert!(!locks.alpha_lock_engaged);
}

#[test]
fn test_resolve_angle_of_attack_takes_lower() {
    let low = Angle { centidegrees: 700 };
    let high = Angle { centidegrees: 900 };
    assert_eq!(resolve_angle_of_attack(Some(low), Some(high)), Some(low));
    assert_eq!(resolve_angle_of_attack(Some(high), Some(low)), Some(low));
    assert_eq!(resolve_angle_of_attack(Some(high), None), Some(high));
    assert_eq!(resolve_angle_of_attack(None, Some(low)), Some(low));
    assert_eq!(resolve_angle_of_attack(None, None), None);
}

#[test]
fn test_resolve_computed_airspeed_takes_higher() {
    let slow = Velocity { centiknots: 13_000 };
    let fast = Velocity { centiknots: 15_000 };
    assert_eq!(resolve_computed_airspeed(Some(slow), Some(fast)), Some(fast));
    assert_eq!(resolve_computed_airspeed(Some(fast), Some(slow)), Some(fast));
    assert_eq!(resolve_computed_airspeed(Some(slow), None), Some(slow));
    assert_eq!(resolve_computed_airspeed(None, Some(fast)), Some(fast));
    assert_eq!(resolve_computed_airspeed(None, None), None);
}

#[test]
fn test_enlarged_target_range_boundaries() {
    let target = Angle { centidegrees: 22227 };
    assert!(in_or_above_enlarged_target_range(Angle { centidegrees: 22_147 }, target));
    assert!(!in_or_above_enlarged_target_range(Angle { centidegrees: 22_146 }, target));
    assert!(in_or_above_enlarged_target_range(Angle { centidegrees: 30_000 }, target));
}
