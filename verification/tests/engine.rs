use sfcc::arinc::SignStatus;
use sfcc::detent::Detent;
use sfcc::detent::DetentMonitor;
use sfcc::engine::generate_configuration;
use sfcc::engine::ConfigurationEngine;
use sfcc::engine::FlightConditions;
use sfcc::profile::Profile;
use sfcc::units::Altitude;
use sfcc::units::Angle;
use sfcc::units::Velocity;

fn conditions(centiknots: i64) -> FlightConditions {
    FlightConditions {
        indicated_airspeed: Velocity { centiknots },
        pressure_altitude: Altitude { centifeet: 500_000 },
        angle_of_attack: None,
        computed_airspeed: None,
        on_ground: false,
        in_flight: true,
        gear_extended: false,
    }
}

#[test]
fn test_detent_monitor_single_step_memory() {
    let mut monitor = DetentMonitor::new(Detent::Retracted);
    assert_eq!(monitor.get_current_detent(), Detent::Retracted);
    assert_eq!(monitor.get_previous_detent(), Detent::Retracted);
    monitor.update(Detent::Detent1);
    assert_eq!(monitor.get_previous_detent(), Detent::Retracted);
    assert_eq!(monitor.get_current_detent(), Detent::Detent1);
    monitor.update(Detent::OutOfDetent);
    assert_eq!(monitor.get_previous_detent(), Detent::Detent1);
    assert_eq!(monitor.get_current_detent(), Detent::OutOfDetent);
}

#[test]
fn test_narrow_body_flaps_lever_scenario() {
    // lever Retracted -> Detent1 at 90 kt: the full Detent1 target
    let mut engine = ConfigurationEngine::new(Profile::narrow_body_flaps(), Detent::Retracted);
    engine.update(Detent::Detent1, &conditions(9_000), false, Angle { centidegrees: 0 });
    assert_eq!(engine.get_demanded_angle(), Angle { centidegrees: 12022 });

    // held at Detent1 while airspeed rises past the upper threshold: zero
    engine.update(Detent::Detent1, &conditions(21_500), false, Angle { centidegrees: 0 });
    assert_eq!(engine.get_demanded_angle(), Angle { centidegrees: 0 });

    // Detent1 -> Detent2: the Detent2 nominal target, whatever the airspeed
    engine.update(Detent::Detent2, &conditions(21_500), false, Angle { centidegrees: 0 });
    assert_eq!(engine.get_demanded_angle(), Angle { centidegrees: 14551 });
}

#[test]
fn test_narrow_body_flaps_detent1_hysteresis() {
    let mut engine = ConfigurationEngine::new(Profile::narrow_body_flaps(), Detent::Retracted);
    engine.update(Detent::Detent1, &conditions(9_000), false, Angle { centidegrees: 0 });
    assert_eq!(engine.get_demanded_angle(), Angle { centidegrees: 12022 });

    // jitter straddling the 100 kt engage threshold: no oscillation
    for centiknots in [9_900i64, 10_100, 9_950, 10_050, 10_000] {
        engine.update(Detent::Detent1, &conditions(centiknots), false, Angle { centidegrees: 0 });
        assert_eq!(engine.get_demanded_angle(), Angle { centidegrees: 12022 });
    }

    // the transitional band up to 210 kt preserves the latched demand
    engine.update(Detent::Detent1, &conditions(21_000), false, Angle { centidegrees: 0 });
    assert_eq!(engine.get_demanded_angle(), Angle { centidegrees: 12022 });

    // only strictly above 210 kt does the demand relax to zero
    engine.update(Detent::Detent1, &conditions(21_001), false, Angle { centidegrees: 0 });
    assert_eq!(engine.get_demanded_angle(), Angle { centidegrees: 0 });

    // and slowing back below the engage threshold does not re-extend while
    // the lever is held: the retracted demand is latched
    engine.update(Detent::Detent1, &conditions(9_000), false, Angle { centidegrees: 0 });
    assert_eq!(engine.get_demanded_angle(), Angle { centidegrees: 0 });
}

#[test]
fn test_narrow_body_flaps_higher_detents() {
    let fc = conditions(15_000);
    let p = Profile::narrow_body_flaps();
    let zero = Angle { centidegrees: 0 };
    assert_eq!(
        generate_configuration(&p, Detent::Detent2, Detent::Detent3, &fc, false, zero),
        Angle { centidegrees: 16835 }
    );
    assert_eq!(
        generate_configuration(&p, Detent::Detent3, Detent::Full, &fc, false, zero),
        Angle { centidegrees: 25197 }
    );
    // holding a higher detent preserves the latched demand
    let latched = Angle { centidegrees: 16835 };
    assert_eq!(
        generate_configuration(&p, Detent::Detent3, Detent::Detent3, &fc, false, latched),
        latched
    );
    // the transitional lever states preserve the latched demand
    assert_eq!(
        generate_configuration(&p, Detent::Detent3, Detent::OutOfDetent, &fc, false, latched),
        latched
    );
    assert_eq!(
        generate_configuration(&p, Detent::Detent3, Detent::Fault, &fc, false, latched),
        latched
    );
}

#[test]
fn test_narrow_body_slats_targets() {
    let mut engine = ConfigurationEngine::new(Profile::narrow_body_slats(), Detent::Retracted);
    engine.update(Detent::Detent1, &conditions(25_000), false, Angle { centidegrees: 0 });
    assert_eq!(engine.get_demanded_angle(), Angle { centidegrees: 22227 });
    engine.update(Detent::Detent2, &conditions(25_000), false, Angle { centidegrees: 0 });
    assert_eq!(engine.get_demanded_angle(), Angle { centidegrees: 27227 });
    engine.update(Detent::Detent3, &conditions(25_000), false, Angle { centidegrees: 0 });
    assert_eq!(engine.get_demanded_angle(), Angle { centidegrees: 27227 });
    engine.update(Detent::Full, &conditions(25_000), false, Angle { centidegrees: 0 });
    assert_eq!(engine.get_demanded_angle(), Angle { centidegrees: 33416 });
    engine.update(Detent::Retracted, &conditions(25_000), false, Angle { centidegrees: 0 });
    assert_eq!(engine.get_demanded_angle(), Angle { centidegrees: 0 });
}

#[test]
fn test_wide_body_flaps_ground_snap_and_cruise_baulk() {
    let p = Profile::wide_body_flaps();
    let zero = Angle { centidegrees: 0 };

    // on the ground, entering Detent1 snaps to the full target even fast
    let mut on_ground = conditions(21_000);
    on_ground.on_ground = true;
    on_ground.in_flight = false;
    assert_eq!(
        generate_configuration(&p, Detent::Retracted, Detent::Detent1, &on_ground, false, zero),
        Angle { centidegrees: 10828 }
    );

    // above the cruise speed ceiling the surface is forced to zero
    assert_eq!(
        generate_configuration(&p, Detent::Detent1, Detent::Detent1, &conditions(26_600), false, zero),
        zero
    );

    // above the cruise altitude ceiling likewise, even at moderate speed
    let mut high = conditions(21_000);
    high.pressure_altitude = Altitude { centifeet: 2_250_000 };
    assert_eq!(
        generate_configuration(&p, Detent::Detent1, Detent::Detent1, &high, false, zero),
        zero
    );
}

#[test]
fn test_wide_body_flaps_alpha_speed_lock() {
    let p = Profile::wide_body_flaps();
    let latched = Angle { centidegrees: 10828 };

    // retracting in flight below the lock-in speed re-extends to the
    // Detent1 target instead of retracting
    assert_eq!(
        generate_configuration(&p, Detent::Detent1, Detent::Retracted, &conditions(15_400), false, latched),
        Angle { centidegrees: 10828 }
    );

    // retracting at high angle of attack likewise
    let mut high_aoa = conditions(16_000);
    high_aoa.angle_of_attack = Some(Angle { centidegrees: 960 });
    assert_eq!(
        generate_configuration(&p, Detent::Detent1, Detent::Retracted, &high_aoa, false, latched),
        Angle { centidegrees: 10828 }
    );

    // with the lock externally flagged active, the demand is held until
    // airspeed rises above the unlock threshold
    let mut locked = conditions(15_800);
    locked.angle_of_attack = Some(Angle { centidegrees: 930 });
    assert_eq!(
        generate_configuration(&p, Detent::Retracted, Detent::Retracted, &locked, true, latched),
        latched
    );
    assert_eq!(
        generate_configuration(&p, Detent::Retracted, Detent::Retracted, &conditions(16_200), true, latched),
        Angle { centidegrees: 0 }
    );

    // an absent angle of attack reads as zero, below the unlock threshold,
    // so the lock releases toward the safer state
    assert_eq!(
        generate_configuration(&p, Detent::Retracted, Detent::Retracted, &conditions(15_800), true, latched),
        Angle { centidegrees: 0 }
    );

    // retracting fast at low angle of attack retracts normally
    assert_eq!(
        generate_configuration(&p, Detent::Detent1, Detent::Retracted, &conditions(16_000), false, latched),
        Angle { centidegrees: 0 }
    );
}

#[test]
fn test_wide_body_flaps_load_relief_sub_targets() {
    let p = Profile::wide_body_flaps();

    // holding Detent2 above the relief speed relieves to the Detent1 target
    let relieved = generate_configuration(
        &p,
        Detent::Detent2,
        Detent::Detent2,
        &conditions(22_300),
        false,
        Angle { centidegrees: 15465 },
    );
    assert_eq!(relieved, Angle { centidegrees: 10828 });

    // once relieved, slowing below the deepen speed restores the nominal
    // Detent2 target
    assert_eq!(
        generate_configuration(&p, Detent::Detent2, Detent::Detent2, &conditions(21_700), false, relieved),
        Angle { centidegrees: 15465 }
    );

    // in between, the relieved sub-target persists
    assert_eq!(
        generate_configuration(&p, Detent::Detent2, Detent::Detent2, &conditions(22_000), false, relieved),
        relieved
    );

    // the same shape one detent deeper
    assert_eq!(
        generate_configuration(
            &p,
            Detent::Detent3,
            Detent::Detent3,
            &conditions(19_900),
            false,
            Angle { centidegrees: 19403 },
        ),
        Angle { centidegrees: 15465 }
    );
    assert_eq!(
        generate_configuration(
            &p,
            Detent::Full,
            Detent::Full,
            &conditions(18_500),
            false,
            Angle { centidegrees: 21891 },
        ),
        Angle { centidegrees: 19403 }
    );
}

#[test]
fn test_wide_body_slats_stay_extended_at_detent1() {
    let p = Profile::wide_body_slats();
    let zero = Angle { centidegrees: 0 };
    assert_eq!(
        generate_configuration(&p, Detent::Retracted, Detent::Detent1, &conditions(9_000), false, zero),
        Angle { centidegrees: 24727 }
    );
    // fast at Detent1 a slat surface keeps its extension target
    assert_eq!(
        generate_configuration(
            &p,
            Detent::Detent1,
            Detent::Detent1,
            &conditions(21_500),
            false,
            Angle { centidegrees: 24727 },
        ),
        Angle { centidegrees: 24727 }
    );
    // but the cruise baulk still forces it to zero
    assert_eq!(
        generate_configuration(
            &p,
            Detent::Detent1,
            Detent::Detent1,
            &conditions(26_600),
            false,
            Angle { centidegrees: 24727 },
        ),
        zero
    );
}

#[test]
fn test_actual_position_word_publishes_feedback() {
    let mut engine = ConfigurationEngine::new(Profile::narrow_body_flaps(), Detent::Retracted);
    engine.update(Detent::Detent1, &conditions(9_000), false, Angle { centidegrees: 12022 });
    assert_eq!(engine.get_feedback_angle(), Angle { centidegrees: 12022 });
    let word = engine.actual_position_word();
    assert_eq!(word.data(), 12022);
    assert_eq!(word.ssm(), SignStatus::NormalOperation);
    assert!(word.is_correct_parity());
    assert_eq!(word.normal_value(), Some(12022));
}
