use fibertract::{FiberTractKind, LimbProfile, ReceptorMode};

#[test]
fn hand_profile_builds() {
    let profile = LimbProfile::hand("left");
    let bundle = profile.build();

    assert_eq!(bundle.name, "left_hand");
    assert!(bundle.tract_count() >= 5);
    assert!(bundle.motor_tracts().len() >= 1);
    assert!(bundle.sensory_tracts().len() >= 3);

    let mechano = bundle.tract(FiberTractKind::Mechanoreceptive).unwrap();
    assert_eq!(mechano.dim, 64);
    assert_eq!(mechano.sensitivity, 230);
}

#[test]
fn vocal_tract_is_precise() {
    let profile = LimbProfile::vocal_tract();
    let bundle = profile.build();

    let motor = bundle.tract(FiberTractKind::MotorSkeletal).unwrap();
    assert!(motor.jitter < 30, "vocal motor jitter should be very low");
    assert!(motor.elasticity > 240, "vocal elasticity should be near-instant");
}

#[test]
fn gaze_has_no_pain() {
    let profile = LimbProfile::gaze();
    let bundle = profile.build();

    assert!(
        bundle.tract(FiberTractKind::NociceptiveFast).is_none(),
        "eye muscles have no pain fibers"
    );
    assert!(
        bundle.tract(FiberTractKind::NociceptiveSlow).is_none(),
        "eye muscles have no pain fibers"
    );
}

#[test]
fn leg_stronger_than_hand() {
    let hand = LimbProfile::hand("right").build();
    let leg = LimbProfile::leg("right").build();

    let hand_motor = hand.tract(FiberTractKind::MotorSkeletal).unwrap();
    let leg_motor = leg.tract(FiberTractKind::MotorSkeletal).unwrap();

    assert!(leg_motor.strength > hand_motor.strength, "legs should be stronger than hands");
    assert!(hand_motor.jitter < leg_motor.jitter, "hands should have less jitter than legs");
}

#[test]
fn all_profiles_build_successfully() {
    let profiles = vec![
        LimbProfile::hand("left"),
        LimbProfile::hand("right"),
        LimbProfile::arm("left"),
        LimbProfile::arm("right"),
        LimbProfile::leg("left"),
        LimbProfile::leg("right"),
        LimbProfile::vocal_tract(),
        LimbProfile::gaze(),
        LimbProfile::torso(),
    ];

    for profile in profiles {
        let bundle = profile.build();
        assert!(!bundle.name.is_empty());
        assert!(bundle.tract_count() > 0);
    }
}

#[test]
fn built_tracts_take_defaults_where_unset() {
    let bundle = LimbProfile::arm("left").build();
    let spindle = bundle.tract(FiberTractKind::MotorSpindle).unwrap();
    assert_eq!(spindle.gain, 160);
    assert_eq!(spindle.conductivity, 128);
    assert_eq!(spindle.fatigue, 0);
    assert_eq!(spindle.receptor_mode, ReceptorMode::Phasic);
    assert_eq!(spindle.dim, 8);
    assert_eq!(spindle.motor_signals.len(), 8);

    let intero = bundle.tract(FiberTractKind::Interoceptive).unwrap();
    assert_eq!(intero.gain, 100);
    assert_eq!(intero.sensory_signals.len(), 4);
}

#[test]
fn spec_overrides_apply_to_built_tract() {
    let mut spec_list = LimbProfile::torso();
    spec_list.tracts[0].receptor_mode = Some(ReceptorMode::Tonic);
    let bundle = spec_list.build();
    let motor = bundle.tract(FiberTractKind::MotorSkeletal).unwrap();
    assert_eq!(motor.gain, 170);
    assert_eq!(motor.strength, 200);
    assert_eq!(motor.endurance, 230);
    assert_eq!(motor.receptor_mode, ReceptorMode::Tonic);
}
