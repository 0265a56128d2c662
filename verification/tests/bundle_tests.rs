use fibertract::{FiberBundle, FiberTract, FiberTractKind, Signal};

fn make_test_bundle() -> FiberBundle {
    let mut bundle = FiberBundle::new("test_limb".to_string());
    bundle.add_tract(FiberTract::new_motor(FiberTractKind::MotorSkeletal, 8));
    bundle.add_tract(FiberTract::new_sensory(FiberTractKind::Proprioceptive, 8));
    bundle.add_tract(FiberTract::new_sensory(FiberTractKind::NociceptiveFast, 4));
    bundle.add_tract(FiberTract::new_sensory(FiberTractKind::NociceptiveSlow, 4));
    bundle
}

#[test]
fn bundle_creation() {
    let bundle = make_test_bundle();
    assert_eq!(bundle.name, "test_limb");
    assert_eq!(bundle.tract_count(), 4);
    assert_eq!(bundle.motor_tracts().len(), 1);
    assert_eq!(bundle.sensory_tracts().len(), 3);
}

#[test]
fn bundle_tract_lookup() {
    let bundle = make_test_bundle();
    assert!(bundle.tract(FiberTractKind::MotorSkeletal).is_some());
    assert!(bundle.tract(FiberTractKind::Proprioceptive).is_some());
    assert!(bundle.tract(FiberTractKind::NociceptiveFast).is_some());
    assert!(bundle.tract(FiberTractKind::MotorSpindle).is_none());
}

#[test]
fn adrenaline_boosts_motor_gates_pain() {
    let mut bundle = make_test_bundle();

    let motor_gain_before = bundle.tract(FiberTractKind::MotorSkeletal).unwrap().gain;
    let noci_sens_before = bundle.tract(FiberTractKind::NociceptiveFast).unwrap().sensitivity;

    bundle.apply_adrenaline(200);

    let motor_gain_after = bundle.tract(FiberTractKind::MotorSkeletal).unwrap().gain;
    let noci_sens_after = bundle.tract(FiberTractKind::NociceptiveFast).unwrap().sensitivity;

    assert!(motor_gain_after > motor_gain_before, "motor gain should increase");
    assert!(noci_sens_after < noci_sens_before, "nociceptive sensitivity should decrease");
}

#[test]
fn endorphin_reduces_pain_only() {
    let mut bundle = make_test_bundle();

    let proprio_sens_before = bundle.tract(FiberTractKind::Proprioceptive).unwrap().sensitivity;
    let noci_sens_before = bundle.tract(FiberTractKind::NociceptiveFast).unwrap().sensitivity;

    bundle.apply_endorphin(200);

    let proprio_sens_after = bundle.tract(FiberTractKind::Proprioceptive).unwrap().sensitivity;
    let noci_sens_after = bundle.tract(FiberTractKind::NociceptiveFast).unwrap().sensitivity;

    assert_eq!(proprio_sens_after, proprio_sens_before, "proprioception should be unaffected");
    assert!(noci_sens_after < noci_sens_before, "nociceptive sensitivity should decrease");
}

#[test]
fn cortisol_degrades_signal_quality() {
    let mut bundle = make_test_bundle();

    let jitter_before = bundle.tract(FiberTractKind::MotorSkeletal).unwrap().jitter;

    bundle.apply_cortisol(200);

    let jitter_after = bundle.tract(FiberTractKind::MotorSkeletal).unwrap().jitter;

    assert!(jitter_after > jitter_before, "jitter should increase under cortisol");
}

#[test]
fn gaba_calms_every_tract() {
    let mut bundle = make_test_bundle();
    bundle.apply_gaba(200);
    // 200 / 4 = 50 off each gain: motor 160 -> 110, sensory 100 -> 50.
    assert_eq!(bundle.tract(FiberTractKind::MotorSkeletal).unwrap().gain, 110);
    assert_eq!(bundle.tract(FiberTractKind::Proprioceptive).unwrap().gain, 50);
}

#[test]
fn baseline_reset_restores_defaults() {
    let mut bundle = make_test_bundle();
    bundle.apply_adrenaline(200);
    bundle.apply_cortisol(200);
    bundle.reset_to_baseline();

    let motor = bundle.tract(FiberTractKind::MotorSkeletal).unwrap();
    assert_eq!(motor.gain, 160);
    assert_eq!(motor.jitter, 128);
    assert_eq!(motor.endurance, 128);
    let noci = bundle.tract(FiberTractKind::NociceptiveFast).unwrap();
    assert_eq!(noci.gain, 100);
    assert_eq!(noci.sensitivity, 128);
}

#[test]
fn bundle_activity_sums_over_tracts() {
    let mut bundle = make_test_bundle();
    assert!(!bundle.is_active());
    assert_eq!(bundle.total_activity(), 0);

    bundle.tracts[0].motor_signals[0] = Signal { polarity: 1, magnitude: 25 };
    bundle.tracts[1].sensory_signals[0] = -75;

    assert!(bundle.is_active());
    assert_eq!(bundle.total_activity(), 100);
}

#[test]
fn tract_mut_finds_first_of_kind() {
    let mut bundle = make_test_bundle();
    let idx = bundle.tract_mut(FiberTractKind::Proprioceptive).unwrap();
    assert_eq!(idx, 1);
    bundle.tracts[idx].sensitivity = 7;
    assert_eq!(bundle.tract(FiberTractKind::Proprioceptive).unwrap().sensitivity, 7);
    assert!(bundle.tract_mut(FiberTractKind::MotorSpindle).is_none());
}
