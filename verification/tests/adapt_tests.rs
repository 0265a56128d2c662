use fibertract::adapt::{adapt_bundle, adapt_tract, AdaptationConfig};
use fibertract::{FiberBundle, FiberTract, FiberTractKind, Signal};

#[test]
fn idle_tract_atrophies() {
    let mut tract = FiberTract::new_motor(FiberTractKind::MotorSkeletal, 2);
    tract.lifetime_activations = 100;
    tract.strength = 200;
    tract.recent_density = 0;

    let config = AdaptationConfig::default();
    for _ in 0..50 {
        adapt_tract(&mut tract, &config);
    }

    assert!(tract.strength < 200, "strength should decay with disuse");
}

#[test]
fn fatigue_recovers_at_rest() {
    let mut tract = FiberTract::new_motor(FiberTractKind::MotorSkeletal, 2);
    tract.fatigue = 200;

    let config = AdaptationConfig::default();
    for _ in 0..30 {
        adapt_tract(&mut tract, &config);
    }

    assert!(tract.fatigue < 200, "fatigue should decrease during rest");
}

#[test]
fn endurance_slows_fatigue() {
    let mut tract_fragile = FiberTract::new_motor(FiberTractKind::MotorSkeletal, 2);
    tract_fragile.endurance = 0;
    tract_fragile.motor_signals[0] = Signal { polarity: 1, magnitude: 100 };

    let mut tract_tough = FiberTract::new_motor(FiberTractKind::MotorSkeletal, 2);
    tract_tough.endurance = 255;
    tract_tough.motor_signals[0] = Signal { polarity: 1, magnitude: 100 };

    let config = AdaptationConfig::default();
    for _ in 0..20 {
        adapt_tract(&mut tract_fragile, &config);
        adapt_tract(&mut tract_tough, &config);
    }

    assert!(
        tract_fragile.fatigue > tract_tough.fatigue,
        "fragile tract should fatigue faster than tough one"
    );
}

#[test]
fn density_tracks_activity() {
    let mut tract = FiberTract::new_motor(FiberTractKind::MotorSkeletal, 2);
    tract.motor_signals[0] = Signal { polarity: 1, magnitude: 100 };

    let config = AdaptationConfig::default();

    for _ in 0..20 {
        adapt_tract(&mut tract, &config);
    }

    let active_density = tract.recent_density;
    assert!(active_density > 0, "density should increase with activity");

    tract.motor_signals[0] = Signal::default();
    for _ in 0..40 {
        adapt_tract(&mut tract, &config);
    }

    assert!(tract.recent_density < active_density, "density should decay when idle");
}

#[test]
fn active_tract_myelinates() {
    let mut tract = FiberTract::new_motor(FiberTractKind::MotorSkeletal, 2);
    tract.motor_signals[0] = Signal { polarity: 1, magnitude: 100 };

    let config = AdaptationConfig::default();
    for _ in 0..5 {
        adapt_tract(&mut tract, &config);
    }

    assert_eq!(tract.conductivity, 133);
    assert_eq!(tract.lifetime_activations, 5);
}

#[test]
fn idle_tract_loses_precision_and_conduction() {
    let mut tract = FiberTract::new_motor(FiberTractKind::MotorSkeletal, 1);
    assert_eq!(tract.recent_density, 0);

    let config = AdaptationConfig::default();
    for _ in 0..10 {
        adapt_tract(&mut tract, &config);
    }

    assert_eq!(tract.jitter, 138);
    assert_eq!(tract.conductivity, 118);
}

#[test]
fn training_grows_strength() {
    let mut tract = FiberTract::new_motor(FiberTractKind::MotorSkeletal, 1);
    tract.motor_signals[0] = Signal { polarity: 1, magnitude: 100 };
    tract.fatigue = 200;
    tract.recent_density = 150;
    tract.endurance = 0;
    let before = tract.strength;

    let config = AdaptationConfig::default();
    adapt_tract(&mut tract, &config);

    assert_eq!(tract.strength, before + 1);
}

#[test]
fn never_used_tract_does_not_atrophy() {
    let mut tract = FiberTract::new_motor(FiberTractKind::MotorSkeletal, 1);
    tract.strength = 200;
    tract.recent_density = 0;
    assert_eq!(tract.lifetime_activations, 0);

    let config = AdaptationConfig::default();
    for _ in 0..50 {
        adapt_tract(&mut tract, &config);
    }

    assert_eq!(tract.strength, 200, "a never-used tract does not atrophy");
}

#[test]
fn practice_reduces_jitter_at_high_density() {
    let mut tract = FiberTract::new_motor(FiberTractKind::MotorSkeletal, 1);
    tract.motor_signals[0] = Signal { polarity: 1, magnitude: 100 };
    tract.recent_density = 200;
    let before = tract.jitter;

    let config = AdaptationConfig::default();
    adapt_tract(&mut tract, &config);

    assert_eq!(tract.jitter, before - 1);
}

#[test]
fn adapt_bundle_ticks_every_tract() {
    let mut bundle = FiberBundle::new("pair".to_string());
    let mut active = FiberTract::new_motor(FiberTractKind::MotorSkeletal, 1);
    active.motor_signals[0] = Signal { polarity: 1, magnitude: 9 };
    bundle.add_tract(active);
    bundle.add_tract(FiberTract::new_sensory(FiberTractKind::Proprioceptive, 1));

    let config = AdaptationConfig::default();
    adapt_bundle(&mut bundle, &config);

    assert_eq!(bundle.tracts[0].conductivity, 129);
    assert_eq!(bundle.tracts[0].lifetime_activations, 1);
    assert_eq!(bundle.tracts[1].conductivity, 127);
    assert_eq!(bundle.tracts[1].lifetime_activations, 0);
}
