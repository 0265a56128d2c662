use fibertract::noise::xorshift;
use fibertract::{FiberTract, FiberTractKind, ReceptorMode, Signal};

#[test]
fn motor_tract_amplifies() {
    let mut tract = FiberTract::new_motor(FiberTractKind::MotorSkeletal, 4);
    tract.gain = 200;
    tract.conductivity = 255;
    tract.jitter = 0;
    tract.sensitivity = 255;
    tract.elasticity = 255;

    let input = [
        Signal { polarity: 1, magnitude: 100 },
        Signal { polarity: -1, magnitude: 50 },
        Signal::default(),
        Signal { polarity: 1, magnitude: 10 },
    ];

    tract.transmit_motor(&input, 42);

    assert_eq!(tract.motor_signals[0].polarity, 1);
    assert_eq!(tract.motor_signals[0].magnitude, 156);

    assert_eq!(tract.motor_signals[1].polarity, -1);
    assert_eq!(tract.motor_signals[1].magnitude, 78);

    assert_eq!(tract.motor_signals[2].magnitude, 0);

    assert_eq!(tract.motor_signals[3].polarity, 1);
    assert_eq!(tract.motor_signals[3].magnitude, 15);
}

#[test]
fn motor_tract_fatigue_degrades() {
    let mut tract = FiberTract::new_motor(FiberTractKind::MotorSkeletal, 1);
    tract.gain = 128;
    tract.conductivity = 255;
    tract.jitter = 0;
    tract.sensitivity = 255;
    tract.elasticity = 255;
    tract.fatigue = 128;

    let input = [Signal { polarity: 1, magnitude: 200 }];
    tract.transmit_motor(&input, 0);

    assert_eq!(tract.motor_signals[0].magnitude, 99);
}

#[test]
fn sensory_tract_weber_quantizes() {
    let mut tract = FiberTract::new_sensory(FiberTractKind::Proprioceptive, 4);
    tract.gain = 128;
    tract.conductivity = 255;
    tract.jitter = 0;
    tract.sensitivity = 255;
    tract.elasticity = 255;

    let input = [23, 130, 500, -47];
    tract.transmit_sensory(&input, 0);

    assert_eq!(tract.sensory_signals[0], 20);
    assert_eq!(tract.sensory_signals[1], 130);
    assert_eq!(tract.sensory_signals[2], 495);
    assert_eq!(tract.sensory_signals[3], -45);
}

#[test]
fn sensory_threshold_gates() {
    let mut tract = FiberTract::new_sensory(FiberTractKind::Mechanoreceptive, 2);
    tract.gain = 128;
    tract.conductivity = 255;
    tract.jitter = 0;
    tract.sensitivity = 128;
    tract.elasticity = 255;

    let input = [100, 600];
    tract.transmit_sensory(&input, 0);

    assert_eq!(tract.sensory_signals[0], 0);
    assert!(tract.sensory_signals[1] != 0);
}

#[test]
fn tonic_receptor_bypasses_threshold() {
    let mut tract = FiberTract::new_sensory(FiberTractKind::Mechanoreceptive, 2);
    tract.gain = 100;
    tract.conductivity = 128;
    tract.jitter = 0;
    tract.sensitivity = 180;
    tract.elasticity = 255;
    tract.receptor_mode = ReceptorMode::Tonic;

    let input = [500, 100];
    tract.transmit_sensory(&input, 0);

    assert!(tract.sensory_signals[0] != 0, "tonic should pass: {}", tract.sensory_signals[0]);
    assert!(
        tract.sensory_signals[1] != 0,
        "tonic should pass weak too: {}",
        tract.sensory_signals[1]
    );
}

#[test]
fn phasic_still_gates_by_default() {
    let mut tract = FiberTract::new_sensory(FiberTractKind::Mechanoreceptive, 1);
    tract.gain = 100;
    tract.conductivity = 128;
    tract.jitter = 0;
    tract.sensitivity = 180;
    tract.elasticity = 255;

    let input = [500];
    tract.transmit_sensory(&input, 0);

    assert_eq!(tract.sensory_signals[0], 0, "phasic should gate this");
}

#[test]
fn tract_kind_classification() {
    assert!(FiberTractKind::Proprioceptive.is_afferent());
    assert!(FiberTractKind::NociceptiveFast.is_afferent());
    assert!(FiberTractKind::Interoceptive.is_afferent());
    assert!(FiberTractKind::MotorSkeletal.is_efferent());
    assert!(FiberTractKind::MotorSpindle.is_efferent());
    assert!(!FiberTractKind::Proprioceptive.is_efferent());
    assert!(!FiberTractKind::MotorSkeletal.is_afferent());
}

#[test]
fn kind_from_u8_roundtrip() {
    assert_eq!(FiberTractKind::from_u8(0), Some(FiberTractKind::Proprioceptive));
    assert_eq!(FiberTractKind::from_u8(4), Some(FiberTractKind::Interoceptive));
    assert_eq!(FiberTractKind::from_u8(5), Some(FiberTractKind::MotorSkeletal));
    assert_eq!(FiberTractKind::from_u8(6), Some(FiberTractKind::MotorSpindle));
    assert_eq!(FiberTractKind::from_u8(7), None);
    assert_eq!(FiberTractKind::from_u8(255), None);
}

#[test]
fn kind_base_speeds() {
    assert_eq!(FiberTractKind::Proprioceptive.base_speed(), 240);
    assert_eq!(FiberTractKind::Interoceptive.base_speed(), 30);
    assert_eq!(FiberTractKind::MotorSkeletal.base_speed(), 240);
}

#[test]
fn noise_is_deterministic() {
    let a = xorshift(12345);
    let b = xorshift(12345);
    assert_eq!(a, b);
    assert_ne!(xorshift(a), a);
    assert_ne!(a, 12345);
}

#[test]
fn motor_jitter_is_reproducible() {
    let input = [Signal { polarity: 1, magnitude: 200 }; 3];
    let mut t1 = FiberTract::new_motor(FiberTractKind::MotorSkeletal, 3);
    let mut t2 = FiberTract::new_motor(FiberTractKind::MotorSkeletal, 3);
    t1.transmit_motor(&input, 777);
    t2.transmit_motor(&input, 777);
    for i in 0..3 {
        assert_eq!(t1.motor_signals[i], t2.motor_signals[i]);
    }
}

#[test]
fn zero_dimension_tract_is_inert() {
    let mut motor = FiberTract::new_motor(FiberTractKind::MotorSpindle, 0);
    motor.transmit_motor(&[Signal { polarity: 1, magnitude: 9 }], 1);
    assert!(!motor.is_active());
    assert_eq!(motor.activity_level(), 0);

    let mut sensory = FiberTract::new_sensory(FiberTractKind::Interoceptive, 0);
    sensory.transmit_sensory(&[77], 1);
    assert!(!sensory.is_active());
    assert_eq!(sensory.activity_level(), 0);
}

#[test]
fn activity_level_sums_magnitudes() {
    let mut tract = FiberTract::new_motor(FiberTractKind::MotorSkeletal, 3);
    tract.motor_signals[0] = Signal { polarity: 1, magnitude: 10 };
    tract.motor_signals[1] = Signal { polarity: -1, magnitude: 20 };
    assert!(tract.is_active());
    assert_eq!(tract.activity_level(), 30);

    let mut sens = FiberTract::new_sensory(FiberTractKind::Proprioceptive, 3);
    sens.sensory_signals[0] = -100;
    sens.sensory_signals[2] = 40;
    assert!(sens.is_active());
    assert_eq!(sens.activity_level(), 140);
}

#[test]
fn short_motor_input_zeroes_remaining_channels() {
    let mut tract = FiberTract::new_motor(FiberTractKind::MotorSkeletal, 4);
    tract.gain = 128;
    tract.conductivity = 255;
    tract.jitter = 0;
    tract.sensitivity = 255;
    tract.elasticity = 255;
    tract.motor_signals[3] = Signal { polarity: 1, magnitude: 50 };
    tract.motor_prev[3] = Signal { polarity: 1, magnitude: 50 };

    let input = [Signal { polarity: 1, magnitude: 100 }];
    tract.transmit_motor(&input, 0);

    assert_eq!(tract.motor_signals[0].magnitude, 100);
    assert_eq!(tract.motor_signals[1], Signal::default());
    assert_eq!(tract.motor_signals[2], Signal::default());
    assert_eq!(tract.motor_signals[3], Signal::default());
}

#[test]
fn motor_elasticity_smooths_toward_target() {
    let mut tract = FiberTract::new_motor(FiberTractKind::MotorSkeletal, 1);
    tract.gain = 128;
    tract.conductivity = 255;
    tract.jitter = 0;
    tract.sensitivity = 255;
    tract.elasticity = 128;

    let input = [Signal { polarity: 1, magnitude: 200 }];
    tract.transmit_motor(&input, 0);
    // First tick: previous output 0, target 200, elasticity 128 of 255.
    assert_eq!(tract.motor_signals[0].magnitude, 100);

    tract.transmit_motor(&input, 0);
    // Second tick tracks the remaining distance: 100 + 100 * 128 / 255.
    assert_eq!(tract.motor_signals[0].magnitude, 150);
}

#[test]
fn silent_input_decays_previous_output() {
    let mut tract = FiberTract::new_motor(FiberTractKind::MotorSkeletal, 1);
    tract.gain = 128;
    tract.conductivity = 255;
    tract.jitter = 0;
    tract.sensitivity = 255;
    tract.elasticity = 200;

    let active = [Signal { polarity: 1, magnitude: 200 }];
    tract.transmit_motor(&active, 0);
    let first = tract.motor_signals[0].magnitude;
    assert!(first > 0);

    let silent = [Signal::default()];
    tract.transmit_motor(&silent, 0);
    let decayed = tract.motor_signals[0].magnitude;
    assert!(decayed < first);
    assert_eq!(decayed, (first as u32 * (255 - 200) / 255) as u8);
    assert_eq!(tract.motor_signals[0].polarity, 1);
}
