use fibertract::{FiberTractKind, PainEvent, PainSource};

#[test]
fn pain_source_tracts() {
    assert_eq!(PainSource::Sharp.primary_tract(), FiberTractKind::NociceptiveFast);
    assert_eq!(PainSource::Burning.primary_tract(), FiberTractKind::NociceptiveSlow);
    assert_eq!(PainSource::Fatigue.primary_tract(), FiberTractKind::Interoceptive);
}

#[test]
fn urgency_ordering() {
    assert!(PainSource::Sharp.urgency() > PainSource::Burning.urgency());
    assert!(PainSource::Burning.urgency() > PainSource::Aching.urgency());
    assert!(PainSource::Visceral.urgency() > PainSource::Fatigue.urgency());
}

#[test]
fn sharp_high_intensity_is_urgent() {
    let event = PainEvent {
        bundle_name: "left_arm".into(),
        source: PainSource::Sharp,
        intensity: 200,
        onset: 220,
        duration_ticks: 5,
        habituating: false,
    };
    assert!(event.is_urgent());
}

#[test]
fn low_ache_not_urgent() {
    let event = PainEvent {
        bundle_name: "lower_back".into(),
        source: PainSource::Aching,
        intensity: 80,
        onset: 20,
        duration_ticks: 5000,
        habituating: false,
    };
    assert!(!event.is_urgent());
    assert!(event.is_chronic());
}

#[test]
fn habituation_reduces_salience() {
    let fresh = PainEvent {
        bundle_name: "test".into(),
        source: PainSource::Burning,
        intensity: 150,
        onset: 100,
        duration_ticks: 10,
        habituating: false,
    };
    let habituated = PainEvent { habituating: true, ..fresh.clone() };

    assert!(fresh.salience() > habituated.salience());
}

#[test]
fn salience_exact_weighting() {
    let fresh = PainEvent {
        bundle_name: "calibration".into(),
        source: PainSource::Burning,
        intensity: 150,
        onset: 100,
        duration_ticks: 10,
        habituating: false,
    };
    // (150*3 + 180*2 + 100 + 192*2) / 8 = 1294 / 8.
    assert_eq!(fresh.salience(), 161);
    let habituated = PainEvent { habituating: true, ..fresh };
    // (150*3 + 180*2 + 100 + 64*2) / 8 = 1038 / 8.
    assert_eq!(habituated.salience(), 129);
}

#[test]
fn pain_source_from_u8_roundtrip() {
    assert_eq!(PainSource::from_u8(0), Some(PainSource::Sharp));
    assert_eq!(PainSource::from_u8(2), Some(PainSource::Aching));
    assert_eq!(PainSource::from_u8(4), Some(PainSource::Fatigue));
    assert_eq!(PainSource::from_u8(5), None);
}

#[test]
fn chronicity_needs_duration_and_no_habituation() {
    let mut event = PainEvent {
        bundle_name: "knee".into(),
        source: PainSource::Aching,
        intensity: 90,
        onset: 10,
        duration_ticks: 1000,
        habituating: false,
    };
    assert!(!event.is_chronic());
    event.duration_ticks = 1001;
    assert!(event.is_chronic());
    event.habituating = true;
    assert!(!event.is_chronic());
}
