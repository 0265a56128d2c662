use fibertract::weber::{weber_fraction_pct, weber_step};
use fibertract::weber_quantize;

#[test]
fn quantize_low_intensity() {
    assert_eq!(weber_quantize(0), 0);
    assert_eq!(weber_quantize(1), 0);
    assert_eq!(weber_quantize(4), 0);
    assert_eq!(weber_quantize(5), 5);
    assert_eq!(weber_quantize(7), 5);
    assert_eq!(weber_quantize(23), 20);
    assert_eq!(weber_quantize(49), 45);
}

#[test]
fn quantize_medium_intensity() {
    assert_eq!(weber_quantize(50), 50);
    assert_eq!(weber_quantize(55), 50);
    assert_eq!(weber_quantize(130), 130);
    assert_eq!(weber_quantize(137), 130);
    assert_eq!(weber_quantize(199), 190);
}

#[test]
fn quantize_high_intensity() {
    assert_eq!(weber_quantize(200), 195);
    assert_eq!(weber_quantize(500), 495);
    assert_eq!(weber_quantize(999), 990);
}

#[test]
fn quantize_extreme_intensity() {
    assert_eq!(weber_quantize(1000), 1000);
    assert_eq!(weber_quantize(1024), 1000);
    assert_eq!(weber_quantize(5000), 5000);
    assert_eq!(weber_quantize(5013), 5000);
}

#[test]
fn quantize_negative_preserves_sign() {
    assert_eq!(weber_quantize(-23), -20);
    assert_eq!(weber_quantize(-130), -130);
    assert_eq!(weber_quantize(-500), -495);
    assert_eq!(weber_quantize(-47), -45);
}

#[test]
fn step_sizes() {
    assert_eq!(weber_step(0), 5);
    assert_eq!(weber_step(49), 5);
    assert_eq!(weber_step(50), 10);
    assert_eq!(weber_step(199), 10);
    assert_eq!(weber_step(200), 15);
    assert_eq!(weber_step(999), 15);
    assert_eq!(weber_step(1000), 25);
}

#[test]
fn fraction_decreases_with_magnitude() {
    let f10 = weber_fraction_pct(10);
    let f100 = weber_fraction_pct(100);
    let f500 = weber_fraction_pct(500);
    assert!(f10 > f100);
    assert!(f100 > f500);
}

#[test]
fn quantize_is_idempotent_on_samples() {
    for &x in &[0, 1, 7, 23, 49, 50, 137, 199, 499, 999, 1000, 5013, -23, -137, -499, -5013] {
        assert_eq!(weber_quantize(weber_quantize(x)), weber_quantize(x));
    }
}

#[test]
fn quantize_boundary_band_drop() {
    // Magnitudes 200..=209 snap to 195, which falls below its own band and
    // re-quantizes with the finer step: the one idempotence exception.
    assert_eq!(weber_quantize(205), 195);
    assert_eq!(weber_quantize(195), 190);
}

#[test]
fn fraction_within_band_is_monotone() {
    assert!(weber_fraction_pct(10) >= weber_fraction_pct(49));
    assert!(weber_fraction_pct(50) >= weber_fraction_pct(199));
    assert!(weber_fraction_pct(200) >= weber_fraction_pct(999));
    assert!(weber_fraction_pct(1000) >= weber_fraction_pct(100000));
}

#[test]
fn fraction_edge_values() {
    assert_eq!(weber_fraction_pct(0), 255);
    assert_eq!(weber_fraction_pct(1), 255);
    assert_eq!(weber_fraction_pct(10), 50);
    assert_eq!(weber_fraction_pct(100), 10);
    assert_eq!(weber_fraction_pct(500), 3);
}
