//! Fibertract — a peripheral-nerve signal substrate.
//!
//! Fiber tracts are labeled lines: the tract kind defines what the signals
//! on it mean. Motor (efferent) tracts carry ternary signals (polarity and
//! magnitude); sensory (afferent) tracts carry wide signed integers with
//! Weber-law quantization. Physical properties — conductivity, jitter, gain,
//! fatigue, endurance, elasticity, sensitivity, strength, all bounded
//! integers in 0..=255 — shape transmission, and themselves adapt slowly
//! with use: conductivity improves with activity, idle tracts atrophy.
//! All dynamics are integer and saturating; there is no floating point.

pub mod adapt;
pub mod bundle;
pub mod noise;
pub mod pain;
pub mod profile;
pub mod signal;
pub mod tract;
pub mod weber;

pub use bundle::FiberBundle;
pub use pain::{PainEvent, PainSource};
pub use profile::LimbProfile;
pub use signal::Signal;
pub use tract::{FiberTract, FiberTractKind, ReceptorMode};
pub use weber::weber_quantize;
