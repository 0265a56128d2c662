//! Pain and nociception — the alarm system.
//!
//! Pain is a decision the nervous system makes from nociceptive input,
//! context and chemical state, not a raw sensation. This module holds
//! the data structures for pain events and their sources; pain gating
//! itself happens at the bundle level through chemical modulation and
//! sensitivity thresholds.

use vstd::prelude::*;

use crate::tract::FiberTractKind;

verus! {

/// Source classification of pain — what biological process generated it.
///
/// Maps to nociceptive fiber types and interoceptive signals; the brain
/// uses it to select a response strategy. Ordinals run 0..=4.
#[derive(Clone, Copy, Debug, PartialEq, Eq, Structural, Hash)]
pub enum PainSource {
    /// Sharp, well-localized pain: fast onset, fast offset.
    Sharp,
    /// Burning, diffuse pain: slow onset, lingers.
    Burning,
    /// Aching, deep pain: dull, poorly localized.
    Aching,
    /// Visceral distress: internal discomfort.
    Visceral,
    /// Fatigue-pain: the overexertion signal.
    Fatigue,
}

/// A pain event detected from nociceptive fiber activity.
///
/// Carries the perceived intensity — after all gating — together with
/// how sharply it rose, how long it has lasted, and whether the system
/// is habituating to it.
#[derive(Clone, Debug)]
pub struct PainEvent {
    /// Which bundle originated this pain.
    pub bundle_name: String,
    /// The source or type of pain.
    pub source: PainSource,
    /// Perceived intensity after all gating, 0..=255.
    pub intensity: u8,
    /// Onset sharpness: how fast the pain signal rose.
    pub onset: u8,
    /// Ticks this pain source has been continuously active.
    pub duration_ticks: u32,
    /// Whether the pain is habituating (fading despite constant stimulus).
    pub habituating: bool,
}

impl PainSource {
    /// The urgency level of each pain source: how quickly the brain
    /// should respond. Sharp pain is immediate; fatigue can wait.
    pub open spec fn spec_urgency(self) -> u8 {
        match self {
            PainSource::Sharp => 240,
            PainSource::Burning => 180,
            PainSource::Visceral => 140,
            PainSource::Aching => 100,
            PainSource::Fatigue => 60,
        }
    }

    /// The fixed ordinal of this source, 0..=4.
    pub open spec fn spec_ordinal(self) -> int {
        match self {
            PainSource::Sharp => 0,
            PainSource::Burning => 1,
            PainSource::Aching => 2,
            PainSource::Visceral => 3,
            PainSource::Fatigue => 4,
        }
    }

    /// Which fiber tract kind typically generates this pain type.
    pub fn primary_tract(self) -> (r: FiberTractKind)
        ensures
            self is Sharp ==> r is NociceptiveFast,
            self is Burning || self is Aching ==> r is NociceptiveSlow,
            self is Visceral || self is Fatigue ==> r is Interoceptive,
    {
        match self {
            PainSource::Sharp => FiberTractKind::NociceptiveFast,
            PainSource::Burning => FiberTractKind::NociceptiveSlow,
            PainSource::Aching => FiberTractKind::NociceptiveSlow,
            PainSource::Visceral => FiberTractKind::Interoceptive,
            PainSource::Fatigue => FiberTractKind::Interoceptive,
        }
    }

    /// Urgency level (0-255): how quickly the brain should respond.
    pub fn urgency(self) -> (r: u8)
        ensures
            r == self.spec_urgency(),
    {
        match self {
            PainSource::Sharp => 240,
            PainSource::Burning => 180,
            PainSource::Visceral => 140,
            PainSource::Aching => 100,
            PainSource::Fatigue => 60,
        }
    }

    /// Construct from a u8 ordinal; None for an out-of-range value.
    pub fn from_u8(v: u8) -> (r: Option<PainSource>)
        ensures
            v < 5 ==> (r is Some && r->Some_0.spec_ordinal() == v),
            v >= 5 ==> r is None,
    {
        match v {
            0 => Some(PainSource::Sharp),
            1 => Some(PainSource::Burning),
            2 => Some(PainSource::Aching),
            3 => Some(PainSource::Visceral),
            4 => Some(PainSource::Fatigue),
            _ => None,
        }
    }
}

/// The combined salience score of a pain event: a weighted average of
/// intensity (weight 3), urgency (2), onset (1) and novelty (2), where
/// novelty is 64 for habituating pain and 192 for fresh pain, capped at
/// 255.
pub open spec fn spec_salience(e: PainEvent) -> int {
    let novelty: int = if e.habituating {
        64
    } else {
        192
    };
    let score = (e.intensity * 3 + e.source.spec_urgency() * 2 + e.onset + novelty * 2) / 8;
    if score <= 255 {
        score
    } else {
        255
    }
}

impl PainEvent {
    /// Whether this pain requires immediate attention: both the
    /// perceived intensity (above 128) and the source's urgency (above
    /// 160) must be high.
    pub fn is_urgent(&self) -> (r: bool)
        ensures
            r == (self.intensity > 128 && self.source.spec_urgency() > 160),
    {
        let urgency = self.source.urgency();
        self.intensity > 128 && urgency > 160
    }

    /// Whether this pain is chronic: lasting over 1000 ticks without
    /// habituating.
    pub fn is_chronic(&self) -> (r: bool)
        ensures
            r == (self.duration_ticks > 1000 && !self.habituating),
    {
        self.duration_ticks > 1000 && !self.habituating
    }

    /// Combined salience score (0-255) for attention allocation,
    /// weighing intensity, urgency, onset and novelty.
    pub fn salience(&self) -> (r: u8)
        ensures
            r == spec_salience(*self),
    {
        let urgency = self.source.urgency() as u16;
        let intensity = self.intensity as u16;
        let onset_weight = self.onset as u16;
        let novelty: u16 = if self.habituating {
            64
        } else {
            192
        };
        let score = (intensity * 3 + urgency * 2 + onset_weight + novelty * 2) / 8;
        if score <= 255 {
            score as u8
        } else {
            255
        }
    }
}

} // verus!
