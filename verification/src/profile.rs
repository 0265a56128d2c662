//! LimbProfile — preset configurations for body regions.
//!
//! Each body region has its own fiber composition: a hand has fine motor
//! control and dense mechanoreception, a leg strength and endurance, the
//! vocal tract extreme motor precision and few pain fibers. A profile
//! lists tract specifications and builds a pre-configured bundle from
//! them through the core construction operations.

use vstd::prelude::*;
use vstd::string::StringExecFns;

use crate::bundle::FiberBundle;
use crate::signal::zero_signal;
use crate::tract::{FiberTract, FiberTractKind, ReceptorMode};

verus! {

/// A profile defining the fiber composition of a body region.
#[derive(Clone, Debug)]
pub struct LimbProfile {
    /// Profile name; the built bundle carries it too.
    pub name: String,
    /// Tract specifications for this profile.
    pub tracts: Vec<TractSpec>,
}

/// Specification for a single tract within a profile: its kind and
/// dimension, plus optional overrides of the construction defaults.
#[derive(Clone, Copy, Debug)]
pub struct TractSpec {
    /// The kind of tract to build.
    pub kind: FiberTractKind,
    /// Number of channels.
    pub dim: usize,
    /// Conductivity override (None keeps the default).
    pub conductivity: Option<u8>,
    /// Jitter override.
    pub jitter: Option<u8>,
    /// Gain override.
    pub gain: Option<u8>,
    /// Sensitivity override.
    pub sensitivity: Option<u8>,
    /// Endurance override.
    pub endurance: Option<u8>,
    /// Elasticity override.
    pub elasticity: Option<u8>,
    /// Strength override.
    pub strength: Option<u8>,
    /// Receptor mode override (None keeps phasic).
    pub receptor_mode: Option<ReceptorMode>,
}

/// A tract specification with no overrides, for a given kind and
/// dimension.
pub open spec fn spec_plain(kind: FiberTractKind, dim: usize) -> TractSpec {
    TractSpec {
        kind,
        dim,
        conductivity: None,
        jitter: None,
        gain: None,
        sensitivity: None,
        endurance: None,
        elasticity: None,
        strength: None,
        receptor_mode: None,
    }
}

/// An override applied over a default byte value.
pub open spec fn over8(o: Option<u8>, d: u8) -> u8 {
    if o is Some {
        o->Some_0
    } else {
        d
    }
}

/// Whether a tract is exactly what building a specification yields: a
/// fresh tract of the spec's kind and dimension whose every property is
/// the override where one is given and the construction default where
/// none is.
pub open spec fn is_built_from(t: FiberTract, s: TractSpec) -> bool {
    &&& t.wf()
    &&& t.kind == s.kind
    &&& t.dim == s.dim
    &&& t.conductivity == over8(s.conductivity, 128)
    &&& t.jitter == over8(s.jitter, 128)
    &&& t.gain == over8(
        s.gain,
        if s.kind.spec_is_efferent() {
            160u8
        } else {
            100u8
        },
    )
    &&& t.sensitivity == over8(s.sensitivity, 128)
    &&& t.endurance == over8(s.endurance, 128)
    &&& t.elasticity == over8(s.elasticity, 128)
    &&& t.strength == over8(s.strength, 128)
    &&& t.receptor_mode == (if s.receptor_mode is Some {
        s.receptor_mode->Some_0
    } else {
        ReceptorMode::Phasic
    })
    &&& t.fatigue == 0
    &&& t.lifetime_activations == 0
    &&& t.recent_density == 0
    &&& if s.kind.spec_is_efferent() {
        t.motor_signals@ == Seq::new(s.dim as nat, |i: int| zero_signal()) && t.motor_prev@
            == Seq::new(s.dim as nat, |i: int| zero_signal())
    } else {
        t.sensory_signals@ == Seq::new(s.dim as nat, |i: int| 0i32) && t.sensory_prev@
            == Seq::new(s.dim as nat, |i: int| 0i32)
    }
}

/// A string with a suffix appended.
fn join_suffix(base: &str, suffix: &str) -> (r: String)
    ensures
        r@ == base@ + suffix@,
{
    let owned: String = <String as StringExecFns>::from_str(base);
    owned.concat(suffix)
}

impl TractSpec {
    /// A specification with all defaults for a given kind and dimension.
    pub fn new(kind: FiberTractKind, dim: usize) -> (r: TractSpec)
        ensures
            r == spec_plain(kind, dim),
    {
        TractSpec {
            kind,
            dim,
            conductivity: None,
            jitter: None,
            gain: None,
            sensitivity: None,
            endurance: None,
            elasticity: None,
            strength: None,
            receptor_mode: None,
        }
    }

    /// Build the tract this specification describes.
    fn build(&self) -> (r: FiberTract)
        ensures
            is_built_from(r, *self),
    {
        let mut t = if self.kind.is_efferent() {
            FiberTract::new_motor(self.kind, self.dim)
        } else {
            FiberTract::new_sensory(self.kind, self.dim)
        };
        if let Some(v) = self.conductivity {
            t.conductivity = v;
        }
        if let Some(v) = self.jitter {
            t.jitter = v;
        }
        if let Some(v) = self.gain {
            t.gain = v;
        }
        if let Some(v) = self.sensitivity {
            t.sensitivity = v;
        }
        if let Some(v) = self.endurance {
            t.endurance = v;
        }
        if let Some(v) = self.elasticity {
            t.elasticity = v;
        }
        if let Some(v) = self.strength {
            t.strength = v;
        }
        if let Some(v) = self.receptor_mode {
            t.receptor_mode = v;
        }
        t
    }
}

impl LimbProfile {
    /// Build a bundle from this profile: one tract per specification,
    /// in order, under the profile's name.
    pub fn build(&self) -> (r: FiberBundle)
        ensures
            r.name@ == self.name@,
            r.tracts@.len() == self.tracts@.len(),
            forall|i: int|
                0 <= i < self.tracts@.len() ==> is_built_from(
                    #[trigger] r.tracts@[i],
                    self.tracts@[i],
                ),
    {
        let name: String = <String as StringExecFns>::from_str(self.name.as_str());
        let mut bundle = FiberBundle::new(name);
        let n = self.tracts.len();
        let mut i: usize = 0;
        while i < n
            invariant
                i <= n,
                n == self.tracts@.len(),
                bundle.name@ == self.name@,
                bundle.tracts@.len() == i,
                forall|j: int|
                    0 <= j < i ==> is_built_from(#[trigger] bundle.tracts@[j], self.tracts@[j]),
            decreases n - i,
        {
            let t = self.tracts[i].build();
            bundle.add_tract(t);
            i += 1;
        }
        bundle
    }

    /// Hand — high dexterity: dense, highly sensitive mechanoreception,
    /// fine motor control with low jitter and fast tracking, moderate
    /// pain fibers.
    pub fn hand(side: &str) -> (r: LimbProfile)
        ensures
            r.name@ == side@ + "_hand"@,
            r.tracts@.len() == 6,
            r.tracts@[0] == (TractSpec {
                gain: Some(150u8),
                jitter: Some(40u8),
                elasticity: Some(220u8),
                strength: Some(100u8),
                ..spec_plain(FiberTractKind::MotorSkeletal, 32)
            }),
            r.tracts@[1] == spec_plain(FiberTractKind::MotorSpindle, 16),
            r.tracts@[2] == (TractSpec {
                sensitivity: Some(230u8),
                gain: Some(110u8),
                jitter: Some(30u8),
                ..spec_plain(FiberTractKind::Mechanoreceptive, 64)
            }),
            r.tracts@[3] == (TractSpec {
                sensitivity: Some(200u8),
                ..spec_plain(FiberTractKind::Proprioceptive, 24)
            }),
            r.tracts@[4] == spec_plain(FiberTractKind::NociceptiveFast, 8),
            r.tracts@[5] == spec_plain(FiberTractKind::NociceptiveSlow, 4),
    {
        let mut tracts: Vec<TractSpec> = Vec::new();
        let mut motor = TractSpec::new(FiberTractKind::MotorSkeletal, 32);
        motor.gain = Some(150);
        motor.jitter = Some(40);
        motor.elasticity = Some(220);
        motor.strength = Some(100);
        tracts.push(motor);
        tracts.push(TractSpec::new(FiberTractKind::MotorSpindle, 16));
        let mut touch = TractSpec::new(FiberTractKind::Mechanoreceptive, 64);
        touch.sensitivity = Some(230);
        touch.gain = Some(110);
        touch.jitter = Some(30);
        tracts.push(touch);
        let mut position = TractSpec::new(FiberTractKind::Proprioceptive, 24);
        position.sensitivity = Some(200);
        tracts.push(position);
        tracts.push(TractSpec::new(FiberTractKind::NociceptiveFast, 8));
        tracts.push(TractSpec::new(FiberTractKind::NociceptiveSlow, 4));
        LimbProfile { name: join_suffix(side, "_hand"), tracts }
    }

    /// Arm — moderate dexterity, good strength and endurance, balanced
    /// sensory coverage.
    pub fn arm(side: &str) -> (r: LimbProfile)
        ensures
            r.name@ == side@ + "_arm"@,
            r.tracts@.len() == 7,
            r.tracts@[0] == (TractSpec {
                gain: Some(180u8),
                strength: Some(160u8),
                endurance: Some(150u8),
                ..spec_plain(FiberTractKind::MotorSkeletal, 16)
            }),
            r.tracts@[1] == spec_plain(FiberTractKind::MotorSpindle, 8),
            r.tracts@[2] == (TractSpec {
                sensitivity: Some(150u8),
                ..spec_plain(FiberTractKind::Mechanoreceptive, 16)
            }),
            r.tracts@[3] == (TractSpec {
                sensitivity: Some(180u8),
                ..spec_plain(FiberTractKind::Proprioceptive, 16)
            }),
            r.tracts@[4] == spec_plain(FiberTractKind::NociceptiveFast, 8),
            r.tracts@[5] == spec_plain(FiberTractKind::NociceptiveSlow, 4),
            r.tracts@[6] == spec_plain(FiberTractKind::Interoceptive, 4),
    {
        let mut tracts: Vec<TractSpec> = Vec::new();
        let mut motor = TractSpec::new(FiberTractKind::MotorSkeletal, 16);
        motor.gain = Some(180);
        motor.strength = Some(160);
        motor.endurance = Some(150);
        tracts.push(motor);
        tracts.push(TractSpec::new(FiberTractKind::MotorSpindle, 8));
        let mut touch = TractSpec::new(FiberTractKind::Mechanoreceptive, 16);
        touch.sensitivity = Some(150);
        tracts.push(touch);
        let mut position = TractSpec::new(FiberTractKind::Proprioceptive, 16);
        position.sensitivity = Some(180);
        tracts.push(position);
        tracts.push(TractSpec::new(FiberTractKind::NociceptiveFast, 8));
        tracts.push(TractSpec::new(FiberTractKind::NociceptiveSlow, 4));
        tracts.push(TractSpec::new(FiberTractKind::Interoceptive, 4));
        LimbProfile { name: join_suffix(side, "_arm"), tracts }
    }

    /// Leg — high strength and endurance, coarser motor control, strong
    /// proprioception for balance, fatigue awareness.
    pub fn leg(side: &str) -> (r: LimbProfile)
        ensures
            r.name@ == side@ + "_leg"@,
            r.tracts@.len() == 7,
            r.tracts@[0] == (TractSpec {
                gain: Some(200u8),
                strength: Some(220u8),
                endurance: Some(200u8),
                jitter: Some(160u8),
                elasticity: Some(140u8),
                ..spec_plain(FiberTractKind::MotorSkeletal, 12)
            }),
            r.tracts@[1] == spec_plain(FiberTractKind::MotorSpindle, 8),
            r.tracts@[2] == (TractSpec {
                sensitivity: Some(120u8),
                ..spec_plain(FiberTractKind::Mechanoreceptive, 16)
            }),
            r.tracts@[3] == (TractSpec {
                sensitivity: Some(220u8),
                ..spec_plain(FiberTractKind::Proprioceptive, 20)
            }),
            r.tracts@[4] == spec_plain(FiberTractKind::NociceptiveFast, 8),
            r.tracts@[5] == spec_plain(FiberTractKind::NociceptiveSlow, 4),
            r.tracts@[6] == spec_plain(FiberTractKind::Interoceptive, 8),
    {
        let mut tracts: Vec<TractSpec> = Vec::new();
        let mut motor = TractSpec::new(FiberTractKind::MotorSkeletal, 12);
        motor.gain = Some(200);
        motor.strength = Some(220);
        motor.endurance = Some(200);
        motor.jitter = Some(160);
        motor.elasticity = Some(140);
        tracts.push(motor);
        tracts.push(TractSpec::new(FiberTractKind::MotorSpindle, 8));
        let mut touch = TractSpec::new(FiberTractKind::Mechanoreceptive, 16);
        touch.sensitivity = Some(120);
        tracts.push(touch);
        let mut position = TractSpec::new(FiberTractKind::Proprioceptive, 20);
        position.sensitivity = Some(220);
        tracts.push(position);
        tracts.push(TractSpec::new(FiberTractKind::NociceptiveFast, 8));
        tracts.push(TractSpec::new(FiberTractKind::NociceptiveSlow, 4));
        tracts.push(TractSpec::new(FiberTractKind::Interoceptive, 8));
        LimbProfile { name: join_suffix(side, "_leg"), tracts }
    }

    /// Vocal tract — extreme motor precision with very low jitter and
    /// near-instant tracking, strong proprioception for pitch, almost no
    /// pain fibers.
    pub fn vocal_tract() -> (r: LimbProfile)
        ensures
            r.name@ == "vocal_tract"@,
            r.tracts@.len() == 4,
            r.tracts@[0] == (TractSpec {
                gain: Some(140u8),
                jitter: Some(20u8),
                elasticity: Some(250u8),
                strength: Some(60u8),
                endurance: Some(180u8),
                ..spec_plain(FiberTractKind::MotorSkeletal, 24)
            }),
            r.tracts@[1] == (TractSpec {
                sensitivity: Some(240u8),
                ..spec_plain(FiberTractKind::Proprioceptive, 16)
            }),
            r.tracts@[2] == spec_plain(FiberTractKind::NociceptiveFast, 2),
            r.tracts@[3] == spec_plain(FiberTractKind::Interoceptive, 4),
    {
        let mut tracts: Vec<TractSpec> = Vec::new();
        let mut motor = TractSpec::new(FiberTractKind::MotorSkeletal, 24);
        motor.gain = Some(140);
        motor.jitter = Some(20);
        motor.elasticity = Some(250);
        motor.strength = Some(60);
        motor.endurance = Some(180);
        tracts.push(motor);
        let mut position = TractSpec::new(FiberTractKind::Proprioceptive, 16);
        position.sensitivity = Some(240);
        tracts.push(position);
        tracts.push(TractSpec::new(FiberTractKind::NociceptiveFast, 2));
        tracts.push(TractSpec::new(FiberTractKind::Interoceptive, 4));
        LimbProfile { name: <String as StringExecFns>::from_str("vocal_tract"), tracts }
    }

    /// Gaze control — the fastest, cleanest motor response in the body,
    /// extreme proprioceptive precision, and no pain fibers at all.
    pub fn gaze() -> (r: LimbProfile)
        ensures
            r.name@ == "gaze"@,
            r.tracts@.len() == 2,
            r.tracts@[0] == (TractSpec {
                gain: Some(140u8),
                jitter: Some(15u8),
                elasticity: Some(255u8),
                strength: Some(40u8),
                endurance: Some(220u8),
                ..spec_plain(FiberTractKind::MotorSkeletal, 12)
            }),
            r.tracts@[1] == (TractSpec {
                sensitivity: Some(250u8),
                ..spec_plain(FiberTractKind::Proprioceptive, 12)
            }),
    {
        let mut tracts: Vec<TractSpec> = Vec::new();
        let mut motor = TractSpec::new(FiberTractKind::MotorSkeletal, 12);
        motor.gain = Some(140);
        motor.jitter = Some(15);
        motor.elasticity = Some(255);
        motor.strength = Some(40);
        motor.endurance = Some(220);
        tracts.push(motor);
        let mut position = TractSpec::new(FiberTractKind::Proprioceptive, 12);
        position.sensitivity = Some(250);
        tracts.push(position);
        LimbProfile { name: <String as StringExecFns>::from_str("gaze"), tracts }
    }

    /// Torso — core stability: strong, tireless postural muscles with
    /// coarse control, deep ache awareness and high visceral sensitivity.
    pub fn torso() -> (r: LimbProfile)
        ensures
            r.name@ == "torso"@,
            r.tracts@.len() == 7,
            r.tracts@[0] == (TractSpec {
                gain: Some(170u8),
                strength: Some(200u8),
                endurance: Some(230u8),
                jitter: Some(160u8),
                ..spec_plain(FiberTractKind::MotorSkeletal, 8)
            }),
            r.tracts@[1] == spec_plain(FiberTractKind::MotorSpindle, 8),
            r.tracts@[2] == (TractSpec {
                sensitivity: Some(100u8),
                ..spec_plain(FiberTractKind::Mechanoreceptive, 8)
            }),
            r.tracts@[3] == (TractSpec {
                sensitivity: Some(180u8),
                ..spec_plain(FiberTractKind::Proprioceptive, 12)
            }),
            r.tracts@[4] == spec_plain(FiberTractKind::NociceptiveFast, 4),
            r.tracts@[5] == spec_plain(FiberTractKind::NociceptiveSlow, 8),
            r.tracts@[6] == (TractSpec {
                sensitivity: Some(180u8),
                ..spec_plain(FiberTractKind::Interoceptive, 16)
            }),
    {
        let mut tracts: Vec<TractSpec> = Vec::new();
        let mut motor = TractSpec::new(FiberTractKind::MotorSkeletal, 8);
        motor.gain = Some(170);
        motor.strength = Some(200);
        motor.endurance = Some(230);
        motor.jitter = Some(160);
        tracts.push(motor);
        tracts.push(TractSpec::new(FiberTractKind::MotorSpindle, 8));
        let mut touch = TractSpec::new(FiberTractKind::Mechanoreceptive, 8);
        touch.sensitivity = Some(100);
        tracts.push(touch);
        let mut position = TractSpec::new(FiberTractKind::Proprioceptive, 12);
        position.sensitivity = Some(180);
        tracts.push(position);
        tracts.push(TractSpec::new(FiberTractKind::NociceptiveFast, 4));
        tracts.push(TractSpec::new(FiberTractKind::NociceptiveSlow, 8));
        let mut gut = TractSpec::new(FiberTractKind::Interoceptive, 16);
        gut.sensitivity = Some(180);
        tracts.push(gut);
        LimbProfile { name: <String as StringExecFns>::from_str("torso"), tracts }
    }
}

} // verus!
