//! FiberTract — a single labeled-line nerve tract.
//!
//! The tract kind defines what signals mean. Motor (efferent) tracts carry
//! polarity-and-magnitude signals; sensory (afferent) tracts carry wide
//! signed integers, Weber-law quantized. Physical properties, all bounded
//! integers in 0..=255, shape transmission fidelity.

use vstd::prelude::*;
use vstd::pervasive::VecAdditionalExecFns;

use crate::noise::{spec_xorshift, xorshift};
use crate::signal::{zero_signal, Signal};
use crate::weber::{abs_int, spec_weber_quantize, weber_quantize};

verus! {

/// Receptor adaptation mode — phasic vs tonic.
///
/// Phasic receptors respond to changes and gate out weak sustained
/// signals through the sensitivity threshold. Tonic receptors faithfully
/// transmit sustained levels and bypass that threshold.
#[derive(Clone, Copy, Debug, PartialEq, Eq, Structural, Hash)]
pub enum ReceptorMode {
    /// Phasic: emphasizes changes; the sensitivity threshold gates weak signals.
    Phasic,
    /// Tonic: faithfully transmits sustained levels; bypasses the threshold.
    Tonic,
}

impl Default for ReceptorMode {
    /// Receptors default to phasic.
    fn default() -> (r: ReceptorMode)
        ensures
            r is Phasic,
    {
        ReceptorMode::Phasic
    }
}

/// Biological fiber tract types — labeled lines.
///
/// The channel is the label: a signal on a nociceptive tract is pain by
/// definition. Ordinals 0..=4 are afferent (sensory), 5..=6 efferent
/// (motor).
#[derive(Clone, Copy, Debug, PartialEq, Eq, Structural, Hash)]
pub enum FiberTractKind {
    /// Proprioceptive: position, extension, force feedback. Very fast.
    Proprioceptive,
    /// Mechanoreceptive: touch, pressure, texture, contact. Fast.
    Mechanoreceptive,
    /// Nociceptive fast: sharp pain, temperature extremes. Medium speed.
    NociceptiveFast,
    /// Nociceptive slow: burning, aching, itch. Slow, unmyelinated.
    NociceptiveSlow,
    /// Interoceptive: fatigue, metabolic state, exertion cost. Slowest.
    Interoceptive,
    /// Motor skeletal: voluntary movement commands. Very fast.
    MotorSkeletal,
    /// Motor spindle: muscle tone, reflex arcs. Fast.
    MotorSpindle,
}

impl FiberTractKind {
    /// How many tract kinds there are.
    pub const COUNT: usize = 7;

    /// Whether this kind is afferent (sensory, body to brain).
    pub open spec fn spec_is_afferent(self) -> bool {
        match self {
            FiberTractKind::MotorSkeletal => false,
            FiberTractKind::MotorSpindle => false,
            _ => true,
        }
    }

    /// Whether this kind is efferent (motor, brain to body).
    pub open spec fn spec_is_efferent(self) -> bool {
        !self.spec_is_afferent()
    }

    /// The fixed ordinal of this kind, 0..=6.
    pub open spec fn spec_ordinal(self) -> int {
        match self {
            FiberTractKind::Proprioceptive => 0,
            FiberTractKind::Mechanoreceptive => 1,
            FiberTractKind::NociceptiveFast => 2,
            FiberTractKind::NociceptiveSlow => 3,
            FiberTractKind::Interoceptive => 4,
            FiberTractKind::MotorSkeletal => 5,
            FiberTractKind::MotorSpindle => 6,
        }
    }

    /// The biological transmission speed class of this kind.
    pub open spec fn spec_base_speed(self) -> u8 {
        match self {
            FiberTractKind::Proprioceptive => 240,
            FiberTractKind::Mechanoreceptive => 200,
            FiberTractKind::NociceptiveFast => 140,
            FiberTractKind::NociceptiveSlow => 40,
            FiberTractKind::Interoceptive => 30,
            FiberTractKind::MotorSkeletal => 240,
            FiberTractKind::MotorSpindle => 180,
        }
    }

    /// Is this an afferent (sensory, body to brain) tract?
    pub fn is_afferent(self) -> (r: bool)
        ensures
            r == self.spec_is_afferent(),
    {
        match self {
            FiberTractKind::MotorSkeletal => false,
            FiberTractKind::MotorSpindle => false,
            _ => true,
        }
    }

    /// Is this an efferent (motor, brain to body) tract?
    pub fn is_efferent(self) -> (r: bool)
        ensures
            r == self.spec_is_efferent(),
    {
        match self {
            FiberTractKind::MotorSkeletal => true,
            FiberTractKind::MotorSpindle => true,
            _ => false,
        }
    }

    /// Biological transmission speed class (0-255); higher propagates
    /// faster.
    pub fn base_speed(self) -> (r: u8)
        ensures
            r == self.spec_base_speed(),
    {
        match self {
            FiberTractKind::Proprioceptive => 240,
            FiberTractKind::Mechanoreceptive => 200,
            FiberTractKind::NociceptiveFast => 140,
            FiberTractKind::NociceptiveSlow => 40,
            FiberTractKind::Interoceptive => 30,
            FiberTractKind::MotorSkeletal => 240,
            FiberTractKind::MotorSpindle => 180,
        }
    }

    /// Construct from a u8 ordinal; None for an out-of-range value.
    pub fn from_u8(v: u8) -> (r: Option<FiberTractKind>)
        ensures
            v < 7 ==> (r is Some && r->Some_0.spec_ordinal() == v),
            v >= 7 ==> r is None,
    {
        match v {
            0 => Some(FiberTractKind::Proprioceptive),
            1 => Some(FiberTractKind::Mechanoreceptive),
            2 => Some(FiberTractKind::NociceptiveFast),
            3 => Some(FiberTractKind::NociceptiveSlow),
            4 => Some(FiberTractKind::Interoceptive),
            5 => Some(FiberTractKind::MotorSkeletal),
            6 => Some(FiberTractKind::MotorSpindle),
            _ => None,
        }
    }

    /// Short biological name of this kind.
    pub fn name(self) -> (r: &'static str)
        ensures
            self is Proprioceptive ==> r@ == "Ia/Ib"@,
            self is Mechanoreceptive ==> r@ == "Ab"@,
            self is NociceptiveFast ==> r@ == "Ad"@,
            self is NociceptiveSlow ==> r@ == "C-noci"@,
            self is Interoceptive ==> r@ == "C-visc"@,
            self is MotorSkeletal ==> r@ == "Aa-mot"@,
            self is MotorSpindle ==> r@ == "Ag-spin"@,
    {
        match self {
            FiberTractKind::Proprioceptive => "Ia/Ib",
            FiberTractKind::Mechanoreceptive => "Ab",
            FiberTractKind::NociceptiveFast => "Ad",
            FiberTractKind::NociceptiveSlow => "C-noci",
            FiberTractKind::Interoceptive => "C-visc",
            FiberTractKind::MotorSkeletal => "Aa-mot",
            FiberTractKind::MotorSpindle => "Ag-spin",
        }
    }
}

/// A single fiber tract within a bundle.
///
/// Carries either motor signals (efferent kinds) or sensory wide integers
/// (afferent kinds); exactly one of the two buffer pairs is populated,
/// with length equal to the tract's dimension. The previous-output
/// buffers hold the last tick's output for elasticity smoothing.
#[derive(Clone, Debug)]
pub struct FiberTract {
    /// What kind of signal this tract carries (labeled line).
    pub kind: FiberTractKind,
    /// Tract dimension (number of channels).
    pub dim: usize,
    /// Motor signal buffer (efferent tracts only).
    pub motor_signals: Vec<Signal>,
    /// Sensory signal buffer, Weber-quantized (afferent tracts only).
    pub sensory_signals: Vec<i32>,
    /// Previous motor output, for elasticity smoothing.
    pub motor_prev: Vec<Signal>,
    /// Previous sensory output, for elasticity smoothing.
    pub sensory_prev: Vec<i32>,
    /// Conductivity: myelination quality (0=severed, 255=perfect).
    pub conductivity: u8,
    /// Jitter: transmission noise (0=clean, 255=overwhelmed).
    pub jitter: u8,
    /// Fatigue: current exhaustion (0=fresh, 255=spent).
    pub fatigue: u8,
    /// Endurance: fatigue resistance (0=fragile, 255=tireless).
    pub endurance: u8,
    /// Elasticity: signal tracking speed (0=sluggish, 255=instant).
    pub elasticity: u8,
    /// Sensitivity: detection threshold (0=numb, 255=hypersensitive).
    pub sensitivity: u8,
    /// Gain: amplification or attenuation (128=unity).
    pub gain: u8,
    /// Strength: max force output (motor) or acuity (sensory).
    pub strength: u8,
    /// Receptor mode: phasic (change-detecting) or tonic (level-tracking).
    pub receptor_mode: ReceptorMode,
    /// Lifetime activations: total ticks in which the tract was active.
    pub lifetime_activations: u64,
    /// Recent activation density (rolling, 0=idle, 255=constant use).
    pub recent_density: u8,
}

/// Whether any channel of a motor buffer carries a nonzero signal.
pub open spec fn spec_motor_active(s: Seq<Signal>) -> bool {
    exists|i: int| 0 <= i < s.len() && s[i].polarity != 0 && s[i].magnitude > 0
}

/// Whether any channel of a sensory buffer carries a nonzero value.
pub open spec fn spec_sensory_active(s: Seq<i32>) -> bool {
    exists|i: int| 0 <= i < s.len() && s[i] != 0
}

/// Sum of the magnitudes of a motor buffer.
pub open spec fn spec_motor_sum(s: Seq<Signal>) -> int
    decreases s.len(),
{
    if s.len() == 0 {
        0
    } else {
        spec_motor_sum(s.drop_last()) + s.last().magnitude
    }
}

/// Sum of the absolute values of a sensory buffer.
pub open spec fn spec_sensory_sum(s: Seq<i32>) -> int
    decreases s.len(),
{
    if s.len() == 0 {
        0
    } else {
        spec_sensory_sum(s.drop_last()) + abs_int(s.last() as int)
    }
}

/// A non-negative quantity saturated into the u64 range.
pub open spec fn sat_u64(x: int) -> int {
    if x > u64::MAX {
        u64::MAX as int
    } else {
        x
    }
}

impl FiberTract {
    /// Well-formedness: the buffer pair matching the tract's category has
    /// length equal to the dimension, the other pair is empty, and every
    /// buffered motor signal has a valid polarity.
    pub open spec fn wf(self) -> bool {
        &&& if self.kind.spec_is_efferent() {
            &&& self.motor_signals@.len() == self.dim
            &&& self.motor_prev@.len() == self.dim
            &&& self.sensory_signals@.len() == 0
            &&& self.sensory_prev@.len() == 0
        } else {
            &&& self.sensory_signals@.len() == self.dim
            &&& self.sensory_prev@.len() == self.dim
            &&& self.motor_signals@.len() == 0
            &&& self.motor_prev@.len() == 0
        }
        &&& forall|i: int| 0 <= i < self.motor_signals@.len() ==> self.motor_signals@[i].wf()
        &&& forall|i: int| 0 <= i < self.motor_prev@.len() ==> self.motor_prev@[i].wf()
    }

    /// Whether any signal is actively being transmitted on this tract.
    pub open spec fn spec_active(self) -> bool {
        if self.kind.spec_is_efferent() {
            spec_motor_active(self.motor_signals@)
        } else {
            spec_sensory_active(self.sensory_signals@)
        }
    }

    /// Sum of the absolute signal magnitudes on this tract.
    pub open spec fn spec_activity(self) -> int {
        if self.kind.spec_is_efferent() {
            spec_motor_sum(self.motor_signals@)
        } else {
            spec_sensory_sum(self.sensory_signals@)
        }
    }

    /// Create a new motor (efferent) tract at default property values.
    pub fn new_motor(kind: FiberTractKind, dim: usize) -> (r: FiberTract)
        requires
            kind.spec_is_efferent(),
        ensures
            r.wf(),
            r.kind == kind,
            r.dim == dim,
            r.motor_signals@ == Seq::new(dim as nat, |i: int| zero_signal()),
            r.motor_prev@ == Seq::new(dim as nat, |i: int| zero_signal()),
            r.conductivity == 128,
            r.jitter == 128,
            r.fatigue == 0,
            r.endurance == 128,
            r.elasticity == 128,
            r.sensitivity == 128,
            r.gain == 160,
            r.strength == 128,
            r.receptor_mode is Phasic,
            r.lifetime_activations == 0,
            r.recent_density == 0,
    {
        FiberTract {
            kind,
            dim,
            motor_signals: zero_signals(dim),
            sensory_signals: Vec::new(),
            motor_prev: zero_signals(dim),
            sensory_prev: Vec::new(),
            conductivity: 128,
            jitter: 128,
            fatigue: 0,
            endurance: 128,
            elasticity: 128,
            sensitivity: 128,
            gain: 160,
            strength: 128,
            receptor_mode: ReceptorMode::Phasic,
            lifetime_activations: 0,
            recent_density: 0,
        }
    }

    /// Create a new sensory (afferent) tract at default property values.
    pub fn new_sensory(kind: FiberTractKind, dim: usize) -> (r: FiberTract)
        requires
            kind.spec_is_afferent(),
        ensures
            r.wf(),
            r.kind == kind,
            r.dim == dim,
            r.sensory_signals@ == Seq::new(dim as nat, |i: int| 0i32),
            r.sensory_prev@ == Seq::new(dim as nat, |i: int| 0i32),
            r.conductivity == 128,
            r.jitter == 128,
            r.fatigue == 0,
            r.endurance == 128,
            r.elasticity == 128,
            r.sensitivity == 128,
            r.gain == 100,
            r.strength == 128,
            r.receptor_mode is Phasic,
            r.lifetime_activations == 0,
            r.recent_density == 0,
    {
        FiberTract {
            kind,
            dim,
            motor_signals: Vec::new(),
            sensory_signals: zero_values(dim),
            motor_prev: Vec::new(),
            sensory_prev: zero_values(dim),
            conductivity: 128,
            jitter: 128,
            fatigue: 0,
            endurance: 128,
            elasticity: 128,
            sensitivity: 128,
            gain: 100,
            strength: 128,
            receptor_mode: ReceptorMode::Phasic,
            lifetime_activations: 0,
            recent_density: 0,
        }
    }

    /// Transmit motor signals through this tract.
    ///
    /// Applies, per channel: gain, conductivity loss, fatigue, jitter,
    /// the recruitment threshold, and elasticity smoothing, in that
    /// order; channels beyond the input are zeroed. The shaped output is
    /// written to the motor signal buffer, and the previous-output buffer
    /// is left equal to it for the next tick's smoothing.
    pub fn transmit_motor(&mut self, input: &[Signal], rng_seed: u64)
        requires
            old(self).wf(),
            old(self).kind.spec_is_efferent(),
            forall|i: int| 0 <= i < input@.len() ==> input@[i].wf(),
        ensures
            final(self).wf(),
            *final(self) == (FiberTract {
                motor_signals: final(self).motor_signals,
                motor_prev: final(self).motor_prev,
                ..*old(self)
            }),
            final(self).motor_signals@.len() == old(self).dim,
            final(self).motor_prev@ == final(self).motor_signals@,
            ({
                let len = if input@.len() < old(self).dim {
                    input@.len() as int
                } else {
                    old(self).dim as int
                };
                &&& final(self).motor_signals@.take(len) == motor_trace(
                    *old(self),
                    input@,
                    old(self).motor_prev@,
                    rng_seed,
                    len,
                ).0
                &&& forall|i: int|
                    len <= i < old(self).dim ==> final(self).motor_signals@[i] == zero_signal()
            }),
    {
        let ghost t0 = *old(self);
        let len: usize = if input.len() < self.dim {
            input.len()
        } else {
            self.dim
        };
        let mut seed = rng_seed;
        let mut i: usize = 0;
        while i < len
            invariant
                i <= len,
                len == if input@.len() < t0.dim {
                    input@.len() as int
                } else {
                    t0.dim as int
                },
                t0.wf(),
                t0.kind.spec_is_efferent(),
                forall|j: int| 0 <= j < input@.len() ==> input@[j].wf(),
                *self == (FiberTract {
                    motor_signals: self.motor_signals,
                    motor_prev: self.motor_prev,
                    ..t0
                }),
                self.motor_signals@.len() == t0.dim,
                self.motor_prev@.len() == t0.dim,
                forall|j: int|
                    i <= j < t0.dim ==> self.motor_prev@[j] == t0.motor_prev@[j],
                forall|j: int|
                    0 <= j < i ==> self.motor_prev@[j] == self.motor_signals@[j],
                forall|j: int| 0 <= j < i ==> (#[trigger] self.motor_signals@[j]).wf(),
                self.motor_signals@.take(i as int) == motor_trace(
                    t0,
                    input@,
                    t0.motor_prev@,
                    rng_seed,
                    i as int,
                ).0,
                seed == motor_trace(t0, input@, t0.motor_prev@, rng_seed, i as int).1,
            decreases len - i,
        {
            let ghost seed0 = seed;
            let sig = input[i];
            let prev = self.motor_prev[i];
            let out: Signal;
            if sig.polarity == 0 || sig.magnitude == 0 {
                proof {
                    lemma_scale_le(prev.magnitude as int, 255 - self.elasticity, 255);
                }
                let sm = scale_mag(prev.magnitude as u32, 255 - self.elasticity as u32, 255);
                out = if sm == 0 {
                    Signal::zero()
                } else {
                    Signal { polarity: prev.polarity, magnitude: sm as u8 }
                };
                proof {
                    assert(out == motor_step(t0, sig, prev, seed0).0);
                    assert(seed == motor_step(t0, sig, prev, seed0).1);
                }
            } else {
                let m0: u32 = sig.magnitude as u32;
                let m1: u32 = scale_mag(m0, self.gain as u32, 128);
                proof {
                    assert(m1 <= 508) by {
                        vstd::arithmetic::mul::lemma_mul_upper_bound(
                            m0 as int,
                            255,
                            t0.gain as int,
                            255,
                        );
                        vstd::arithmetic::div_mod::lemma_div_is_ordered(
                            m0 as int * t0.gain as int,
                            65025,
                            128,
                        );
                    }
                }
                let m2: u32 = scale_mag(m1, self.conductivity as u32, 255);
                proof {
                    lemma_scale_le(m1 as int, t0.conductivity as int, 255);
                }
                let m3: u32 = scale_mag(m2, 255 - self.fatigue as u32, 255);
                proof {
                    lemma_scale_le(m2 as int, 255 - t0.fatigue, 255);
                }
                let mut mag: u32 = m3;
                let mut polarity = sig.polarity;
                if self.jitter > 0 {
                    seed = xorshift(seed);
                    let noise = (seed % (self.jitter as u64 / 4 + 1)) as u32;
                    seed = xorshift(seed);
                    if seed % 2 == 0 {
                        mag = mag + noise;
                        if mag > 512 {
                            mag = 512;
                        }
                    } else {
                        if noise > mag {
                            mag = 0;
                        } else {
                            mag = mag - noise;
                        }
                    }
                    if self.jitter > 200 {
                        seed = xorshift(seed);
                        if seed % 8 == 0 {
                            polarity = -polarity;
                        }
                    }
                }
                let threshold: u32 = 255 - (self.sensitivity as u32);
                if mag < threshold {
                    mag = 0;
                }
                let target_mag: u32 = if mag > 255 {
                    255
                } else {
                    mag
                };
                let prev_mag: u32 = prev.magnitude as u32;
                let final_mag: u32 = if target_mag >= prev_mag {
                    let d: u32 = target_mag - prev_mag;
                    proof {
                        lemma_scale_le(d as int, t0.elasticity as int, 255);
                    }
                    prev_mag + scale_mag(d, self.elasticity as u32, 255)
                } else {
                    let d: u32 = prev_mag - target_mag;
                    proof {
                        lemma_scale_le(d as int, t0.elasticity as int, 255);
                    }
                    prev_mag - scale_mag(d, self.elasticity as u32, 255)
                };
                out = if final_mag == 0 {
                    Signal::zero()
                } else {
                    Signal { polarity, magnitude: final_mag as u8 }
                };
                proof {
                    assert(out == motor_step(t0, sig, prev, seed0).0);
                    assert(seed == motor_step(t0, sig, prev, seed0).1);
                }
            }
            self.motor_signals.set(i, out);
            self.motor_prev.set(i, out);
            proof {
                assert(self.motor_signals@.take(i + 1)
                    =~= motor_trace(t0, input@, t0.motor_prev@, rng_seed, i as int).0.push(out));
            }
            i += 1;
        }
        let dim: usize = self.dim;
        let mut j: usize = len;
        while j < dim
            invariant
                len <= j <= dim,
                dim == t0.dim,
                len == if input@.len() < t0.dim {
                    input@.len() as int
                } else {
                    t0.dim as int
                },
                *self == (FiberTract {
                    motor_signals: self.motor_signals,
                    motor_prev: self.motor_prev,
                    ..t0
                }),
                self.motor_signals@.len() == t0.dim,
                self.motor_prev@.len() == t0.dim,
                forall|k: int|
                    0 <= k < j ==> self.motor_prev@[k] == self.motor_signals@[k],
                forall|k: int| 0 <= k < j ==> (#[trigger] self.motor_signals@[k]).wf(),
                forall|k: int|
                    len <= k < j ==> self.motor_signals@[k] == zero_signal(),
                self.motor_signals@.take(len as int) == motor_trace(
                    t0,
                    input@,
                    t0.motor_prev@,
                    rng_seed,
                    len as int,
                ).0,
            decreases dim - j,
        {
            self.motor_signals.set(j, Signal::zero());
            self.motor_prev.set(j, Signal::zero());
            proof {
                assert(self.motor_signals@.take(len as int) =~= motor_trace(
                    t0,
                    input@,
                    t0.motor_prev@,
                    rng_seed,
                    len as int,
                ).0);
            }
            j += 1;
        }
        proof {
            assert(self.motor_prev@ =~= self.motor_signals@);
        }
    }

    /// Transmit raw sensory readings through this tract.
    ///
    /// Applies, per channel: Weber-law quantization, then gain,
    /// conductivity loss, fatigue, jitter, the sensitivity threshold
    /// (phasic receptors only), and elasticity smoothing; channels beyond
    /// the input are zeroed. The shaped output is written to the sensory
    /// signal buffer, and the previous-output buffer is left equal to it.
    pub fn transmit_sensory(&mut self, input: &[i32], rng_seed: u64)
        requires
            old(self).wf(),
            old(self).kind.spec_is_afferent(),
        ensures
            final(self).wf(),
            *final(self) == (FiberTract {
                sensory_signals: final(self).sensory_signals,
                sensory_prev: final(self).sensory_prev,
                ..*old(self)
            }),
            final(self).sensory_signals@.len() == old(self).dim,
            final(self).sensory_prev@ == final(self).sensory_signals@,
            ({
                let len = if input@.len() < old(self).dim {
                    input@.len() as int
                } else {
                    old(self).dim as int
                };
                &&& final(self).sensory_signals@.take(len) == sensory_trace(
                    *old(self),
                    input@,
                    old(self).sensory_prev@,
                    rng_seed,
                    len,
                ).0
                &&& forall|i: int|
                    len <= i < old(self).dim ==> final(self).sensory_signals@[i] == 0i32
            }),
    {
        let ghost t0 = *old(self);
        let len: usize = if input.len() < self.dim {
            input.len()
        } else {
            self.dim
        };
        let mut seed = rng_seed;
        let mut i: usize = 0;
        while i < len
            invariant
                i <= len,
                len == if input@.len() < t0.dim {
                    input@.len() as int
                } else {
                    t0.dim as int
                },
                t0.wf(),
                t0.kind.spec_is_afferent(),
                *self == (FiberTract {
                    sensory_signals: self.sensory_signals,
                    sensory_prev: self.sensory_prev,
                    ..t0
                }),
                self.sensory_signals@.len() == t0.dim,
                self.sensory_prev@.len() == t0.dim,
                forall|j: int| i <= j < t0.dim ==> self.sensory_prev@[j] == t0.sensory_prev@[j],
                forall|j: int| 0 <= j < i ==> self.sensory_prev@[j] == self.sensory_signals@[j],
                self.sensory_signals@.take(i as int) == sensory_trace(
                    t0,
                    input@,
                    t0.sensory_prev@,
                    rng_seed,
                    i as int,
                ).0,
                seed == sensory_trace(t0, input@, t0.sensory_prev@, rng_seed, i as int).1,
            decreases len - i,
        {
            let ghost seed0 = seed;
            let raw = input[i];
            let prev = self.sensory_prev[i];
            let q = weber_quantize(raw);
            let out: i32;
            if q == 0 {
                let sm = scale_signed(prev as i64, 255 - self.elasticity as u32, 255);
                out = sm as i32;
                proof {
                    assert(out == sensory_step(t0, raw, prev, seed0).0);
                    assert(seed == sensory_step(t0, raw, prev, seed0).1);
                }
            } else {
                let v1 = scale_signed(q as i64, self.gain as u32, 128);
                let v2 = scale_signed(v1, self.conductivity as u32, 255);
                let v3 = scale_signed(v2, 255 - self.fatigue as u32, 255);
                let mut val: i64 = v3;
                if self.jitter > 0 {
                    seed = xorshift(seed);
                    let n0: u64 = seed % (self.jitter as u64 + 1);
                    val = val + (n0 as i64) - ((self.jitter / 2) as i64);
                }
                if match self.receptor_mode {
                    ReceptorMode::Phasic => true,
                    ReceptorMode::Tonic => false,
                } {
                    let thr: i64 = ((255 - self.sensitivity as u32) * 4) as i64;
                    let v_abs: i64 = if val >= 0 {
                        val
                    } else {
                        -val
                    };
                    if v_abs < thr {
                        val = 0;
                    }
                }
                let target: i32 = if val > 2147483647i64 {
                    2147483647i32
                } else if val < -2147483648i64 {
                    -2147483648i32
                } else {
                    val as i32
                };
                let delta: i64 = target as i64 - prev as i64;
                let sdelta = scale_signed(delta, self.elasticity as u32, 255);
                let sm: i64 = prev as i64 + sdelta;
                out = if sm > 2147483647i64 {
                    2147483647i32
                } else if sm < -2147483648i64 {
                    -2147483648i32
                } else {
                    sm as i32
                };
                proof {
                    assert(out == sensory_step(t0, raw, prev, seed0).0);
                    assert(seed == sensory_step(t0, raw, prev, seed0).1);
                }
            }
            self.sensory_signals.set(i, out);
            self.sensory_prev.set(i, out);
            proof {
                assert(self.sensory_signals@.take(i + 1)
                    =~= sensory_trace(t0, input@, t0.sensory_prev@, rng_seed, i as int).0.push(
                    out,
                ));
            }
            i += 1;
        }
        let dim: usize = self.dim;
        let mut j: usize = len;
        while j < dim
            invariant
                len <= j <= dim,
                dim == t0.dim,
                len == if input@.len() < t0.dim {
                    input@.len() as int
                } else {
                    t0.dim as int
                },
                *self == (FiberTract {
                    sensory_signals: self.sensory_signals,
                    sensory_prev: self.sensory_prev,
                    ..t0
                }),
                self.sensory_signals@.len() == t0.dim,
                self.sensory_prev@.len() == t0.dim,
                forall|k: int| 0 <= k < j ==> self.sensory_prev@[k] == self.sensory_signals@[k],
                forall|k: int| len <= k < j ==> self.sensory_signals@[k] == 0i32,
                self.sensory_signals@.take(len as int) == sensory_trace(
                    t0,
                    input@,
                    t0.sensory_prev@,
                    rng_seed,
                    len as int,
                ).0,
            decreases dim - j,
        {
            self.sensory_signals.set(j, 0);
            self.sensory_prev.set(j, 0);
            proof {
                assert(self.sensory_signals@.take(len as int) =~= sensory_trace(
                    t0,
                    input@,
                    t0.sensory_prev@,
                    rng_seed,
                    len as int,
                ).0);
            }
            j += 1;
        }
        proof {
            assert(self.sensory_prev@ =~= self.sensory_signals@);
        }
    }

    /// Whether any signal is actively being transmitted.
    pub fn is_active(&self) -> (r: bool)
        ensures
            r == self.spec_active(),
    {
        if self.kind.is_efferent() {
            let mut i: usize = 0;
            let mut found = false;
            while i < self.motor_signals.len()
                invariant
                    i <= self.motor_signals@.len(),
                    found == spec_motor_active(self.motor_signals@.take(i as int)),
                decreases self.motor_signals@.len() - i,
            {
                let s = self.motor_signals[i];
                if s.polarity != 0 && s.magnitude > 0 {
                    found = true;
                }
                proof {
                    assert(self.motor_signals@.take(i + 1).drop_last()
                        == self.motor_signals@.take(i as int));
                    assert(self.motor_signals@.take(i + 1).last() == s);
                    if found {
                        if s.polarity != 0 && s.magnitude > 0 {
                            assert(self.motor_signals@.take(i + 1)[i as int] == s);
                        } else {
                            let w = choose|j: int|
                                0 <= j < i && self.motor_signals@.take(i as int)[j].polarity != 0
                                    && self.motor_signals@.take(i as int)[j].magnitude > 0;
                            assert(self.motor_signals@.take(i + 1)[w].polarity != 0);
                        }
                    }
                }
                i += 1;
            }
            proof {
                assert(self.motor_signals@.take(self.motor_signals@.len() as int)
                    == self.motor_signals@);
            }
            found
        } else {
            let mut i: usize = 0;
            let mut found = false;
            while i < self.sensory_signals.len()
                invariant
                    i <= self.sensory_signals@.len(),
                    found == spec_sensory_active(self.sensory_signals@.take(i as int)),
                decreases self.sensory_signals@.len() - i,
            {
                let v = self.sensory_signals[i];
                if v != 0 {
                    found = true;
                }
                proof {
                    if found {
                        if v != 0 {
                            assert(self.sensory_signals@.take(i + 1)[i as int] == v);
                        } else {
                            let w = choose|j: int|
                                0 <= j < i && self.sensory_signals@.take(i as int)[j] != 0;
                            assert(self.sensory_signals@.take(i + 1)[w] != 0);
                        }
                    } else {
                        assert(forall|j: int|
                            0 <= j < i + 1 ==> #[trigger] self.sensory_signals@.take(i + 1)[j]
                                == 0);
                    }
                }
                i += 1;
            }
            proof {
                assert(self.sensory_signals@.take(self.sensory_signals@.len() as int)
                    == self.sensory_signals@);
            }
            found
        }
    }

    /// Sum of absolute signal magnitudes (activity level), saturating at
    /// the u64 range.
    pub fn activity_level(&self) -> (r: u64)
        ensures
            r == sat_u64(self.spec_activity()),
    {
        if self.kind.is_efferent() {
            let mut i: usize = 0;
            let mut acc: u64 = 0;
            while i < self.motor_signals.len()
                invariant
                    i <= self.motor_signals@.len(),
                    acc == sat_u64(spec_motor_sum(self.motor_signals@.take(i as int))),
                decreases self.motor_signals@.len() - i,
            {
                proof {
                    assert(self.motor_signals@.take(i + 1).drop_last()
                        == self.motor_signals@.take(i as int));
                    assert(spec_motor_sum(self.motor_signals@.take(i as int)) >= 0) by {
                        lemma_motor_sum_nonneg(self.motor_signals@.take(i as int));
                    }
                }
                acc = acc.saturating_add(self.motor_signals[i].magnitude as u64);
                i += 1;
            }
            proof {
                assert(self.motor_signals@.take(self.motor_signals@.len() as int)
                    == self.motor_signals@);
            }
            acc
        } else {
            let mut i: usize = 0;
            let mut acc: u64 = 0;
            while i < self.sensory_signals.len()
                invariant
                    i <= self.sensory_signals@.len(),
                    acc == sat_u64(spec_sensory_sum(self.sensory_signals@.take(i as int))),
                decreases self.sensory_signals@.len() - i,
            {
                proof {
                    assert(self.sensory_signals@.take(i + 1).drop_last()
                        == self.sensory_signals@.take(i as int));
                    assert(spec_sensory_sum(self.sensory_signals@.take(i as int)) >= 0) by {
                        lemma_sensory_sum_nonneg(self.sensory_signals@.take(i as int));
                    }
                }
                let v = self.sensory_signals[i];
                let a: u64 = if v >= 0 {
                    v as u64
                } else {
                    (-(v as i64)) as u64
                };
                acc = acc.saturating_add(a);
                i += 1;
            }
            proof {
                assert(self.sensory_signals@.take(self.sensory_signals@.len() as int)
                    == self.sensory_signals@);
            }
            acc
        }
    }
}

/// Saturating byte addition: the sum, capped at 255.
pub open spec fn sadd8(a: u8, b: u8) -> u8 {
    if a + b > 255 {
        255u8
    } else {
        (a + b) as u8
    }
}

/// Saturating byte subtraction: the difference, floored at 0.
pub open spec fn ssub8(a: u8, b: u8) -> u8 {
    if a - b < 0 {
        0u8
    } else {
        (a - b) as u8
    }
}

/// Clamping of a quantity into a closed interval.
pub open spec fn clamp_int(x: int, lo: int, hi: int) -> int {
    if x < lo {
        lo
    } else if x > hi {
        hi
    } else {
        x
    }
}

/// Truncating scaled division `v * f / d`: the division is taken on the
/// absolute value and the sign reapplied, matching machine division that
/// truncates toward zero.
pub open spec fn scale_trunc(v: int, f: int, d: int) -> int {
    if v >= 0 {
        v * f / d
    } else {
        -((-v) * f / d)
    }
}

/// Scaling a non-negative quantity by a fraction of at most one keeps it
/// between zero and itself.
proof fn lemma_scale_le(x: int, f: int, d: int)
    requires
        0 <= x,
        0 <= f <= d,
        0 < d,
    ensures
        0 <= x * f / d <= x,
{
    vstd::arithmetic::mul::lemma_mul_nonnegative(x, f);
    vstd::arithmetic::div_mod::lemma_div_pos_is_pos(x * f, d);
    vstd::arithmetic::mul::lemma_mul_inequality(f, d, x);
    vstd::arithmetic::mul::lemma_mul_is_commutative(x, f);
    vstd::arithmetic::mul::lemma_mul_is_commutative(x, d);
    vstd::arithmetic::div_mod::lemma_div_is_ordered(x * f, x * d, d);
    vstd::arithmetic::div_mod::lemma_div_by_multiple(x, d);
}

/// Scaled division `m * f / d` on magnitudes small enough that the
/// product cannot overflow.
fn scale_mag(m: u32, f: u32, d: u32) -> (r: u32)
    requires
        m <= 65535,
        f <= 65535,
        d > 0,
    ensures
        r == m as int * f as int / d as int,
{
    proof {
        vstd::arithmetic::mul::lemma_mul_upper_bound(m as int, 65535, f as int, 65535);
        vstd::arithmetic::mul::lemma_mul_nonnegative(m as int, f as int);
    }
    m * f / d
}

/// Decay of a silent channel: the previous output's magnitude shrinks by
/// the elasticity fraction (higher elasticity decays faster), keeping its
/// polarity until the magnitude reaches zero.
pub open spec fn motor_decay(prev: Signal, elasticity: u8) -> Signal {
    let sm = prev.magnitude * (255 - elasticity) / 255;
    if sm == 0 {
        zero_signal()
    } else {
        (Signal { polarity: prev.polarity, magnitude: sm as u8 })
    }
}

/// One channel of the motor transmission pipeline: gain scaling, then
/// conductivity loss, fatigue degradation, jitter noise, the recruitment
/// threshold, a clamp to 0..=255, and elasticity smoothing toward the
/// target. Returns the shaped output signal and the noise seed left for
/// the next channel. A silent input instead decays the previous output.
pub open spec fn motor_step(t: FiberTract, sig: Signal, prev: Signal, seed: u64) -> (Signal, u64) {
    if sig.polarity == 0 || sig.magnitude == 0 {
        (motor_decay(prev, t.elasticity), seed)
    } else {
        let m_gain = sig.magnitude * t.gain / 128;
        let m_cond = m_gain * t.conductivity / 255;
        let m_fat = m_cond * (255 - t.fatigue) / 255;
        let s1 = spec_xorshift(seed);
        let s2 = spec_xorshift(s1);
        let s3 = spec_xorshift(s2);
        let m_jit = if t.jitter == 0 {
            m_fat
        } else {
            let noise = (s1 % ((t.jitter / 4 + 1) as u64)) as int;
            clamp_int(
                if s2 % 2 == 0 {
                    m_fat + noise
                } else {
                    m_fat - noise
                },
                0,
                512,
            )
        };
        let pol: i8 = if t.jitter > 200 && s3 % 8 == 0 {
            (-sig.polarity) as i8
        } else {
            sig.polarity
        };
        let seed_out = if t.jitter == 0 {
            seed
        } else if t.jitter > 200 {
            s3
        } else {
            s2
        };
        let m_thr = if m_jit < 255 - t.sensitivity {
            0
        } else {
            m_jit
        };
        let m_clamp = if m_thr > 255 {
            255
        } else {
            m_thr
        };
        let sm = clamp_int(
            prev.magnitude + scale_trunc(m_clamp - prev.magnitude, t.elasticity as int, 255),
            0,
            255,
        );
        let out = if sm == 0 {
            zero_signal()
        } else {
            (Signal { polarity: pol, magnitude: sm as u8 })
        };
        (out, seed_out)
    }
}

/// The motor pipeline over the first `n` channels: the sequence of shaped
/// outputs and the noise seed left after them. The seed threads from one
/// channel to the next, so a channel's noise depends on the draws of the
/// channels before it.
pub open spec fn motor_trace(
    t: FiberTract,
    input: Seq<Signal>,
    prev: Seq<Signal>,
    seed: u64,
    n: int,
) -> (Seq<Signal>, u64)
    decreases n,
{
    if n <= 0 {
        (Seq::empty(), seed)
    } else {
        let r = motor_trace(t, input, prev, seed, n - 1);
        let s = motor_step(t, input[n - 1], prev[n - 1], r.1);
        (r.0.push(s.0), s.1)
    }
}

/// Scaling a non-negative quantity by a fraction of at most two keeps it
/// at or below its double.
proof fn lemma_scale_le2(x: int, f: int, d: int)
    requires
        0 <= x,
        0 <= f <= 2 * d,
        0 < d,
    ensures
        0 <= x * f / d <= 2 * x,
{
    vstd::arithmetic::mul::lemma_mul_nonnegative(x, f);
    vstd::arithmetic::div_mod::lemma_div_pos_is_pos(x * f, d);
    vstd::arithmetic::mul::lemma_mul_inequality(f, 2 * d, x);
    vstd::arithmetic::mul::lemma_mul_is_commutative(x, f);
    vstd::arithmetic::mul::lemma_mul_is_commutative(x, 2 * d);
    vstd::arithmetic::div_mod::lemma_div_is_ordered(x * f, x * (2 * d), d);
    vstd::arithmetic::div_mod::lemma_div_by_multiple(2 * x, d);
    assert(x * (2 * d) == (2 * x) * d) by (nonlinear_arith);
}

/// Truncating scaled division of a signed value, `v * f / d` with the
/// division taken on the magnitude and the sign reapplied.
fn scale_signed(v: i64, f: u32, d: u32) -> (r: i64)
    requires
        d > 0,
        f <= 1024,
        -0x10_0000_0000i64 <= v <= 0x10_0000_0000i64,
    ensures
        r == scale_trunc(v as int, f as int, d as int),
        f <= d ==> abs_int(r as int) <= abs_int(v as int),
        f <= 2 * d ==> abs_int(r as int) <= 2 * abs_int(v as int),
{
    let a: u64 = if v >= 0 {
        v as u64
    } else {
        (-v) as u64
    };
    proof {
        assert(a == abs_int(v as int));
        vstd::arithmetic::mul::lemma_mul_upper_bound(a as int, 0x10_0000_0000, f as int, 1024);
        vstd::arithmetic::mul::lemma_mul_nonnegative(a as int, f as int);
        if f <= d {
            lemma_scale_le(a as int, f as int, d as int);
        }
        if f <= 2 * d {
            lemma_scale_le2(a as int, f as int, d as int);
        }
    }
    let m: u64 = a * (f as u64) / (d as u64);
    if v >= 0 {
        m as i64
    } else {
        -(m as i64)
    }
}

/// Decay of a silent sensory channel: the previous output shrinks toward
/// zero by the elasticity fraction.
pub open spec fn sensory_decay(prev: i32, elasticity: u8) -> i32 {
    scale_trunc(prev as int, 255 - elasticity, 255) as i32
}

/// The value a sensory channel carries just before the sensitivity gate:
/// the Weber-quantized input after gain scaling, conductivity loss,
/// fatigue degradation and jitter noise.
pub open spec fn sensory_pregate(t: FiberTract, x: i32, seed: u64) -> int {
    let q = spec_weber_quantize(x as int);
    let v1 = scale_trunc(q, t.gain as int, 128);
    let v2 = scale_trunc(v1, t.conductivity as int, 255);
    let v3 = scale_trunc(v2, 255 - t.fatigue, 255);
    if t.jitter == 0 {
        v3
    } else {
        v3 + (spec_xorshift(seed) % ((t.jitter + 1) as u64)) - t.jitter / 2
    }
}

/// One channel of the sensory transmission pipeline: Weber quantization
/// first, then gain scaling, conductivity loss, fatigue degradation,
/// jitter noise, the sensitivity threshold (phasic mode only — tonic
/// receptors bypass it), a clamp to the i32 range, and elasticity
/// smoothing toward the target. Returns the shaped output value and the
/// noise seed left for the next channel. An input that quantizes to zero
/// instead decays the previous output.
pub open spec fn sensory_step(t: FiberTract, x: i32, prev: i32, seed: u64) -> (i32, u64) {
    let q = spec_weber_quantize(x as int);
    if q == 0 {
        (sensory_decay(prev, t.elasticity), seed)
    } else {
        let v4 = sensory_pregate(t, x, seed);
        let seed_out = if t.jitter == 0 {
            seed
        } else {
            spec_xorshift(seed)
        };
        let v5 = if t.receptor_mode is Phasic && abs_int(v4) < (255 - t.sensitivity) * 4 {
            0
        } else {
            v4
        };
        let target = clamp_int(v5, -0x8000_0000, 0x7fff_ffff);
        let sm = clamp_int(
            prev + scale_trunc(target - prev, t.elasticity as int, 255),
            -0x8000_0000,
            0x7fff_ffff,
        );
        (sm as i32, seed_out)
    }
}

/// The sensory pipeline over the first `n` channels: the sequence of
/// shaped outputs and the noise seed left after them.
pub open spec fn sensory_trace(
    t: FiberTract,
    input: Seq<i32>,
    prev: Seq<i32>,
    seed: u64,
    n: int,
) -> (Seq<i32>, u64)
    decreases n,
{
    if n <= 0 {
        (Seq::empty(), seed)
    } else {
        let r = sensory_trace(t, input, prev, seed, n - 1);
        let s = sensory_step(t, input[n - 1], prev[n - 1], r.1);
        (r.0.push(s.0), s.1)
    }
}

/// The magnitude sum of a motor buffer is never negative.
proof fn lemma_motor_sum_nonneg(s: Seq<Signal>)
    ensures
        spec_motor_sum(s) >= 0,
    decreases s.len(),
{
    if s.len() > 0 {
        lemma_motor_sum_nonneg(s.drop_last());
    }
}

/// The absolute-value sum of a sensory buffer is never negative.
proof fn lemma_sensory_sum_nonneg(s: Seq<i32>)
    ensures
        spec_sensory_sum(s) >= 0,
    decreases s.len(),
{
    if s.len() > 0 {
        lemma_sensory_sum_nonneg(s.drop_last());
    }
}

/// Motor amplification law: with perfect conductivity, no fatigue, no
/// jitter, full sensitivity (so no recruitment threshold) and instant
/// elasticity, a nonzero input channel's output magnitude is exactly
/// `magnitude * gain / 128` — gain 128 is unity, above amplifies, below
/// attenuates — and its polarity is preserved.
pub proof fn lemma_motor_amplification(t: FiberTract, sig: Signal, prev: Signal, seed: u64)
    requires
        t.conductivity == 255,
        t.jitter == 0,
        t.fatigue == 0,
        t.sensitivity == 255,
        t.elasticity == 255,
        sig.wf(),
        sig.polarity != 0,
        sig.magnitude > 0,
        sig.magnitude * t.gain / 128 <= 255,
    ensures
        motor_step(t, sig, prev, seed).0.magnitude == sig.magnitude * t.gain / 128,
        sig.magnitude * t.gain / 128 > 0 ==> motor_step(t, sig, prev, seed).0.polarity
            == sig.polarity,
        sig.magnitude * t.gain / 128 == 0 ==> motor_step(t, sig, prev, seed).0 == zero_signal(),
        motor_step(t, sig, prev, seed).1 == seed,
{
    let m1 = sig.magnitude * t.gain / 128;
    vstd::arithmetic::mul::lemma_mul_nonnegative(sig.magnitude as int, t.gain as int);
    vstd::arithmetic::div_mod::lemma_div_pos_is_pos(sig.magnitude * t.gain, 128);
    vstd::arithmetic::div_mod::lemma_div_by_multiple(m1, 255);
    if m1 >= prev.magnitude {
        vstd::arithmetic::div_mod::lemma_div_by_multiple(m1 - prev.magnitude, 255);
    } else {
        vstd::arithmetic::div_mod::lemma_div_by_multiple(prev.magnitude - m1, 255);
    }
}

/// Fatigue degradation law: with unity gain, perfect conductivity, no
/// jitter, full sensitivity and instant elasticity, a nonzero input
/// channel's output magnitude is exactly `magnitude * (255 - fatigue) /
/// 255` — output degrades proportionally as fatigue accumulates.
pub proof fn lemma_motor_fatigue(t: FiberTract, sig: Signal, prev: Signal, seed: u64)
    requires
        t.gain == 128,
        t.conductivity == 255,
        t.jitter == 0,
        t.sensitivity == 255,
        t.elasticity == 255,
        sig.wf(),
        sig.polarity != 0,
        sig.magnitude > 0,
    ensures
        motor_step(t, sig, prev, seed).0.magnitude == sig.magnitude * (255 - t.fatigue) / 255,
        motor_step(t, sig, prev, seed).1 == seed,
{
    vstd::arithmetic::div_mod::lemma_div_by_multiple(sig.magnitude as int, 128);
    vstd::arithmetic::div_mod::lemma_div_by_multiple(sig.magnitude as int, 255);
    let m3 = sig.magnitude * (255 - t.fatigue) / 255;
    lemma_scale_le(sig.magnitude as int, 255 - t.fatigue, 255);
    if m3 >= prev.magnitude {
        vstd::arithmetic::div_mod::lemma_div_by_multiple(m3 - prev.magnitude, 255);
    } else {
        vstd::arithmetic::div_mod::lemma_div_by_multiple(prev.magnitude - m3, 255);
    }
}

/// Phasic gating law: a phasic receptor zeroes any channel whose
/// ungated pipeline value falls below the sensitivity threshold
/// `(255 - sensitivity) * 4` in absolute value; with instant elasticity
/// the channel's output is exactly zero.
pub proof fn lemma_phasic_gates(t: FiberTract, x: i32, prev: i32, seed: u64)
    requires
        t.receptor_mode is Phasic,
        t.elasticity == 255,
        spec_weber_quantize(x as int) != 0,
        abs_int(sensory_pregate(t, x, seed)) < (255 - t.sensitivity) * 4,
    ensures
        sensory_step(t, x, prev, seed).0 == 0i32,
{
    if 0 >= prev {
        vstd::arithmetic::div_mod::lemma_div_by_multiple(0 - prev, 255);
    } else {
        vstd::arithmetic::div_mod::lemma_div_by_multiple(prev as int, 255);
    }
}

/// Phasic pass-through law: a value at or above the sensitivity
/// threshold is not gated — with instant elasticity the phasic output
/// equals the ungated value itself.
pub proof fn lemma_phasic_passes(t: FiberTract, x: i32, prev: i32, seed: u64)
    requires
        t.receptor_mode is Phasic,
        t.elasticity == 255,
        spec_weber_quantize(x as int) != 0,
        abs_int(sensory_pregate(t, x, seed)) >= (255 - t.sensitivity) * 4,
        -0x8000_0000 <= sensory_pregate(t, x, seed) <= 0x7fff_ffff,
    ensures
        sensory_step(t, x, prev, seed).0 == sensory_pregate(t, x, seed),
{
    let v4 = sensory_pregate(t, x, seed);
    if v4 >= prev {
        vstd::arithmetic::div_mod::lemma_div_by_multiple(v4 - prev, 255);
    } else {
        vstd::arithmetic::div_mod::lemma_div_by_multiple(prev - v4, 255);
    }
}

/// Tonic bypass law: a tonic receptor applies no sensitivity threshold.
/// For the identical property configuration and input, a value that
/// phasic mode gates to zero passes through a tonic receptor unchanged,
/// and a value phasic mode does not gate comes out the same in both
/// modes.
pub proof fn lemma_tonic_bypasses_threshold(t: FiberTract, x: i32, prev: i32, seed: u64)
    requires
        t.receptor_mode is Phasic,
        t.elasticity == 255,
        spec_weber_quantize(x as int) != 0,
        -0x8000_0000 <= sensory_pregate(t, x, seed) <= 0x7fff_ffff,
    ensures
        ({
            let v4 = sensory_pregate(t, x, seed);
            let tonic = (FiberTract { receptor_mode: ReceptorMode::Tonic, ..t });
            &&& sensory_step(tonic, x, prev, seed).0 == v4
            &&& abs_int(v4) < (255 - t.sensitivity) * 4 ==> sensory_step(t, x, prev, seed).0
                == 0i32
            &&& abs_int(v4) >= (255 - t.sensitivity) * 4 ==> sensory_step(t, x, prev, seed).0
                == v4
        }),
{
    let v4 = sensory_pregate(t, x, seed);
    let tonic = (FiberTract { receptor_mode: ReceptorMode::Tonic, ..t });
    assert(sensory_pregate(tonic, x, seed) == v4);
    if v4 >= prev {
        vstd::arithmetic::div_mod::lemma_div_by_multiple(v4 - prev, 255);
    } else {
        vstd::arithmetic::div_mod::lemma_div_by_multiple(prev - v4, 255);
    }
    if abs_int(v4) < (255 - t.sensitivity) * 4 {
        lemma_phasic_gates(t, x, prev, seed);
    } else {
        lemma_phasic_passes(t, x, prev, seed);
    }
}

/// A tract's activity level is never negative.
pub proof fn lemma_activity_nonneg(t: FiberTract)
    ensures
        t.spec_activity() >= 0,
{
    lemma_motor_sum_nonneg(t.motor_signals@);
    lemma_sensory_sum_nonneg(t.sensory_signals@);
}

/// A vector of `dim` silent signals.
fn zero_signals(dim: usize) -> (r: Vec<Signal>)
    ensures
        r@ == Seq::new(dim as nat, |i: int| zero_signal()),
{
    let mut v: Vec<Signal> = Vec::new();
    let mut i: usize = 0;
    while i < dim
        invariant
            i <= dim,
            v@ == Seq::new(i as nat, |j: int| zero_signal()),
        decreases dim - i,
    {
        v.push(Signal::zero());
        proof {
            assert(v@ == Seq::new((i + 1) as nat, |j: int| zero_signal())) by {
                assert(v@ =~= Seq::new((i + 1) as nat, |j: int| zero_signal()));
            }
        }
        i += 1;
    }
    v
}

/// A vector of `dim` zero readings.
fn zero_values(dim: usize) -> (r: Vec<i32>)
    ensures
        r@ == Seq::new(dim as nat, |i: int| 0i32),
{
    let mut v: Vec<i32> = Vec::new();
    let mut i: usize = 0;
    while i < dim
        invariant
            i <= dim,
            v@ == Seq::new(i as nat, |j: int| 0i32),
        decreases dim - i,
    {
        v.push(0);
        proof {
            assert(v@ == Seq::new((i + 1) as nat, |j: int| 0i32)) by {
                assert(v@ =~= Seq::new((i + 1) as nat, |j: int| 0i32));
            }
        }
        i += 1;
    }
    v
}

} // verus!
