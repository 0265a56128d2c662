//! Use-dependent adaptation — connective-tissue remodeling.
//!
//! Tracts do not learn; they adapt. Properties change with usage
//! patterns, every simulation tick: active tracts myelinate, accumulate
//! fatigue (tempered by endurance) and, under sustained exertion, grow
//! stronger; idle tracts recover fatigue (helped by endurance),
//! demyelinate, lose precision, and — once the rolling density reaches
//! zero after prior use — atrophy. All mutations saturate within 0..=255
//! and never wrap.

use vstd::prelude::*;

use crate::bundle::FiberBundle;
use crate::tract::FiberTract;

verus! {

/// Adaptation rate constants, all bounded integers. These control how
/// fast properties change per tick; the configuration is caller-owned
/// and reusable.
#[derive(Clone, Copy, Debug)]
pub struct AdaptationConfig {
    /// How fast conductivity improves with use (per active tick).
    pub myelination_rate: u8,
    /// How fast conductivity degrades without use (per idle tick).
    pub demyelination_rate: u8,
    /// How fast jitter decreases with consistent use (practice effect).
    pub jitter_improvement_rate: u8,
    /// How fast jitter increases during disuse (skill decay).
    pub jitter_decay_rate: u8,
    /// How fast fatigue accumulates during active transmission.
    pub fatigue_rate: u8,
    /// How fast fatigue recovers during rest.
    pub recovery_rate: u8,
    /// How fast strength grows with sustained effort.
    pub strengthening_rate: u8,
    /// How fast strength decays during disuse (atrophy).
    pub atrophy_rate: u8,
    /// Ticks of inactivity before atrophy begins.
    pub atrophy_delay: u8,
    /// Activity density below which a tract counts as idle.
    pub idle_threshold: u8,
}

/// The default adaptation rates: recovery slightly faster than fatigue
/// accrual (3 to 2), and an idle threshold of 10 out of 255.
pub open spec fn spec_default_config() -> AdaptationConfig {
    AdaptationConfig {
        myelination_rate: 1,
        demyelination_rate: 1,
        jitter_improvement_rate: 1,
        jitter_decay_rate: 1,
        fatigue_rate: 2,
        recovery_rate: 3,
        strengthening_rate: 1,
        atrophy_rate: 1,
        atrophy_delay: 50,
        idle_threshold: 10,
    }
}

impl Default for AdaptationConfig {
    /// The default rates favor recovery over fatigue accrual.
    fn default() -> (r: AdaptationConfig)
        ensures
            r == spec_default_config(),
    {
        AdaptationConfig {
            myelination_rate: 1,
            demyelination_rate: 1,
            jitter_improvement_rate: 1,
            jitter_decay_rate: 1,
            fatigue_rate: 2,
            recovery_rate: 3,
            strengthening_rate: 1,
            atrophy_rate: 1,
            atrophy_delay: 50,
            idle_threshold: 10,
        }
    }
}

/// The effective per-tick fatigue accrual rate: the configured rate
/// tempered by endurance, floored at zero, so high endurance can fully
/// cancel fatigue accrual.
pub open spec fn eff_fatigue_rate(c: AdaptationConfig, endurance: u8) -> int {
    if c.fatigue_rate > endurance / 32 {
        c.fatigue_rate - endurance / 32
    } else {
        0
    }
}

/// One adaptation tick of a tract.
///
/// If the tract is active: the lifetime count and rolling density rise
/// (both saturating), conductivity myelinates, jitter improves once the
/// density exceeds 128, fatigue accrues at the endurance-tempered rate,
/// and strength grows when fatigue exceeds 128 with density above 100.
/// If idle: density decays by at least one, fatigue recovers at the
/// endurance-boosted rate, conductivity demyelinates and jitter worsens
/// below the idle threshold, and strength atrophies once density is zero
/// on a tract that was used before. Density comparisons read the density
/// as it stood at the start of the tick.
pub open spec fn spec_adapt(t: FiberTract, c: AdaptationConfig) -> FiberTract {
    let d = t.recent_density;
    if t.spec_active() {
        let growth = if (255 - d) / 16 > 1 {
            (255 - d) / 16
        } else {
            1
        };
        let new_fatigue = if t.fatigue + eff_fatigue_rate(c, t.endurance) > 255 {
            255u8
        } else {
            (t.fatigue + eff_fatigue_rate(c, t.endurance)) as u8
        };
        FiberTract {
            lifetime_activations: if t.lifetime_activations + 1 > u64::MAX {
                u64::MAX
            } else {
                (t.lifetime_activations + 1) as u64
            },
            recent_density: if d + growth > 255 {
                255u8
            } else {
                (d + growth) as u8
            },
            conductivity: if t.conductivity + c.myelination_rate > 255 {
                255u8
            } else {
                (t.conductivity + c.myelination_rate) as u8
            },
            jitter: if d > 128 {
                if t.jitter - c.jitter_improvement_rate < 0 {
                    0u8
                } else {
                    (t.jitter - c.jitter_improvement_rate) as u8
                }
            } else {
                t.jitter
            },
            fatigue: new_fatigue,
            strength: if new_fatigue > 128 && d > 100 {
                if t.strength + c.strengthening_rate > 255 {
                    255u8
                } else {
                    (t.strength + c.strengthening_rate) as u8
                }
            } else {
                t.strength
            },
            ..t
        }
    } else {
        let decay = if d / 16 > 1 {
            d / 16
        } else {
            1
        };
        let recovery = c.recovery_rate + t.endurance / 64;
        FiberTract {
            recent_density: if d - decay < 0 {
                0u8
            } else {
                (d - decay) as u8
            },
            fatigue: if t.fatigue - recovery < 0 {
                0u8
            } else {
                (t.fatigue - recovery) as u8
            },
            conductivity: if d < c.idle_threshold {
                if t.conductivity - c.demyelination_rate < 0 {
                    0u8
                } else {
                    (t.conductivity - c.demyelination_rate) as u8
                }
            } else {
                t.conductivity
            },
            jitter: if d < c.idle_threshold {
                if t.jitter + c.jitter_decay_rate > 255 {
                    255u8
                } else {
                    (t.jitter + c.jitter_decay_rate) as u8
                }
            } else {
                t.jitter
            },
            strength: if d == 0 && t.lifetime_activations > 0 {
                if t.strength - c.atrophy_rate < 0 {
                    0u8
                } else {
                    (t.strength - c.atrophy_rate) as u8
                }
            } else {
                t.strength
            },
            ..t
        }
    }
}

/// The tract state after `n` adaptation ticks with no transmission in
/// between.
pub open spec fn spec_adapt_n(t: FiberTract, c: AdaptationConfig, n: nat) -> FiberTract
    decreases n,
{
    if n == 0 {
        t
    } else {
        spec_adapt(spec_adapt_n(t, c, (n - 1) as nat), c)
    }
}

/// Tick a single tract's adaptation.
///
/// Call once per simulation tick for each tract, conventionally after
/// transmission. Reads the tract's current activity and rolling density
/// and updates its physical properties and counters.
pub fn adapt_tract(tract: &mut FiberTract, config: &AdaptationConfig)
    ensures
        *final(tract) == spec_adapt(*old(tract), *config),
{
    let active = tract.is_active();
    let density = tract.recent_density;

    if active {
        tract.lifetime_activations = tract.lifetime_activations.saturating_add(1);

        let g = (255 - density) / 16;
        let growth = if g > 1 {
            g
        } else {
            1
        };
        tract.recent_density = density.saturating_add(growth);

        tract.conductivity = tract.conductivity.saturating_add(config.myelination_rate);

        if density > 128 {
            tract.jitter = tract.jitter.saturating_sub(config.jitter_improvement_rate);
        }

        let tempering = tract.endurance / 32;
        let effective_rate = if config.fatigue_rate > tempering {
            config.fatigue_rate - tempering
        } else {
            0
        };
        tract.fatigue = tract.fatigue.saturating_add(effective_rate);

        if tract.fatigue > 128 && density > 100 {
            tract.strength = tract.strength.saturating_add(config.strengthening_rate);
        }
    } else {
        let g = density / 16;
        let decay = if g > 1 {
            g
        } else {
            1
        };
        tract.recent_density = density.saturating_sub(decay);

        let recovery = config.recovery_rate.saturating_add(tract.endurance / 64);
        tract.fatigue = tract.fatigue.saturating_sub(recovery);

        if density < config.idle_threshold {
            tract.conductivity = tract.conductivity.saturating_sub(config.demyelination_rate);
            tract.jitter = tract.jitter.saturating_add(config.jitter_decay_rate);
        }

        if density == 0 && tract.lifetime_activations > 0 {
            tract.strength = tract.strength.saturating_sub(config.atrophy_rate);
        }
    }
}

/// Tick adaptation for every tract in a bundle, each independently.
pub fn adapt_bundle(bundle: &mut FiberBundle, config: &AdaptationConfig)
    ensures
        final(bundle).name@ == old(bundle).name@,
        final(bundle).tracts@.len() == old(bundle).tracts@.len(),
        forall|i: int|
            0 <= i < old(bundle).tracts@.len() ==> final(bundle).tracts@[i] == spec_adapt(
                old(bundle).tracts@[i],
                *config,
            ),
{
    let n = bundle.tracts.len();
    let mut i: usize = 0;
    while i < n
        invariant
            i <= n,
            n == old(bundle).tracts@.len(),
            bundle.tracts@.len() == n,
            bundle.name@ == old(bundle).name@,
            forall|j: int| i <= j < n ==> bundle.tracts@[j] == old(bundle).tracts@[j],
            forall|j: int|
                0 <= j < i ==> bundle.tracts@[j] == spec_adapt(old(bundle).tracts@[j], *config),
        decreases n - i,
    {
        adapt_tract(&mut bundle.tracts[i], config);
        i += 1;
    }
}

/// Adaptation touches only the physical properties and counters: the
/// tract's identity, buffers, and with them its activity, are unchanged,
/// as are the properties adaptation does not drive.
pub proof fn lemma_adapt_preserves(t: FiberTract, c: AdaptationConfig)
    ensures
        spec_adapt(t, c) == (FiberTract {
            conductivity: spec_adapt(t, c).conductivity,
            jitter: spec_adapt(t, c).jitter,
            fatigue: spec_adapt(t, c).fatigue,
            strength: spec_adapt(t, c).strength,
            lifetime_activations: spec_adapt(t, c).lifetime_activations,
            recent_density: spec_adapt(t, c).recent_density,
            ..t
        }),
        spec_adapt(t, c).spec_active() == t.spec_active(),
{
}

/// The same preservation over any number of ticks.
pub proof fn lemma_adapt_n_preserves(t: FiberTract, c: AdaptationConfig, n: nat)
    ensures
        spec_adapt_n(t, c, n) == (FiberTract {
            conductivity: spec_adapt_n(t, c, n).conductivity,
            jitter: spec_adapt_n(t, c, n).jitter,
            fatigue: spec_adapt_n(t, c, n).fatigue,
            strength: spec_adapt_n(t, c, n).strength,
            lifetime_activations: spec_adapt_n(t, c, n).lifetime_activations,
            recent_density: spec_adapt_n(t, c, n).recent_density,
            ..t
        }),
        spec_adapt_n(t, c, n).spec_active() == t.spec_active(),
    decreases n,
{
    if n > 0 {
        lemma_adapt_n_preserves(t, c, (n - 1) as nat);
        lemma_adapt_preserves(spec_adapt_n(t, c, (n - 1) as nat), c);
    }
}

/// Adaptation monotonicity under activity: a tract driven active for any
/// number of ticks never loses conductivity, and gains strictly whenever
/// the myelination rate is positive and conductivity has room to grow.
pub proof fn lemma_active_conductivity_monotone(t: FiberTract, c: AdaptationConfig, n: nat)
    requires
        t.spec_active(),
    ensures
        spec_adapt_n(t, c, n).conductivity >= t.conductivity,
        n > 0 && c.myelination_rate > 0 && t.conductivity < 255 ==> spec_adapt_n(t, c, n).conductivity > t.conductivity,
    decreases n,
{
    if n > 0 {
        lemma_active_conductivity_monotone(t, c, (n - 1) as nat);
        lemma_adapt_n_preserves(t, c, (n - 1) as nat);
    }
}

/// Adaptation monotonicity under idleness: a tract left idle never gains
/// strength.
pub proof fn lemma_idle_strength_monotone(t: FiberTract, c: AdaptationConfig, n: nat)
    requires
        !t.spec_active(),
    ensures
        spec_adapt_n(t, c, n).strength <= t.strength,
    decreases n,
{
    if n > 0 {
        lemma_idle_strength_monotone(t, c, (n - 1) as nat);
        lemma_adapt_n_preserves(t, c, (n - 1) as nat);
    }
}

/// Fatigue recovers at rest: one idle tick never raises fatigue, and
/// strictly lowers it while fatigue remains and the recovery rate is
/// positive.
pub proof fn lemma_fatigue_recovers_at_rest(t: FiberTract, c: AdaptationConfig)
    requires
        !t.spec_active(),
    ensures
        spec_adapt(t, c).fatigue <= t.fatigue,
        t.fatigue > 0 && c.recovery_rate > 0 ==> spec_adapt(t, c).fatigue < t.fatigue,
{
}

/// Fatigue recovery over a rest period: across any number of idle
/// ticks fatigue never rises, and with a positive recovery rate any
/// remaining fatigue is strictly lower after the first tick.
pub proof fn lemma_rest_lowers_fatigue(t: FiberTract, c: AdaptationConfig, n: nat)
    requires
        !t.spec_active(),
    ensures
        spec_adapt_n(t, c, n).fatigue <= t.fatigue,
        n >= 1 && c.recovery_rate > 0 && t.fatigue > 0 ==> spec_adapt_n(t, c, n).fatigue
            < t.fatigue,
    decreases n,
{
    if n > 0 {
        lemma_rest_lowers_fatigue(t, c, (n - 1) as nat);
        lemma_adapt_n_preserves(t, c, (n - 1) as nat);
        lemma_fatigue_recovers_at_rest(spec_adapt_n(t, c, (n - 1) as nat), c);
        if n == 1 && c.recovery_rate > 0 && t.fatigue > 0 {
            assert(spec_adapt_n(t, c, 0nat) == t);
        }
    }
}

/// Rolling density tracks activity: an active tick never lowers density
/// and strictly raises it below saturation; an idle tick never raises it
/// and strictly lowers it while it remains positive. The density type
/// itself keeps it within 0..=255.
pub proof fn lemma_density_tracks_activity(t: FiberTract, c: AdaptationConfig)
    ensures
        t.spec_active() ==> spec_adapt(t, c).recent_density >= t.recent_density,
        t.spec_active() && t.recent_density < 255 ==> spec_adapt(t, c).recent_density > t.recent_density,
        !t.spec_active() ==> spec_adapt(t, c).recent_density <= t.recent_density,
        !t.spec_active() && t.recent_density > 0 ==> spec_adapt(t, c).recent_density < t.recent_density,
{
}

/// Endurance tempers fatigue: of two otherwise-identical active tracts,
/// the one with at least as much endurance never ends an equal run of
/// active ticks with more fatigue.
pub proof fn lemma_endurance_tempers_fatigue(
    t1: FiberTract,
    t2: FiberTract,
    c: AdaptationConfig,
    n: nat,
)
    requires
        t2 == (FiberTract { endurance: t2.endurance, ..t1 }),
        t1.endurance <= t2.endurance,
        t1.spec_active(),
    ensures
        spec_adapt_n(t2, c, n).fatigue <= spec_adapt_n(t1, c, n).fatigue,
    decreases n,
{
    if n > 0 {
        lemma_endurance_tempers_fatigue(t1, t2, c, (n - 1) as nat);
        lemma_adapt_n_preserves(t1, c, (n - 1) as nat);
        lemma_adapt_n_preserves(t2, c, (n - 1) as nat);
    }
}

/// Closed form of fatigue accrual: while the accumulated total stays
/// under saturation, an active tract's fatigue after `n` ticks is its
/// initial fatigue plus `n` times the endurance-tempered rate.
pub proof fn lemma_active_fatigue_closed(t: FiberTract, c: AdaptationConfig, n: nat)
    requires
        t.spec_active(),
        t.fatigue + n * eff_fatigue_rate(c, t.endurance) <= 255,
    ensures
        spec_adapt_n(t, c, n).fatigue == t.fatigue + n * eff_fatigue_rate(c, t.endurance),
    decreases n,
{
    let er = eff_fatigue_rate(c, t.endurance);
    if n > 0 {
        assert((n - 1) * er == n * er - er) by {
            vstd::arithmetic::mul::lemma_mul_is_distributive_sub_other_way(er, n as int, 1);
        }
        assert(t.fatigue + (n - 1) * er <= 255);
        lemma_active_fatigue_closed(t, c, (n - 1) as nat);
        lemma_adapt_n_preserves(t, c, (n - 1) as nat);
    } else {
        assert(n * er == 0) by {
            vstd::arithmetic::mul::lemma_mul_basics(er);
        }
    }
}

/// Endurance effect, strict form: two otherwise-identical active tracts
/// whose endurances give different effective fatigue rates diverge — the
/// higher-endurance tract's fatigue is strictly lower after any equal,
/// unsaturated run of active ticks.
pub proof fn lemma_endurance_diverges_fatigue(
    t1: FiberTract,
    t2: FiberTract,
    c: AdaptationConfig,
    n: nat,
)
    requires
        t2 == (FiberTract { endurance: t2.endurance, ..t1 }),
        eff_fatigue_rate(c, t2.endurance) < eff_fatigue_rate(c, t1.endurance),
        t1.spec_active(),
        n >= 1,
        t1.fatigue + n * eff_fatigue_rate(c, t1.endurance) <= 255,
    ensures
        spec_adapt_n(t2, c, n).fatigue < spec_adapt_n(t1, c, n).fatigue,
{
    let er1 = eff_fatigue_rate(c, t1.endurance);
    let er2 = eff_fatigue_rate(c, t2.endurance);
    vstd::arithmetic::mul::lemma_mul_inequality(er2, er1, n as int);
    vstd::arithmetic::mul::lemma_mul_is_commutative(er2, n as int);
    vstd::arithmetic::mul::lemma_mul_is_commutative(er1, n as int);
    lemma_active_fatigue_closed(t1, c, n);
    lemma_active_fatigue_closed(t2, c, n);
    assert(n * er2 < n * er1) by {
        vstd::arithmetic::mul::lemma_mul_strict_inequality(er2, er1, n as int);
    }
}

} // verus!
