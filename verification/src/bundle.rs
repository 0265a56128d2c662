//! FiberBundle — a functional grouping of fiber tracts.
//!
//! A bundle is one functional pathway (an arm, the vocal tract, gaze
//! control): several tracts of different kinds, motor for commands and
//! sensory for feedback. Chemical modulation is broadcast at the bundle
//! level — chemistry is systemic, not per-fiber.

use vstd::prelude::*;

use crate::tract::{sadd8, sat_u64, ssub8, FiberTract, FiberTractKind};

verus! {

/// A named bundle of fiber tracts forming a functional pathway.
#[derive(Clone, Debug)]
pub struct FiberBundle {
    /// Human-readable name of the pathway.
    pub name: String,
    /// The tracts in this bundle.
    pub tracts: Vec<FiberTract>,
}

/// Whether any tract of a sequence carries the given kind.
pub open spec fn has_kind(ts: Seq<FiberTract>, kind: FiberTractKind) -> bool {
    exists|i: int| 0 <= i < ts.len() && ts[i].kind == kind
}

/// The position of the first tract of the given kind; meaningful only
/// where one exists.
pub open spec fn first_kind_index(ts: Seq<FiberTract>, kind: FiberTractKind) -> int
    decreases ts.len(),
{
    if ts.len() == 0 {
        0
    } else if ts[0].kind == kind {
        0
    } else {
        1 + first_kind_index(ts.drop_first(), kind)
    }
}

/// A position with the right kind and no earlier match is the first.
proof fn lemma_first_kind_index(ts: Seq<FiberTract>, kind: FiberTractKind, i: int)
    requires
        0 <= i < ts.len(),
        ts[i].kind == kind,
        forall|j: int| 0 <= j < i ==> ts[j].kind != kind,
    ensures
        first_kind_index(ts, kind) == i,
    decreases i,
{
    if i > 0 {
        lemma_first_kind_index(ts.drop_first(), kind, i - 1);
    }
}

/// The efferent tracts of a sequence, in their order.
pub open spec fn efferent_of(ts: Seq<FiberTract>) -> Seq<FiberTract>
    decreases ts.len(),
{
    if ts.len() == 0 {
        Seq::empty()
    } else {
        let r = efferent_of(ts.drop_last());
        if ts.last().kind.spec_is_efferent() {
            r.push(ts.last())
        } else {
            r
        }
    }
}

/// The afferent tracts of a sequence, in their order.
pub open spec fn afferent_of(ts: Seq<FiberTract>) -> Seq<FiberTract>
    decreases ts.len(),
{
    if ts.len() == 0 {
        Seq::empty()
    } else {
        let r = afferent_of(ts.drop_last());
        if ts.last().kind.spec_is_afferent() {
            r.push(ts.last())
        } else {
            r
        }
    }
}

/// Whether any tract of the sequence is actively transmitting.
pub open spec fn spec_bundle_active(ts: Seq<FiberTract>) -> bool {
    exists|i: int| 0 <= i < ts.len() && ts[i].spec_active()
}

/// The summed activity of all tracts of the sequence.
pub open spec fn spec_bundle_activity(ts: Seq<FiberTract>) -> int
    decreases ts.len(),
{
    if ts.len() == 0 {
        0
    } else {
        spec_bundle_activity(ts.drop_last()) + ts.last().spec_activity()
    }
}

/// The summed activity of a sequence of tracts is never negative.
pub proof fn lemma_bundle_activity_nonneg(ts: Seq<FiberTract>)
    ensures
        spec_bundle_activity(ts) >= 0,
    decreases ts.len(),
{
    if ts.len() > 0 {
        lemma_bundle_activity_nonneg(ts.drop_last());
        crate::tract::lemma_activity_nonneg(ts.last());
    }
}

impl FiberBundle {
    /// Create a new, empty bundle under the given name.
    pub fn new(name: String) -> (r: FiberBundle)
        ensures
            r.name@ == name@,
            r.tracts@.len() == 0,
    {
        FiberBundle { name, tracts: Vec::new() }
    }

    /// Add a tract to this bundle.
    pub fn add_tract(&mut self, tract: FiberTract)
        ensures
            final(self).name@ == old(self).name@,
            final(self).tracts@ == old(self).tracts@.push(tract),
    {
        self.tracts.push(tract);
    }

    /// The first tract of a given kind, if the bundle has one.
    pub fn tract(&self, kind: FiberTractKind) -> (r: Option<&FiberTract>)
        ensures
            r is Some <==> has_kind(self.tracts@, kind),
            r is Some ==> ({
                let i = first_kind_index(self.tracts@, kind);
                &&& 0 <= i < self.tracts@.len()
                &&& *r->Some_0 == self.tracts@[i]
                &&& self.tracts@[i].kind == kind
                &&& forall|j: int| 0 <= j < i ==> self.tracts@[j].kind != kind
            }),
    {
        let n = self.tracts.len();
        let mut i: usize = 0;
        while i < n
            invariant
                i <= n,
                n == self.tracts@.len(),
                forall|j: int| 0 <= j < i ==> self.tracts@[j].kind != kind,
            decreases n - i,
        {
            if self.tracts[i].kind == kind {
                proof {
                    lemma_first_kind_index(self.tracts@, kind, i as int);
                }
                return Some(&self.tracts[i]);
            }
            i += 1;
        }
        None
    }

    /// The position of the first tract of a given kind, if the bundle
    /// has one; the caller may then mutate it through the tracts field.
    pub fn tract_mut(&mut self, kind: FiberTractKind) -> (r: Option<usize>)
        ensures
            *final(self) == *old(self),
            r is Some <==> has_kind(old(self).tracts@, kind),
            r is Some ==> ({
                let i = first_kind_index(old(self).tracts@, kind);
                &&& r->Some_0 == i
                &&& 0 <= i < old(self).tracts@.len()
                &&& old(self).tracts@[i].kind == kind
                &&& forall|j: int| 0 <= j < i ==> old(self).tracts@[j].kind != kind
            }),
    {
        let n = self.tracts.len();
        let mut i: usize = 0;
        while i < n
            invariant
                i <= n,
                n == self.tracts@.len(),
                forall|j: int| 0 <= j < i ==> self.tracts@[j].kind != kind,
            decreases n - i,
        {
            if self.tracts[i].kind == kind {
                proof {
                    lemma_first_kind_index(self.tracts@, kind, i as int);
                }
                return Some(i);
            }
            i += 1;
        }
        None
    }

    /// All motor (efferent) tracts in this bundle, in order.
    pub fn motor_tracts(&self) -> (r: Vec<&FiberTract>)
        ensures
            r@.map_values(|t: &FiberTract| *t) == efferent_of(self.tracts@),
    {
        let n = self.tracts.len();
        let mut r: Vec<&FiberTract> = Vec::new();
        let mut i: usize = 0;
        while i < n
            invariant
                i <= n,
                n == self.tracts@.len(),
                r@.map_values(|t: &FiberTract| *t) == efferent_of(self.tracts@.take(i as int)),
            decreases n - i,
        {
            proof {
                assert(self.tracts@.take(i + 1).drop_last() == self.tracts@.take(i as int));
            }
            if self.tracts[i].kind.is_efferent() {
                r.push(&self.tracts[i]);
            }
            proof {
                assert(r@.map_values(|t: &FiberTract| *t) =~= efferent_of(
                    self.tracts@.take(i + 1),
                ));
            }
            i += 1;
        }
        proof {
            assert(self.tracts@.take(n as int) == self.tracts@);
        }
        r
    }

    /// All sensory (afferent) tracts in this bundle, in order.
    pub fn sensory_tracts(&self) -> (r: Vec<&FiberTract>)
        ensures
            r@.map_values(|t: &FiberTract| *t) == afferent_of(self.tracts@),
    {
        let n = self.tracts.len();
        let mut r: Vec<&FiberTract> = Vec::new();
        let mut i: usize = 0;
        while i < n
            invariant
                i <= n,
                n == self.tracts@.len(),
                r@.map_values(|t: &FiberTract| *t) == afferent_of(self.tracts@.take(i as int)),
            decreases n - i,
        {
            proof {
                assert(self.tracts@.take(i + 1).drop_last() == self.tracts@.take(i as int));
            }
            if self.tracts[i].kind.is_afferent() {
                r.push(&self.tracts[i]);
            }
            proof {
                assert(r@.map_values(|t: &FiberTract| *t) =~= afferent_of(
                    self.tracts@.take(i + 1),
                ));
            }
            i += 1;
        }
        proof {
            assert(self.tracts@.take(n as int) == self.tracts@);
        }
        r
    }

    /// Whether any tract in this bundle is actively transmitting.
    pub fn is_active(&self) -> (r: bool)
        ensures
            r == spec_bundle_active(self.tracts@),
    {
        let n = self.tracts.len();
        let mut i: usize = 0;
        while i < n
            invariant
                i <= n,
                n == self.tracts@.len(),
                forall|j: int| 0 <= j < i ==> !(#[trigger] self.tracts@[j].spec_active()),
            decreases n - i,
        {
            if self.tracts[i].is_active() {
                return true;
            }
            i += 1;
        }
        false
    }

    /// Total activity across all tracts, saturating at the u64 range.
    pub fn total_activity(&self) -> (r: u64)
        ensures
            r == sat_u64(spec_bundle_activity(self.tracts@)),
    {
        let n = self.tracts.len();
        let mut acc: u64 = 0;
        let mut i: usize = 0;
        while i < n
            invariant
                i <= n,
                n == self.tracts@.len(),
                acc == sat_u64(spec_bundle_activity(self.tracts@.take(i as int))),
            decreases n - i,
        {
            proof {
                assert(self.tracts@.take(i + 1).drop_last() == self.tracts@.take(i as int));
                lemma_bundle_activity_nonneg(self.tracts@.take(i as int));
                crate::tract::lemma_activity_nonneg(self.tracts@[i as int]);
            }
            acc = acc.saturating_add(self.tracts[i].activity_level());
            i += 1;
        }
        proof {
            assert(self.tracts@.take(n as int) == self.tracts@);
        }
        acc
    }

    /// Number of tracts in this bundle.
    pub fn tract_count(&self) -> (r: usize)
        ensures
            r == self.tracts@.len(),
    {
        self.tracts.len()
    }

    /// Adrenaline dump: motor gain rises and nociceptive sensitivity
    /// falls by a quarter of the chemical intensity — fight-or-flight
    /// gives stronger output and dulled pain.
    pub fn apply_adrenaline(&mut self, intensity: u8)
        ensures
            final(self).name@ == old(self).name@,
            final(self).tracts@.len() == old(self).tracts@.len(),
            forall|i: int|
                0 <= i < old(self).tracts@.len() ==> final(self).tracts@[i] == ({
                    let t = old(self).tracts@[i];
                    if t.kind.spec_is_efferent() {
                        FiberTract { gain: sadd8(t.gain, intensity / 4), ..t }
                    } else if t.kind is NociceptiveFast || t.kind is NociceptiveSlow {
                        FiberTract { sensitivity: ssub8(t.sensitivity, intensity / 4), ..t }
                    } else {
                        t
                    }
                }),
    {
        let boost = intensity / 4;
        let n = self.tracts.len();
        let mut i: usize = 0;
        while i < n
            invariant
                boost == intensity / 4,
                i <= n,
                n == old(self).tracts@.len(),
                self.tracts@.len() == n,
                self.name@ == old(self).name@,
                forall|j: int| i <= j < n ==> self.tracts@[j] == old(self).tracts@[j],
                forall|j: int|
                    0 <= j < i ==> self.tracts@[j] == ({
                        let t = old(self).tracts@[j];
                        if t.kind.spec_is_efferent() {
                            FiberTract { gain: sadd8(t.gain, intensity / 4), ..t }
                        } else if t.kind is NociceptiveFast || t.kind is NociceptiveSlow {
                            FiberTract { sensitivity: ssub8(t.sensitivity, intensity / 4), ..t }
                        } else {
                            t
                        }
                    }),
            decreases n - i,
        {
            let k = self.tracts[i].kind;
            if k.is_efferent() {
                let g = self.tracts[i].gain;
                self.tracts[i].gain = g.saturating_add(boost);
            } else if k == FiberTractKind::NociceptiveFast || k == FiberTractKind::NociceptiveSlow {
                let s = self.tracts[i].sensitivity;
                self.tracts[i].sensitivity = s.saturating_sub(boost);
            }
            i += 1;
        }
    }

    /// Endorphin release: nociceptive sensitivity falls by a third of
    /// the chemical intensity — the natural painkiller gates pain at the
    /// fiber level and touches nothing else.
    pub fn apply_endorphin(&mut self, intensity: u8)
        ensures
            final(self).name@ == old(self).name@,
            final(self).tracts@.len() == old(self).tracts@.len(),
            forall|i: int|
                0 <= i < old(self).tracts@.len() ==> final(self).tracts@[i] == ({
                    let t = old(self).tracts@[i];
                    if t.kind is NociceptiveFast || t.kind is NociceptiveSlow {
                        FiberTract { sensitivity: ssub8(t.sensitivity, intensity / 3), ..t }
                    } else {
                        t
                    }
                }),
    {
        let reduction = intensity / 3;
        let n = self.tracts.len();
        let mut i: usize = 0;
        while i < n
            invariant
                reduction == intensity / 3,
                i <= n,
                n == old(self).tracts@.len(),
                self.tracts@.len() == n,
                self.name@ == old(self).name@,
                forall|j: int| i <= j < n ==> self.tracts@[j] == old(self).tracts@[j],
                forall|j: int|
                    0 <= j < i ==> self.tracts@[j] == ({
                        let t = old(self).tracts@[j];
                        if t.kind is NociceptiveFast || t.kind is NociceptiveSlow {
                            FiberTract { sensitivity: ssub8(t.sensitivity, intensity / 3), ..t }
                        } else {
                            t
                        }
                    }),
            decreases n - i,
        {
            let k = self.tracts[i].kind;
            if k == FiberTractKind::NociceptiveFast || k == FiberTractKind::NociceptiveSlow {
                let s = self.tracts[i].sensitivity;
                self.tracts[i].sensitivity = s.saturating_sub(reduction);
            }
            i += 1;
        }
    }

    /// Cortisol (sustained stress): jitter rises by an eighth of the
    /// intensity and endurance falls by half of that — chronic stress
    /// degrades signal quality and stamina, gradually.
    pub fn apply_cortisol(&mut self, intensity: u8)
        ensures
            final(self).name@ == old(self).name@,
            final(self).tracts@.len() == old(self).tracts@.len(),
            forall|i: int|
                0 <= i < old(self).tracts@.len() ==> final(self).tracts@[i] == ({
                    let t = old(self).tracts@[i];
                    FiberTract {
                        jitter: sadd8(t.jitter, intensity / 8),
                        endurance: ssub8(t.endurance, intensity / 8 / 2),
                        ..t
                    }
                }),
    {
        let degradation = intensity / 8;
        let n = self.tracts.len();
        let mut i: usize = 0;
        while i < n
            invariant
                degradation == intensity / 8,
                i <= n,
                n == old(self).tracts@.len(),
                self.tracts@.len() == n,
                self.name@ == old(self).name@,
                forall|j: int| i <= j < n ==> self.tracts@[j] == old(self).tracts@[j],
                forall|j: int|
                    0 <= j < i ==> self.tracts@[j] == ({
                        let t = old(self).tracts@[j];
                        FiberTract {
                            jitter: sadd8(t.jitter, intensity / 8),
                            endurance: ssub8(t.endurance, intensity / 8 / 2),
                            ..t
                        }
                    }),
            decreases n - i,
        {
            let j0 = self.tracts[i].jitter;
            self.tracts[i].jitter = j0.saturating_add(degradation);
            let e0 = self.tracts[i].endurance;
            self.tracts[i].endurance = e0.saturating_sub(degradation / 2);
            i += 1;
        }
    }

    /// GABA (inhibition): gain falls on every tract by a quarter of the
    /// intensity — calming lowers overall transmission.
    pub fn apply_gaba(&mut self, intensity: u8)
        ensures
            final(self).name@ == old(self).name@,
            final(self).tracts@.len() == old(self).tracts@.len(),
            forall|i: int|
                0 <= i < old(self).tracts@.len() ==> final(self).tracts@[i] == ({
                    let t = old(self).tracts@[i];
                    FiberTract { gain: ssub8(t.gain, intensity / 4), ..t }
                }),
    {
        let reduction = intensity / 4;
        let n = self.tracts.len();
        let mut i: usize = 0;
        while i < n
            invariant
                reduction == intensity / 4,
                i <= n,
                n == old(self).tracts@.len(),
                self.tracts@.len() == n,
                self.name@ == old(self).name@,
                forall|j: int| i <= j < n ==> self.tracts@[j] == old(self).tracts@[j],
                forall|j: int|
                    0 <= j < i ==> self.tracts@[j] == ({
                        let t = old(self).tracts@[j];
                        FiberTract { gain: ssub8(t.gain, intensity / 4), ..t }
                    }),
            decreases n - i,
        {
            let g = self.tracts[i].gain;
            self.tracts[i].gain = g.saturating_sub(reduction);
            i += 1;
        }
    }

    /// Reset chemical modulation to neutral defaults: gain back to the
    /// motor or sensory default, sensitivity, jitter and endurance back
    /// to the midpoint.
    pub fn reset_to_baseline(&mut self)
        ensures
            final(self).name@ == old(self).name@,
            final(self).tracts@.len() == old(self).tracts@.len(),
            forall|i: int|
                0 <= i < old(self).tracts@.len() ==> final(self).tracts@[i] == ({
                    let t = old(self).tracts@[i];
                    FiberTract {
                        gain: if t.kind.spec_is_efferent() {
                            160u8
                        } else {
                            100u8
                        },
                        sensitivity: 128u8,
                        jitter: 128u8,
                        endurance: 128u8,
                        ..t
                    }
                }),
    {
        let n = self.tracts.len();
        let mut i: usize = 0;
        while i < n
            invariant
                i <= n,
                n == old(self).tracts@.len(),
                self.tracts@.len() == n,
                self.name@ == old(self).name@,
                forall|j: int| i <= j < n ==> self.tracts@[j] == old(self).tracts@[j],
                forall|j: int|
                    0 <= j < i ==> self.tracts@[j] == ({
                        let t = old(self).tracts@[j];
                        FiberTract {
                            gain: if t.kind.spec_is_efferent() {
                                160u8
                            } else {
                                100u8
                            },
                            sensitivity: 128u8,
                            jitter: 128u8,
                            endurance: 128u8,
                            ..t
                        }
                    }),
            decreases n - i,
        {
            if self.tracts[i].kind.is_efferent() {
                self.tracts[i].gain = 160;
            } else {
                self.tracts[i].gain = 100;
            }
            self.tracts[i].sensitivity = 128;
            self.tracts[i].jitter = 128;
            self.tracts[i].endurance = 128;
            i += 1;
        }
    }
}

} // verus!
