//! The denormal-regime workload.
//!
//! A small set of seed magnitudes at the edge of the normal/denormal boundary
//! is iterated through a pair of fixed recurrences; each iteration combines
//! the two recurrence values with trigonometric weighting and perturbs the
//! combination with tiny terms that amplify rounding artifacts of denormal
//! arithmetic. The floating-point steps themselves are performed by an
//! unverified driver; this module is the state machine that directs the
//! driver: it owns the seed table, the iteration order (seed-major, then
//! iteration), the exact request sequence and the assembly of the result
//! vector, all as bit patterns.
//!
//! The driver loop is: while [`DenormalGenerator::next_request`] yields a
//! request, perform the floating-point work it describes and hand the
//! resulting bit patterns back through [`DenormalGenerator::feed_seed`] or
//! [`DenormalGenerator::feed_step`].

use vstd::prelude::*;
use crate::params::DENORMAL_SAMPLES_PER_SEED;
use crate::params::DENORMAL_SAMPLE_SIZE;
use crate::params::denormal_seed_bits;
use crate::params::denormal_seeds;

verus! {

/// The floating-point work the driver must perform next.
pub enum DenormalRequest {
    /// Start the seed whose bit pattern is given: compute the companion start
    /// value (the seed times the factor `DENORMAL_Y_FROM_SEED_BITS` encodes)
    /// and feed its bit pattern back.
    InitSeed { seed_bits: u64 },
    /// Perform iteration `iter_index` of the recurrences on the current values
    /// `x` and `y`: advance both recurrences, combine them with the
    /// trigonometric weighting for this iteration, perturb the combination,
    /// and feed the three resulting bit patterns back.
    Step { x_bits: u64, y_bits: u64, iter_index: usize },
}

/// What one iteration of the recurrences produced: the advanced recurrence
/// values and the perturbed combined sample.
pub struct DenormalStep {
    pub next_x_bits: u64,
    pub next_y_bits: u64,
    pub sample_bits: u64,
}

/// One answer of the driver, as recorded in the generator's ghost history.
pub enum DenormalResponse {
    Seeded { y0_bits: u64 },
    Stepped { step: DenormalStep },
}

/// The generator's state, as spec values.
pub ghost struct DenormalModel {
    pub seed_index: int,
    pub seeded: bool,
    pub iter_index: int,
    pub x_bits: u64,
    pub y_bits: u64,
    pub samples: Seq<u64>,
}

/// The denormal-regime generator. It hands out one request at a time and
/// assembles the driver's answers into the result vector; every transition is
/// a pure function of the state and the answer, so the samples are determined
/// by the parameters and the driver's answers alone.
pub struct DenormalGenerator {
    /// The seed magnitudes as bit patterns, in outer iteration order.
    pub seeds: Vec<u64>,
    /// Iterations (= samples) per seed.
    pub samples_per_seed: usize,
    /// Index of the seed being iterated; equals the seed count when done.
    pub seed_index: usize,
    /// Whether the recurrence values for the current seed are installed.
    pub seeded: bool,
    /// Iterations completed for the current seed.
    pub iter_index: usize,
    /// Current value of the `x` recurrence, as a bit pattern.
    pub x_bits: u64,
    /// Current value of the `y` recurrence, as a bit pattern.
    pub y_bits: u64,
    /// The samples produced so far, in order.
    pub samples: Vec<u64>,
    /// Every driver answer so far, in order.
    pub history: Ghost<Seq<DenormalResponse>>,
}

impl DenormalGenerator {
    /// The generator's state as spec values.
    pub open spec fn model(self) -> DenormalModel {
        DenormalModel {
            seed_index: self.seed_index as int,
            seeded: self.seeded,
            iter_index: self.iter_index as int,
            x_bits: self.x_bits,
            y_bits: self.y_bits,
            samples: self.samples@,
        }
    }

    /// The state before any driver answer.
    pub open spec fn initial_model() -> DenormalModel {
        DenormalModel {
            seed_index: 0,
            seeded: false,
            iter_index: 0,
            x_bits: 0,
            y_bits: 0,
            samples: Seq::<u64>::empty(),
        }
    }

    /// How one driver answer advances the state. A `Seeded` answer installs
    /// the recurrence values for the current seed; a `Stepped` answer appends
    /// the sample, advances the recurrences, and moves to the next seed after
    /// the last iteration of the current one.
    pub open spec fn transition(
        seeds: Seq<u64>,
        samples_per_seed: int,
        m: DenormalModel,
        r: DenormalResponse,
    ) -> DenormalModel {
        match r {
            DenormalResponse::Seeded { y0_bits } => DenormalModel {
                seeded: true,
                iter_index: 0,
                x_bits: if 0 <= m.seed_index < seeds.len() {
                    seeds[m.seed_index]
                } else {
                    m.x_bits
                },
                y_bits: y0_bits,
                ..m
            },
            DenormalResponse::Stepped { step } => DenormalModel {
                seed_index: if m.iter_index + 1 == samples_per_seed {
                    m.seed_index + 1
                } else {
                    m.seed_index
                },
                seeded: !(m.iter_index + 1 == samples_per_seed),
                iter_index: if m.iter_index + 1 == samples_per_seed {
                    0
                } else {
                    m.iter_index + 1
                },
                x_bits: step.next_x_bits,
                y_bits: step.next_y_bits,
                samples: m.samples.push(step.sample_bits),
            },
        }
    }

    /// The state reached from the initial one by a sequence of driver answers:
    /// a pure function of the parameters and the answers.
    pub open spec fn replay(
        seeds: Seq<u64>,
        samples_per_seed: int,
        h: Seq<DenormalResponse>,
    ) -> DenormalModel
        decreases h.len(),
    {
        if h.len() == 0 {
            Self::initial_model()
        } else {
            Self::transition(
                seeds,
                samples_per_seed,
                Self::replay(seeds, samples_per_seed, h.drop_last()),
                h.last(),
            )
        }
    }

    /// Well-formedness: the indices are in range, the sample count matches the
    /// progress, and the state is exactly the replay of the recorded history.
    pub open spec fn wf(self) -> bool {
        &&& 1 <= self.samples_per_seed
        &&& self.seed_index <= self.seeds@.len()
        &&& (self.seeded ==> self.seed_index < self.seeds@.len() && self.iter_index
            < self.samples_per_seed)
        &&& (!self.seeded ==> self.iter_index == 0)
        &&& self.samples@.len() == self.seed_index * self.samples_per_seed + self.iter_index
        &&& self.model() == Self::replay(
            self.seeds@,
            self.samples_per_seed as int,
            self.history@,
        )
    }

    /// All seeds have been iterated to completion.
    pub open spec fn done(self) -> bool {
        self.seed_index == self.seeds@.len()
    }

    /// The length the finished result vector will have.
    pub open spec fn expected_total(self) -> int {
        self.seeds@.len() * self.samples_per_seed
    }

    /// A fresh generator over the given seed table, producing
    /// `samples_per_seed` samples for each seed.
    pub fn new(seeds: Vec<u64>, samples_per_seed: usize) -> (g: Self)
        requires
            1 <= samples_per_seed,
        ensures
            g.wf(),
            g.seeds@ == seeds@,
            g.samples_per_seed == samples_per_seed,
            g.samples@ == Seq::<u64>::empty(),
            g.history@ == Seq::<DenormalResponse>::empty(),
            !g.done() <==> seeds@.len() > 0,
    {
        DenormalGenerator {
            seeds,
            samples_per_seed,
            seed_index: 0,
            seeded: false,
            iter_index: 0,
            x_bits: 0,
            y_bits: 0,
            samples: Vec::new(),
            history: Ghost(Seq::empty()),
        }
    }

    /// The generator with the standard parameters: the six standard seeds and
    /// 205 samples per seed, 1230 samples in total.
    pub fn standard() -> (g: Self)
        ensures
            g.wf(),
            g.seeds@ == denormal_seed_bits(),
            g.samples_per_seed == DENORMAL_SAMPLES_PER_SEED,
            g.samples@ == Seq::<u64>::empty(),
            g.history@ == Seq::<DenormalResponse>::empty(),
            g.expected_total() == DENORMAL_SAMPLE_SIZE,
            !g.done(),
    {
        Self::new(denormal_seeds(), DENORMAL_SAMPLES_PER_SEED)
    }

    /// The floating-point work to perform next: `None` exactly when the run is
    /// complete; otherwise seed initialization when no seed is active, else
    /// one recurrence iteration on the current values.
    pub fn next_request(&self) -> (r: Option<DenormalRequest>)
        requires
            self.wf(),
        ensures
            r is None <==> self.done(),
            !self.done() && !self.seeded ==> r == Some(
                (DenormalRequest::InitSeed { seed_bits: self.seeds@[self.seed_index as int] }),
            ),
            !self.done() && self.seeded ==> r == Some(
                (DenormalRequest::Step {
                    x_bits: self.x_bits,
                    y_bits: self.y_bits,
                    iter_index: self.iter_index,
                }),
            ),
    {
        if self.seed_index == self.seeds.len() {
            None
        } else if !self.seeded {
            Some(DenormalRequest::InitSeed { seed_bits: self.seeds[self.seed_index] })
        } else {
            Some(
                DenormalRequest::Step {
                    x_bits: self.x_bits,
                    y_bits: self.y_bits,
                    iter_index: self.iter_index,
                },
            )
        }
    }

    /// Install the recurrence values answering an `InitSeed` request: `x`
    /// starts at the seed itself, `y` at the driver-computed companion value.
    pub fn feed_seed(&mut self, y0_bits: u64)
        requires
            old(self).wf(),
            !old(self).done(),
            !old(self).seeded,
        ensures
            final(self).wf(),
            final(self).seeds@ == old(self).seeds@,
            final(self).samples_per_seed == old(self).samples_per_seed,
            final(self).seed_index == old(self).seed_index,
            final(self).seeded,
            final(self).iter_index == 0,
            final(self).x_bits == old(self).seeds@[old(self).seed_index as int],
            final(self).y_bits == y0_bits,
            final(self).samples@ == old(self).samples@,
            final(self).history@ == old(self).history@.push(
                (DenormalResponse::Seeded { y0_bits }),
            ),
    {
        self.x_bits = self.seeds[self.seed_index];
        self.y_bits = y0_bits;
        self.seeded = true;
        proof {
            let resp = DenormalResponse::Seeded { y0_bits };
            let h = self.history@;
            self.history@ = h.push(resp);
            assert(self.history@.drop_last() =~= h);
        }
    }

    /// Record one iteration answering a `Step` request: the sample is
    /// appended, the recurrence values advance, and after the last iteration
    /// of a seed the generator moves on to the next seed.
    pub fn feed_step(&mut self, step: DenormalStep)
        requires
            old(self).wf(),
            old(self).seeded,
        ensures
            final(self).wf(),
            final(self).seeds@ == old(self).seeds@,
            final(self).samples_per_seed == old(self).samples_per_seed,
            final(self).samples@ == old(self).samples@.push(step.sample_bits),
            final(self).x_bits == step.next_x_bits,
            final(self).y_bits == step.next_y_bits,
            final(self).history@ == old(self).history@.push(
                (DenormalResponse::Stepped { step }),
            ),
            old(self).iter_index + 1 < old(self).samples_per_seed ==> final(self).seeded
                && final(self).seed_index == old(self).seed_index && final(self).iter_index == old(
                self,
            ).iter_index + 1,
            old(self).iter_index + 1 == old(self).samples_per_seed ==> !final(self).seeded
                && final(self).seed_index == old(self).seed_index + 1 && final(self).iter_index
                == 0,
    {
        self.x_bits = step.next_x_bits;
        self.y_bits = step.next_y_bits;
        self.samples.push(step.sample_bits);
        if self.iter_index + 1 == self.samples_per_seed {
            let seed_count = self.seeds.len();
            proof {
                assert(self.seed_index < seed_count);
            }
            self.seed_index = self.seed_index + 1;
            self.seeded = false;
            self.iter_index = 0;
            proof {
                let s = old(self).seed_index as int;
                let p = old(self).samples_per_seed as int;
                assert((s + 1) * p == s * p + p) by (nonlinear_arith);
            }
        } else {
            self.iter_index = self.iter_index + 1;
        }
        proof {
            let resp = DenormalResponse::Stepped { step };
            let h = self.history@;
            self.history@ = h.push(resp);
            assert(self.history@.drop_last() =~= h);
        }
    }

    /// Whether the run is complete.
    pub fn is_done(&self) -> (r: bool)
        ensures
            r == self.done(),
    {
        self.seed_index == self.seeds.len()
    }

    /// The completed result vector: one sample per iteration, seed-major in
    /// seed-table order. Its length is the seed count times the per-seed
    /// count, whatever the driver answered.
    pub fn into_samples(self) -> (r: Vec<u64>)
        requires
            self.wf(),
            self.done(),
        ensures
            r@ == self.samples@,
            r@.len() == self.expected_total(),
    {
        self.samples
    }
}

/// The output length of the denormal-regime generator is a constant of its
/// parameters: every completed run over the standard seed table with the
/// standard per-seed count holds exactly `DENORMAL_SAMPLE_SIZE` samples,
/// whatever values the driver computed.
pub proof fn lemma_denormal_standard_length(g: DenormalGenerator)
    requires
        g.wf(),
        g.done(),
        g.seeds@ == denormal_seed_bits(),
        g.samples_per_seed == DENORMAL_SAMPLES_PER_SEED,
    ensures
        g.samples@.len() == DENORMAL_SAMPLE_SIZE,
{
    assert(denormal_seed_bits().len() == 6);
    assert(!g.seeded);
    assert(g.iter_index == 0);
    assert(g.seed_index == 6);
    assert(g.samples@.len() == 6 * (DENORMAL_SAMPLES_PER_SEED as int));
}

/// Everything outside the floating-point steps is deterministic: two
/// generators with the same parameters that were fed the same driver answers
/// are in the same state, hold bit-identical samples, and therefore carry the
/// same fingerprint. Any difference between two runs can come only from the
/// driver's floating-point results, which is exactly what the consistency
/// check measures.
pub proof fn lemma_denormal_deterministic(a: DenormalGenerator, b: DenormalGenerator)
    requires
        a.wf(),
        b.wf(),
        a.seeds@ == b.seeds@,
        a.samples_per_seed == b.samples_per_seed,
        a.history@ == b.history@,
    ensures
        a.model() == b.model(),
        a.samples@ == b.samples@,
        crate::fingerprint::hex16(crate::fingerprint::fnv1a_of(a.samples@))
            == crate::fingerprint::hex16(crate::fingerprint::fnv1a_of(b.samples@)),
{
}

} // verus!
