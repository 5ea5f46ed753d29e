//! The transcendental-function workload.
//!
//! A fixed table of interesting inputs — hand-picked angles and magnitudes
//! followed by evenly spaced multiples of pi over an irrational-looking
//! divisor — is evaluated through a fixed battery of nine transcendental
//! expressions per input, several of which are mathematically near zero so
//! that only implementation-specific rounding residue remains. The
//! floating-point evaluation is performed by an unverified driver; this
//! module is the state machine that directs it: it owns the base table, the
//! number and indices of the spaced points, the per-input field order and the
//! assembly of the result vector, all as bit patterns.
//!
//! The driver loop is: while [`TranscendentalGenerator::next_request`] yields
//! a request, perform the floating-point work it describes and hand the
//! resulting bit patterns back through
//! [`TranscendentalGenerator::feed_point`] or
//! [`TranscendentalGenerator::feed_fields`].

use vstd::prelude::*;
use crate::params::TRANSCENDENTAL_BASE_COUNT;
use crate::params::TRANSCENDENTAL_FIELD_COUNT;
use crate::params::TRANSCENDENTAL_SAMPLE_SIZE;
use crate::params::TRANSCENDENTAL_SPACED_COUNT;
use crate::params::transcendental_base_bits;
use crate::params::transcendental_base_inputs;

verus! {

/// The floating-point work the driver must perform next.
pub enum TranscendentalRequest {
    /// Compute spaced point `index`: `index` times pi divided by the value
    /// `TRANSCENDENTAL_SPACING_DIVISOR_BITS` encodes, and feed its bit
    /// pattern back.
    SpacedPoint { index: usize },
    /// Evaluate the nine fields at the input whose bit pattern is given and
    /// feed their bit patterns back.
    Evaluate { value_bits: u64 },
}

/// The nine values the driver computes for one input `x`, in result order:
/// sine, cosine, the sine of ten times the sine, `exp(cos x) - 1`, the
/// hyperbolic residue `sinh x * cosh x - 0.5 * sinh 2x`, the compound
/// logarithm `log10(|x| + 1) + log2(|x| + 2)`, arctangent, hyperbolic
/// tangent, and `hypot(sin x, cos x) - 1`.
pub struct TranscendentalFields {
    pub sin_bits: u64,
    pub cos_bits: u64,
    pub sin_of_sin_bits: u64,
    pub exp_cos_minus_one_bits: u64,
    pub hyperbolic_residue_bits: u64,
    pub log_compound_bits: u64,
    pub atan_bits: u64,
    pub tanh_bits: u64,
    pub hypot_minus_one_bits: u64,
}

/// The nine fields in the order they enter the result vector.
pub open spec fn fields_seq(f: TranscendentalFields) -> Seq<u64> {
    seq![
        f.sin_bits,
        f.cos_bits,
        f.sin_of_sin_bits,
        f.exp_cos_minus_one_bits,
        f.hyperbolic_residue_bits,
        f.log_compound_bits,
        f.atan_bits,
        f.tanh_bits,
        f.hypot_minus_one_bits,
    ]
}

/// One answer of the driver, as recorded in the generator's ghost history.
pub enum TranscendentalResponse {
    Pointed { point_bits: u64 },
    Evaluated { fields: TranscendentalFields },
}

/// The generator's state, as spec values.
pub ghost struct TranscendentalModel {
    pub inputs: Seq<u64>,
    pub cursor: int,
    pub samples: Seq<u64>,
}

/// The transcendental-function generator. It first completes its input table
/// by asking the driver for the evenly spaced points, then walks the table in
/// order, appending the driver's nine field values per input; every
/// transition is a pure function of the state and the answer.
pub struct TranscendentalGenerator {
    /// The input table: the base entries followed by the spaced points the
    /// driver has computed so far, as bit patterns.
    pub inputs: Vec<u64>,
    /// How many entries at the front of `inputs` are base-table entries.
    pub base_count: usize,
    /// How many spaced points complete the table.
    pub spaced_count: usize,
    /// Inputs evaluated so far.
    pub cursor: usize,
    /// The samples produced so far: nine per evaluated input, in field order.
    pub samples: Vec<u64>,
    /// Every driver answer so far, in order.
    pub history: Ghost<Seq<TranscendentalResponse>>,
}

impl TranscendentalGenerator {
    /// The generator's state as spec values.
    pub open spec fn model(self) -> TranscendentalModel {
        TranscendentalModel {
            inputs: self.inputs@,
            cursor: self.cursor as int,
            samples: self.samples@,
        }
    }

    /// The state before any driver answer.
    pub open spec fn initial_model(base: Seq<u64>) -> TranscendentalModel {
        TranscendentalModel { inputs: base, cursor: 0, samples: Seq::<u64>::empty() }
    }

    /// How one driver answer advances the state: a spaced point extends the
    /// input table, an evaluation appends its nine fields and moves the
    /// cursor on.
    pub open spec fn transition(m: TranscendentalModel, r: TranscendentalResponse)
        -> TranscendentalModel {
        match r {
            TranscendentalResponse::Pointed { point_bits } => TranscendentalModel {
                inputs: m.inputs.push(point_bits),
                ..m
            },
            TranscendentalResponse::Evaluated { fields } => TranscendentalModel {
                cursor: m.cursor + 1,
                samples: m.samples + fields_seq(fields),
                ..m
            },
        }
    }

    /// The state reached from the initial one by a sequence of driver
    /// answers: a pure function of the base table and the answers.
    pub open spec fn replay(base: Seq<u64>, h: Seq<TranscendentalResponse>)
        -> TranscendentalModel
        decreases h.len(),
    {
        if h.len() == 0 {
            Self::initial_model(base)
        } else {
            Self::transition(Self::replay(base, h.drop_last()), h.last())
        }
    }

    /// The base entries of the input table, which later answers never change.
    pub open spec fn base(self) -> Seq<u64> {
        self.inputs@.take(self.base_count as int)
    }

    /// The full table size once all spaced points are in.
    pub open spec fn table_total(self) -> int {
        self.base_count + self.spaced_count
    }

    /// The input table is complete.
    pub open spec fn table_complete(self) -> bool {
        self.inputs@.len() == self.table_total()
    }

    /// Every input of the completed table has been evaluated.
    pub open spec fn done(self) -> bool {
        self.table_complete() && self.cursor == self.inputs@.len()
    }

    /// The length the finished result vector will have.
    pub open spec fn expected_total(self) -> int {
        self.table_total() * TRANSCENDENTAL_FIELD_COUNT
    }

    /// Well-formedness: the table never exceeds its final size, evaluation
    /// starts only on the complete table, the sample count matches the
    /// progress, and the state is exactly the replay of the recorded history.
    pub open spec fn wf(self) -> bool {
        &&& self.base_count + self.spaced_count <= usize::MAX
        &&& self.base_count <= self.inputs@.len() <= self.table_total()
        &&& (!self.table_complete() ==> self.cursor == 0)
        &&& self.cursor <= self.inputs@.len()
        &&& self.samples@.len() == self.cursor * TRANSCENDENTAL_FIELD_COUNT
        &&& self.model() == Self::replay(self.base(), self.history@)
    }

    /// A fresh generator whose input table starts as `base` and is completed
    /// by `spaced_count` driver-computed points.
    pub fn new(base: Vec<u64>, spaced_count: usize) -> (g: Self)
        requires
            base@.len() + spaced_count <= usize::MAX,
        ensures
            g.wf(),
            g.inputs@ == base@,
            g.base_count == base@.len(),
            g.spaced_count == spaced_count,
            g.cursor == 0,
            g.samples@ == Seq::<u64>::empty(),
            g.history@ == Seq::<TranscendentalResponse>::empty(),
    {
        let base_count = base.len();
        let g = TranscendentalGenerator {
            inputs: base,
            base_count,
            spaced_count,
            cursor: 0,
            samples: Vec::new(),
            history: Ghost(Seq::empty()),
        };
        proof {
            assert(g.base() =~= g.inputs@);
        }
        g
    }

    /// The generator with the standard parameters: the seventeen-entry base
    /// table and five hundred spaced points, 4653 samples in total.
    pub fn standard() -> (g: Self)
        ensures
            g.wf(),
            g.inputs@ == transcendental_base_bits(),
            g.base_count == TRANSCENDENTAL_BASE_COUNT,
            g.spaced_count == TRANSCENDENTAL_SPACED_COUNT,
            g.cursor == 0,
            g.samples@ == Seq::<u64>::empty(),
            g.history@ == Seq::<TranscendentalResponse>::empty(),
            g.expected_total() == TRANSCENDENTAL_SAMPLE_SIZE,
            !g.done(),
    {
        Self::new(transcendental_base_inputs(), TRANSCENDENTAL_SPACED_COUNT)
    }

    /// The floating-point work to perform next: `None` exactly when the run
    /// is complete; otherwise the next spaced point while the table is being
    /// built, else the evaluation of the input under the cursor.
    pub fn next_request(&self) -> (r: Option<TranscendentalRequest>)
        requires
            self.wf(),
        ensures
            r is None <==> self.done(),
            !self.table_complete() ==> r == Some(
                (TranscendentalRequest::SpacedPoint {
                    index: (self.inputs@.len() - self.base_count) as usize,
                }),
            ),
            self.table_complete() && !self.done() ==> r == Some(
                (TranscendentalRequest::Evaluate { value_bits: self.inputs@[self.cursor as int] }),
            ),
    {
        if self.inputs.len() < self.base_count + self.spaced_count {
            Some(TranscendentalRequest::SpacedPoint { index: self.inputs.len() - self.base_count })
        } else if self.cursor < self.inputs.len() {
            Some(TranscendentalRequest::Evaluate { value_bits: self.inputs[self.cursor] })
        } else {
            None
        }
    }

    /// Append the driver-computed spaced point answering a `SpacedPoint`
    /// request to the input table.
    pub fn feed_point(&mut self, point_bits: u64)
        requires
            old(self).wf(),
            !old(self).table_complete(),
        ensures
            final(self).wf(),
            final(self).inputs@ == old(self).inputs@.push(point_bits),
            final(self).base_count == old(self).base_count,
            final(self).spaced_count == old(self).spaced_count,
            final(self).cursor == 0,
            final(self).samples@ == old(self).samples@,
            final(self).history@ == old(self).history@.push(
                (TranscendentalResponse::Pointed { point_bits }),
            ),
    {
        self.inputs.push(point_bits);
        proof {
            let resp = TranscendentalResponse::Pointed { point_bits };
            let h = self.history@;
            self.history@ = h.push(resp);
            assert(self.history@.drop_last() =~= h);
            assert(self.base() =~= old(self).base());
        }
    }

    /// Record the nine field values answering an `Evaluate` request: they are
    /// appended in field order and the cursor moves to the next input.
    pub fn feed_fields(&mut self, fields: TranscendentalFields)
        requires
            old(self).wf(),
            old(self).table_complete(),
            !old(self).done(),
        ensures
            final(self).wf(),
            final(self).inputs@ == old(self).inputs@,
            final(self).base_count == old(self).base_count,
            final(self).spaced_count == old(self).spaced_count,
            final(self).cursor == old(self).cursor + 1,
            final(self).samples@ == old(self).samples@ + fields_seq(fields),
            final(self).history@ == old(self).history@.push(
                (TranscendentalResponse::Evaluated { fields }),
            ),
    {
        self.samples.push(fields.sin_bits);
        self.samples.push(fields.cos_bits);
        self.samples.push(fields.sin_of_sin_bits);
        self.samples.push(fields.exp_cos_minus_one_bits);
        self.samples.push(fields.hyperbolic_residue_bits);
        self.samples.push(fields.log_compound_bits);
        self.samples.push(fields.atan_bits);
        self.samples.push(fields.tanh_bits);
        self.samples.push(fields.hypot_minus_one_bits);
        self.cursor = self.cursor + 1;
        proof {
            let resp = TranscendentalResponse::Evaluated { fields };
            let h = self.history@;
            self.history@ = h.push(resp);
            assert(self.history@.drop_last() =~= h);
            assert(self.samples@ =~= old(self).samples@ + fields_seq(fields));
            assert(self.base() =~= old(self).base());
        }
    }

    /// Whether the run is complete.
    pub fn is_done(&self) -> (r: bool)
        requires
            self.wf(),
        ensures
            r == self.done(),
    {
        self.inputs.len() == self.base_count + self.spaced_count && self.cursor
            == self.inputs.len()
    }

    /// The completed result vector: nine samples per input in field order,
    /// inputs in table order. Its length is the table size times nine,
    /// whatever the driver answered.
    pub fn into_samples(self) -> (r: Vec<u64>)
        requires
            self.wf(),
            self.done(),
        ensures
            r@ == self.samples@,
            r@.len() == self.expected_total(),
    {
        self.samples
    }
}

/// The output length of the transcendental generator is a constant of its
/// parameters: every completed run over the standard base table with the
/// standard number of spaced points holds exactly
/// `TRANSCENDENTAL_SAMPLE_SIZE` samples, whatever values the driver computed.
pub proof fn lemma_transcendental_standard_length(g: TranscendentalGenerator)
    requires
        g.wf(),
        g.done(),
        g.base_count == TRANSCENDENTAL_BASE_COUNT,
        g.spaced_count == TRANSCENDENTAL_SPACED_COUNT,
    ensures
        g.samples@.len() == TRANSCENDENTAL_SAMPLE_SIZE,
{
    assert(g.cursor == 517);
    assert(g.samples@.len() == 517 * (TRANSCENDENTAL_FIELD_COUNT as int));
}

/// Everything outside the floating-point steps is deterministic: two
/// generators with the same base table that were fed the same driver answers
/// are in the same state, hold bit-identical samples, and therefore carry the
/// same fingerprint. Any difference between two runs can come only from the
/// driver's floating-point results, which is exactly what the consistency
/// check measures.
pub proof fn lemma_transcendental_deterministic(
    a: TranscendentalGenerator,
    b: TranscendentalGenerator,
)
    requires
        a.wf(),
        b.wf(),
        a.base() == b.base(),
        a.history@ == b.history@,
    ensures
        a.model() == b.model(),
        a.samples@ == b.samples@,
        crate::fingerprint::hex16(crate::fingerprint::fnv1a_of(a.samples@))
            == crate::fingerprint::hex16(crate::fingerprint::fnv1a_of(b.samples@)),
{
}

} // verus!
