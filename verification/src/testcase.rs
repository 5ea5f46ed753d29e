//! The closed set of registered tests.
//!
//! Test dispatch is a tagged enumeration rather than a lookup by name, so an
//! unknown test cannot even be requested and the set of tests is exhaustively
//! checkable.

use vstd::prelude::*;
use crate::params::DENORMAL_SAMPLE_SIZE;
use crate::params::TRANSCENDENTAL_SAMPLE_SIZE;

verus! {

/// A registered test: its name identifies it, its generator is the state
/// machine of the module of the same name driven to completion with the
/// standard parameters.
#[derive(Clone, Copy, PartialEq, Eq, Structural, Debug)]
pub enum TestKind {
    /// The denormal-regime workload of [`crate::denormal`].
    DenormalRegime,
    /// The transcendental-function workload of [`crate::transcendental`].
    Transcendental,
}

impl TestKind {
    /// The test's display name.
    pub open spec fn name_spec(self) -> Seq<char> {
        match self {
            TestKind::DenormalRegime => "Enhanced Denormal Numbers Test"@,
            TestKind::Transcendental => "Transcendental Function Test"@,
        }
    }

    /// The test's display name, unique among registered tests.
    pub fn name(&self) -> (r: &'static str)
        ensures
            r@ == self.name_spec(),
    {
        match self {
            TestKind::DenormalRegime => "Enhanced Denormal Numbers Test",
            TestKind::Transcendental => "Transcendental Function Test",
        }
    }

    /// The number of samples a completed standard run of this test produces.
    pub fn expected_len(&self) -> (r: usize)
        ensures
            self is DenormalRegime ==> r == DENORMAL_SAMPLE_SIZE,
            self is Transcendental ==> r == TRANSCENDENTAL_SAMPLE_SIZE,
    {
        match self {
            TestKind::DenormalRegime => DENORMAL_SAMPLE_SIZE,
            TestKind::Transcendental => TRANSCENDENTAL_SAMPLE_SIZE,
        }
    }

    /// All registered tests, in execution order.
    pub fn all() -> (r: Vec<TestKind>)
        ensures
            r@ == seq![TestKind::DenormalRegime, TestKind::Transcendental],
    {
        let mut v: Vec<TestKind> = Vec::new();
        v.push(TestKind::DenormalRegime);
        v.push(TestKind::Transcendental);
        proof {
            assert(v@ =~= seq![TestKind::DenormalRegime, TestKind::Transcendental]);
        }
        v
    }
}

} // verus!
