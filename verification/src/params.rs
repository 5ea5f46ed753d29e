//! The fixed parameters of the two workloads: run count, sample sizes, seed
//! magnitudes, recurrence constants and the transcendental input table.
//!
//! Every floating-point constant is carried as the `u64` bit pattern of its
//! IEEE-754 binary64 value; the unverified driver turns a pattern back into a
//! double with `from_bits` before computing with it. Each doc comment names
//! the decimal value the pattern encodes.

use vstd::prelude::*;

verus! {

/// How many times a test is run by default when checking that its fingerprint
/// is stable within one process.
pub const DEFAULT_CONSISTENCY_RUNS: usize = 3;

/// Number of seed magnitudes of the denormal-regime workload.
pub const DENORMAL_SEED_COUNT: usize = 6;

/// Samples produced per seed by the denormal-regime workload.
pub const DENORMAL_SAMPLES_PER_SEED: usize = 205;

/// Total sample count of the denormal-regime workload: one sample per
/// iteration, `DENORMAL_SAMPLES_PER_SEED` iterations for each of the
/// `DENORMAL_SEED_COUNT` seeds. Kept large: with too small a sample count the
/// output is not reliably distinct across different hardware.
pub const DENORMAL_SAMPLE_SIZE: usize = 1230;

/// The sample size is exactly seeds times samples-per-seed.
pub proof fn lemma_denormal_sample_size()
    ensures
        DENORMAL_SAMPLE_SIZE == DENORMAL_SEED_COUNT * DENORMAL_SAMPLES_PER_SEED,
{
}

/// Bit pattern of 1.112345, the factor that derives the companion value `y`
/// from a seed.
pub const DENORMAL_Y_FROM_SEED_BITS: u64 = 0x3ff1cc2a454de7ea;

/// Bit pattern of 1.1123156, the divisor in the `x` recurrence.
pub const DENORMAL_X_DIV_BITS: u64 = 0x3ff1cc0b714d4a36;

/// Bit pattern of 0.9123545676, the multiplier in the `x` recurrence.
pub const DENORMAL_X_MUL_BITS: u64 = 0x3fed320234c657d4;

/// Bit pattern of 0.951235467, the multiplier in the `y` recurrence.
pub const DENORMAL_Y_MUL_BITS: u64 = 0x3fee70855cb1eddf;

/// Bit pattern of 1.05123245, the divisor in the `y` recurrence.
pub const DENORMAL_Y_DIV_BITS: u64 = 0x3ff0d1d91e13e73e;

/// Bit pattern of 0.01, the step of the slowly varying trigonometric weighting
/// angle (the angle at iteration `i` is `i` times this value).
pub const DENORMAL_ANGLE_STEP_BITS: u64 = 0x3f847ae147ae147b;

/// Bit pattern of 1e300, the scale applied to the combined value before taking
/// its sine in the perturbation term.
pub const DENORMAL_SIN_SCALE_BITS: u64 = 0x7e37e43c8800759c;

/// Bit pattern of 1e200, the scale applied to the combined value before taking
/// its arctangent in the perturbation term.
pub const DENORMAL_ATAN_SCALE_BITS: u64 = 0x6974e718d7d7625a;

/// Bit pattern of 1e-308, the amplitude of both perturbation terms.
pub const DENORMAL_PERTURB_AMPLITUDE_BITS: u64 = 0x000730d67819e8d2;

/// Bit patterns of the seed magnitudes, spanning the edge of the
/// normal/denormal boundary: 1e-308, 2e-308, 5e-308, 1e-307, 1e-320 (well
/// inside the subnormal range) and 2.2250738585072014e-308 (the smallest
/// positive normal double).
pub open spec fn denormal_seed_bits() -> Seq<u64> {
    seq![
        0x000730d67819e8d2u64,
        0x000e61acf033d1a4u64,
        0x0021fa182c40c60du64,
        0x0031fa182c40c60du64,
        0x00000000000007e8u64,
        0x0010000000000000u64,
    ]
}

/// The seed magnitudes of the denormal-regime workload, as bit patterns, in
/// generation order.
pub fn denormal_seeds() -> (r: Vec<u64>)
    ensures
        r@ == denormal_seed_bits(),
{
    let mut v: Vec<u64> = Vec::new();
    v.push(0x000730d67819e8d2u64);
    v.push(0x000e61acf033d1a4u64);
    v.push(0x0021fa182c40c60du64);
    v.push(0x0031fa182c40c60du64);
    v.push(0x00000000000007e8u64);
    v.push(0x0010000000000000u64);
    proof {
        assert(v@ =~= denormal_seed_bits());
    }
    v
}

/// Number of hand-picked entries at the front of the transcendental input
/// table.
pub const TRANSCENDENTAL_BASE_COUNT: usize = 17;

/// Number of evenly spaced points appended to the transcendental input table.
pub const TRANSCENDENTAL_SPACED_COUNT: usize = 500;

/// Total number of inputs of the transcendental workload.
pub const TRANSCENDENTAL_INPUT_COUNT: usize = 517;

/// Values appended to the output per input of the transcendental workload.
pub const TRANSCENDENTAL_FIELD_COUNT: usize = 9;

/// Total sample count of the transcendental workload.
pub const TRANSCENDENTAL_SAMPLE_SIZE: usize = 4653;

/// The transcendental sample size is exactly inputs times fields, and the
/// input count is the base table plus the spaced points.
pub proof fn lemma_transcendental_sample_size()
    ensures
        TRANSCENDENTAL_INPUT_COUNT == TRANSCENDENTAL_BASE_COUNT + TRANSCENDENTAL_SPACED_COUNT,
        TRANSCENDENTAL_SAMPLE_SIZE == TRANSCENDENTAL_INPUT_COUNT * TRANSCENDENTAL_FIELD_COUNT,
{
}

/// Bit pattern of pi (the nearest binary64 value).
pub const PI_BITS: u64 = 0x400921fb54442d18;

/// Bit pattern of 17.12344658922222221111154657, the divisor that spaces the
/// appended points: point `i` is `i` times pi divided by this value.
pub const TRANSCENDENTAL_SPACING_DIVISOR_BITS: u64 = 0x40311f9a3217831f;

/// Bit patterns of the hand-picked inputs, in table order: 0.0, 1e-15, pi/6,
/// pi/4, pi/3, pi/2, pi, 3pi/2, 2pi, 1.0, -1.0, 0.5, -0.534634634512312587,
/// 1e-10, -1e-10, 1e15, -1e15.
pub open spec fn transcendental_base_bits() -> Seq<u64> {
    seq![
        0x0000000000000000u64,
        0x3cd203af9ee75616u64,
        0x3fe0c152382d7365u64,
        0x3fe921fb54442d18u64,
        0x3ff0c152382d7365u64,
        0x3ff921fb54442d18u64,
        0x400921fb54442d18u64,
        0x4012d97c7f3321d2u64,
        0x401921fb54442d18u64,
        0x3ff0000000000000u64,
        0xbff0000000000000u64,
        0x3fe0000000000000u64,
        0xbfe11bba17d141e9u64,
        0x3ddb7cdfd9d7bdbbu64,
        0xbddb7cdfd9d7bdbbu64,
        0x430c6bf526340000u64,
        0xc30c6bf526340000u64,
    ]
}

/// The hand-picked inputs of the transcendental workload, as bit patterns, in
/// table order.
pub fn transcendental_base_inputs() -> (r: Vec<u64>)
    ensures
        r@ == transcendental_base_bits(),
        r@.len() == TRANSCENDENTAL_BASE_COUNT,
{
    let mut v: Vec<u64> = Vec::new();
    v.push(0x0000000000000000u64);
    v.push(0x3cd203af9ee75616u64);
    v.push(0x3fe0c152382d7365u64);
    v.push(0x3fe921fb54442d18u64);
    v.push(0x3ff0c152382d7365u64);
    v.push(0x3ff921fb54442d18u64);
    v.push(0x400921fb54442d18u64);
    v.push(0x4012d97c7f3321d2u64);
    v.push(0x401921fb54442d18u64);
    v.push(0x3ff0000000000000u64);
    v.push(0xbff0000000000000u64);
    v.push(0x3fe0000000000000u64);
    v.push(0xbfe11bba17d141e9u64);
    v.push(0x3ddb7cdfd9d7bdbbu64);
    v.push(0xbddb7cdfd9d7bdbbu64);
    v.push(0x430c6bf526340000u64);
    v.push(0xc30c6bf526340000u64);
    proof {
        assert(v@ =~= transcendental_base_bits());
    }
    v
}

} // verus!
