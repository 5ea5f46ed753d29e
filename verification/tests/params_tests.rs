// The workload parameters: every bit-pattern constant must encode exactly the
// double it documents, and the size constants must be mutually consistent.

use fpu_fingerprint::params::DEFAULT_CONSISTENCY_RUNS;
use fpu_fingerprint::params::DENORMAL_ANGLE_STEP_BITS;
use fpu_fingerprint::params::DENORMAL_ATAN_SCALE_BITS;
use fpu_fingerprint::params::DENORMAL_PERTURB_AMPLITUDE_BITS;
use fpu_fingerprint::params::DENORMAL_SAMPLES_PER_SEED;
use fpu_fingerprint::params::DENORMAL_SAMPLE_SIZE;
use fpu_fingerprint::params::DENORMAL_SEED_COUNT;
use fpu_fingerprint::params::DENORMAL_SIN_SCALE_BITS;
use fpu_fingerprint::params::DENORMAL_X_DIV_BITS;
use fpu_fingerprint::params::DENORMAL_X_MUL_BITS;
use fpu_fingerprint::params::DENORMAL_Y_DIV_BITS;
use fpu_fingerprint::params::DENORMAL_Y_FROM_SEED_BITS;
use fpu_fingerprint::params::DENORMAL_Y_MUL_BITS;
use fpu_fingerprint::params::PI_BITS;
use fpu_fingerprint::params::TRANSCENDENTAL_BASE_COUNT;
use fpu_fingerprint::params::TRANSCENDENTAL_FIELD_COUNT;
use fpu_fingerprint::params::TRANSCENDENTAL_INPUT_COUNT;
use fpu_fingerprint::params::TRANSCENDENTAL_SAMPLE_SIZE;
use fpu_fingerprint::params::TRANSCENDENTAL_SPACED_COUNT;
use fpu_fingerprint::params::TRANSCENDENTAL_SPACING_DIVISOR_BITS;
use fpu_fingerprint::params::denormal_seeds;
use fpu_fingerprint::params::transcendental_base_inputs;
use fpu_fingerprint::testcase::TestKind;
use std::f64::consts::PI;

#[test]
fn denormal_seed_patterns_encode_documented_values() {
    let expected: [f64; 6] = [1e-308, 2e-308, 5e-308, 1e-307, 1e-320, 2.2250738585072014e-308];
    let seeds = denormal_seeds();
    assert_eq!(seeds.len(), DENORMAL_SEED_COUNT);
    for (bits, value) in seeds.iter().zip(expected.iter()) {
        assert_eq!(*bits, value.to_bits());
    }
}

#[test]
fn denormal_constant_patterns_encode_documented_values() {
    assert_eq!(DENORMAL_Y_FROM_SEED_BITS, 1.112345f64.to_bits());
    assert_eq!(DENORMAL_X_DIV_BITS, 1.1123156f64.to_bits());
    assert_eq!(DENORMAL_X_MUL_BITS, 0.9123545676f64.to_bits());
    assert_eq!(DENORMAL_Y_MUL_BITS, 0.951235467f64.to_bits());
    assert_eq!(DENORMAL_Y_DIV_BITS, 1.05123245f64.to_bits());
    assert_eq!(DENORMAL_ANGLE_STEP_BITS, 0.01f64.to_bits());
    assert_eq!(DENORMAL_SIN_SCALE_BITS, 1e300f64.to_bits());
    assert_eq!(DENORMAL_ATAN_SCALE_BITS, 1e200f64.to_bits());
    assert_eq!(DENORMAL_PERTURB_AMPLITUDE_BITS, 1e-308f64.to_bits());
}

#[test]
fn transcendental_base_table_encodes_documented_values() {
    let expected: [f64; 17] = [
        0.0,
        1e-15,
        PI / 6.0,
        PI / 4.0,
        PI / 3.0,
        PI / 2.0,
        PI,
        3.0 * PI / 2.0,
        2.0 * PI,
        1.0,
        -1.0,
        0.5,
        -0.534634634512312587,
        1e-10,
        -1e-10,
        1e15,
        -1e15,
    ];
    let table = transcendental_base_inputs();
    assert_eq!(table.len(), TRANSCENDENTAL_BASE_COUNT);
    for (bits, value) in table.iter().zip(expected.iter()) {
        assert_eq!(*bits, value.to_bits());
    }
}

#[test]
fn transcendental_constant_patterns_encode_documented_values() {
    assert_eq!(PI_BITS, PI.to_bits());
    assert_eq!(
        TRANSCENDENTAL_SPACING_DIVISOR_BITS,
        17.12344658922222221111154657f64.to_bits()
    );
}

#[test]
fn size_constants_are_mutually_consistent() {
    assert_eq!(DEFAULT_CONSISTENCY_RUNS, 3);
    assert_eq!(DENORMAL_SAMPLE_SIZE, DENORMAL_SEED_COUNT * DENORMAL_SAMPLES_PER_SEED);
    assert_eq!(DENORMAL_SAMPLE_SIZE, 1230);
    assert_eq!(
        TRANSCENDENTAL_INPUT_COUNT,
        TRANSCENDENTAL_BASE_COUNT + TRANSCENDENTAL_SPACED_COUNT
    );
    assert_eq!(
        TRANSCENDENTAL_SAMPLE_SIZE,
        TRANSCENDENTAL_INPUT_COUNT * TRANSCENDENTAL_FIELD_COUNT
    );
    assert_eq!(TRANSCENDENTAL_SAMPLE_SIZE, 4653);
}

#[test]
fn test_kinds_have_unique_names_and_fixed_order() {
    let all = TestKind::all();
    assert_eq!(all.len(), 2);
    assert_eq!(all[0].name(), "Enhanced Denormal Numbers Test");
    assert_eq!(all[1].name(), "Transcendental Function Test");
    assert_ne!(all[0].name(), all[1].name());
    assert_eq!(all[0].expected_len(), 1230);
    assert_eq!(all[1].expected_len(), 4653);
}
