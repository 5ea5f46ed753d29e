// Driving the two generator state machines with real floating-point work and
// checking the end-to-end behaviour: fixed output lengths, in-process
// determinism, and consistency classification over several runs.

use fpu_fingerprint::consistency::ConsistencyCheck;
use fpu_fingerprint::denormal::DenormalGenerator;
use fpu_fingerprint::denormal::DenormalRequest;
use fpu_fingerprint::denormal::DenormalStep;
use fpu_fingerprint::fingerprint::digest_bits;
use fpu_fingerprint::fingerprint::fingerprint_bits;
use fpu_fingerprint::params::DEFAULT_CONSISTENCY_RUNS;
use fpu_fingerprint::params::DENORMAL_ANGLE_STEP_BITS;
use fpu_fingerprint::params::DENORMAL_ATAN_SCALE_BITS;
use fpu_fingerprint::params::DENORMAL_PERTURB_AMPLITUDE_BITS;
use fpu_fingerprint::params::DENORMAL_SAMPLE_SIZE;
use fpu_fingerprint::params::DENORMAL_SIN_SCALE_BITS;
use fpu_fingerprint::params::DENORMAL_X_DIV_BITS;
use fpu_fingerprint::params::DENORMAL_X_MUL_BITS;
use fpu_fingerprint::params::DENORMAL_Y_DIV_BITS;
use fpu_fingerprint::params::DENORMAL_Y_FROM_SEED_BITS;
use fpu_fingerprint::params::DENORMAL_Y_MUL_BITS;
use fpu_fingerprint::params::PI_BITS;
use fpu_fingerprint::params::TRANSCENDENTAL_SAMPLE_SIZE;
use fpu_fingerprint::params::TRANSCENDENTAL_SPACING_DIVISOR_BITS;
use fpu_fingerprint::testcase::TestKind;
use fpu_fingerprint::transcendental::TranscendentalFields;
use fpu_fingerprint::transcendental::TranscendentalGenerator;
use fpu_fingerprint::transcendental::TranscendentalRequest;

fn run_denormal() -> Vec<u64> {
    let mut g = DenormalGenerator::standard();
    while let Some(req) = g.next_request() {
        match req {
            DenormalRequest::InitSeed { seed_bits } => {
                let seed = f64::from_bits(seed_bits);
                let y0 = seed * f64::from_bits(DENORMAL_Y_FROM_SEED_BITS);
                g.feed_seed(y0.to_bits());
            }
            DenormalRequest::Step {
                x_bits,
                y_bits,
                iter_index,
            } => {
                let x = f64::from_bits(x_bits);
                let y = f64::from_bits(y_bits);
                let nx = x / f64::from_bits(DENORMAL_X_DIV_BITS)
                    + x * f64::from_bits(DENORMAL_X_MUL_BITS);
                let ny = y * f64::from_bits(DENORMAL_Y_MUL_BITS)
                    + y / f64::from_bits(DENORMAL_Y_DIV_BITS);
                let angle = iter_index as f64 * f64::from_bits(DENORMAL_ANGLE_STEP_BITS);
                let combined = nx * (1.0 + angle.sin()) + ny * (1.0 + angle.cos());
                let amp = f64::from_bits(DENORMAL_PERTURB_AMPLITUDE_BITS);
                let sample = combined
                    + (combined * f64::from_bits(DENORMAL_SIN_SCALE_BITS)).sin() * amp
                    + (combined * f64::from_bits(DENORMAL_ATAN_SCALE_BITS)).atan() * amp;
                g.feed_step(DenormalStep {
                    next_x_bits: nx.to_bits(),
                    next_y_bits: ny.to_bits(),
                    sample_bits: sample.to_bits(),
                });
            }
        }
    }
    g.into_samples()
}

fn run_transcendental() -> Vec<u64> {
    let mut g = TranscendentalGenerator::standard();
    while let Some(req) = g.next_request() {
        match req {
            TranscendentalRequest::SpacedPoint { index } => {
                let v = index as f64 * f64::from_bits(PI_BITS)
                    / f64::from_bits(TRANSCENDENTAL_SPACING_DIVISOR_BITS);
                g.feed_point(v.to_bits());
            }
            TranscendentalRequest::Evaluate { value_bits } => {
                let val = f64::from_bits(value_bits);
                let sin_val = val.sin();
                let cos_val = val.cos();
                g.feed_fields(TranscendentalFields {
                    sin_bits: sin_val.to_bits(),
                    cos_bits: cos_val.to_bits(),
                    sin_of_sin_bits: (sin_val * 10.0).sin().to_bits(),
                    exp_cos_minus_one_bits: (cos_val.exp() - 1.0).to_bits(),
                    hyperbolic_residue_bits: (val.sinh() * val.cosh()
                        - 0.5 * (2.0 * val).sinh())
                    .to_bits(),
                    log_compound_bits: ((val.abs() + 1.0).log10() + (val.abs() + 2.0).log2())
                        .to_bits(),
                    atan_bits: f64::atan(val).to_bits(),
                    tanh_bits: f64::tanh(val).to_bits(),
                    hypot_minus_one_bits: (f64::hypot(sin_val, cos_val) - 1.0).to_bits(),
                });
            }
        }
    }
    g.into_samples()
}

#[test]
fn denormal_length_is_fixed() {
    let samples = run_denormal();
    assert_eq!(samples.len(), DENORMAL_SAMPLE_SIZE);
    assert_eq!(samples.len(), TestKind::DenormalRegime.expected_len());
    let again = run_denormal();
    assert_eq!(again.len(), DENORMAL_SAMPLE_SIZE);
}

#[test]
fn transcendental_length_is_fixed() {
    let samples = run_transcendental();
    assert_eq!(samples.len(), TRANSCENDENTAL_SAMPLE_SIZE);
    assert_eq!(samples.len(), TestKind::Transcendental.expected_len());
    let again = run_transcendental();
    assert_eq!(again.len(), TRANSCENDENTAL_SAMPLE_SIZE);
}

#[test]
fn denormal_deterministic_in_process() {
    let a = run_denormal();
    let b = run_denormal();
    assert_eq!(a, b);
    assert_eq!(fingerprint_bits(&a), fingerprint_bits(&b));
}

#[test]
fn transcendental_deterministic_in_process() {
    let a = run_transcendental();
    let b = run_transcendental();
    assert_eq!(a, b);
    assert_eq!(fingerprint_bits(&a), fingerprint_bits(&b));
}

#[test]
fn transcendental_three_runs_consistent() {
    let mut check = ConsistencyCheck::new(DEFAULT_CONSISTENCY_RUNS);
    let mut first_digest = None;
    for _ in 0..DEFAULT_CONSISTENCY_RUNS {
        let samples = run_transcendental();
        let d = check.record_run(samples);
        if first_digest.is_none() {
            first_digest = Some(d);
        }
    }
    assert_eq!(check.first_samples.as_ref().unwrap(), &run_transcendental());
    let report = check.report();
    assert_eq!(report.runs, 3);
    assert_eq!(report.entries.len(), 1);
    assert_eq!(report.entries[0].digest, first_digest.unwrap());
    assert_eq!(report.entries[0].count, 3);
    assert!(report.is_consistent());
    assert_eq!(
        fpu_fingerprint::consistency::percent_tenths(report.entries[0].count, report.runs),
        1000
    );
}

#[test]
fn injected_perturbation_is_flagged() {
    let mut check = ConsistencyCheck::new(DEFAULT_CONSISTENCY_RUNS);
    let mut digests = Vec::new();
    for run in 0..DEFAULT_CONSISTENCY_RUNS {
        let mut samples = run_transcendental();
        if run == 1 {
            // A single-bit perturbation on the second run only.
            samples[0] ^= 1;
        }
        let d = digest_bits(&samples);
        digests.push(d);
        check.record(d);
    }
    let report = check.report();
    assert!(!report.is_consistent());
    assert_eq!(report.entries.len(), 2);
    assert_eq!(report.entries[0].digest, digests[0]);
    assert_eq!(report.entries[0].count, 2);
    assert_eq!(report.entries[1].digest, digests[1]);
    assert_eq!(report.entries[1].count, 1);
    assert_eq!(
        fpu_fingerprint::consistency::percent_tenths(report.entries[0].count, report.runs),
        667
    );
    assert_eq!(
        fpu_fingerprint::consistency::percent_tenths(report.entries[1].count, report.runs),
        333
    );
}
