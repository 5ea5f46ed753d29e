// The bit-exact fingerprint: fixed digests for known bit patterns, the hex
// rendering, sensitivity to single-bit flips, and agreement with an
// independent FNV-1a computation.

use fpu_fingerprint::fingerprint::digest_bits;
use fpu_fingerprint::fingerprint::fingerprint_bits;
use fpu_fingerprint::fingerprint::to_hex16;

// An independently written FNV-1a 64 over the little-endian bytes of each
// value, for cross-checking the library's digest.
fn reference_fnv1a(values: &[u64]) -> u64 {
    let mut h: u64 = 0xcbf29ce484222325;
    for &v in values {
        for j in 0..8 {
            let b = (v >> (8 * j)) & 0xff;
            h = (h ^ b).wrapping_mul(0x100000001b3);
        }
    }
    h
}

// A small deterministic pseudo-random generator for bit patterns.
fn lcg_next(state: &mut u64) -> u64 {
    *state = state.wrapping_mul(6364136223846793005).wrapping_add(1442695040888963407);
    *state
}

#[test]
fn empty_vector_digest_is_fixed() {
    let v: Vec<u64> = Vec::new();
    assert_eq!(fingerprint_bits(&v), "cbf29ce484222325");
    assert_eq!(digest_bits(&v), 0xcbf29ce484222325);
}

#[test]
fn positive_zero_digest_is_fixed() {
    let v = vec![0.0f64.to_bits()];
    assert_eq!(fingerprint_bits(&v), "a8c7f832281a39c5");
}

#[test]
fn negative_zero_digest_is_fixed_and_distinct() {
    let plus = vec![0.0f64.to_bits()];
    let minus = vec![(-0.0f64).to_bits()];
    assert_eq!(fingerprint_bits(&minus), "a8c7783228196045");
    assert_ne!(fingerprint_bits(&plus), fingerprint_bits(&minus));
}

#[test]
fn nan_payload_digest_is_fixed() {
    let v = vec![0x7ff8000000000001u64];
    assert_eq!(fingerprint_bits(&v), "8d1818291ff72671");
    let canonical = vec![f64::NAN.to_bits()];
    assert_ne!(fingerprint_bits(&v), fingerprint_bits(&canonical));
}

#[test]
fn known_sequence_digest() {
    let v = vec![1u64, 2u64, 3u64];
    assert_eq!(fingerprint_bits(&v), "da2bfb225e0d1f05");
}

#[test]
fn hex_rendering_is_fixed_width_lowercase() {
    assert_eq!(to_hex16(0), "0000000000000000");
    assert_eq!(to_hex16(0xdeadbeef), "00000000deadbeef");
    assert_eq!(to_hex16(u64::MAX), "ffffffffffffffff");
    assert_eq!(to_hex16(0x0123456789abcdef), "0123456789abcdef");
}

#[test]
fn digest_agrees_with_reference_implementation() {
    let mut state = 42u64;
    for len in [0usize, 1, 2, 7, 31] {
        let v: Vec<u64> = (0..len).map(|_| lcg_next(&mut state)).collect();
        assert_eq!(digest_bits(&v), reference_fnv1a(&v));
        assert_eq!(fingerprint_bits(&v), format!("{:016x}", reference_fnv1a(&v)));
    }
}

#[test]
fn lsb_flip_changes_digest() {
    let mut state = 7u64;
    let trials = 300usize;
    let mut differing = 0usize;
    for t in 0..trials {
        let v: Vec<u64> = (0..16).map(|_| lcg_next(&mut state)).collect();
        let base = digest_bits(&v);
        let mut mutated = v.clone();
        let pos = t % 16;
        mutated[pos] ^= 1;
        if digest_bits(&mutated) != base {
            differing += 1;
        }
    }
    assert!(differing * 100 > trials * 99);
}
