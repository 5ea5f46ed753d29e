//! Probing a machine's floating-point behaviour to produce a "silicon
//! fingerprint": fixed numeric workloads that are sensitive to differences in
//! rounding, transcendental-function implementations and denormal handling are
//! reduced to a compact digest, and repeated runs are tallied to check that the
//! digest is stable within one process.
//!
//! The library works on the IEEE-754 binary64 *bit patterns* of the workload
//! values, carried as `u64`. The floating-point arithmetic itself is performed
//! by an unverified driver that the generator state machines in [`denormal`]
//! and [`transcendental`] direct step by step; everything else — the input
//! tables, the iteration order, the bit-exact digest and the consistency
//! tally — is verified here.

pub mod consistency;
pub mod denormal;
pub mod fingerprint;
pub mod params;
pub mod testcase;
pub mod transcendental;
