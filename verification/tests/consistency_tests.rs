// The consistency verifier: tallying, the sum-of-counts invariant, the
// classification, order independence and the rounded percentage shares.

use fpu_fingerprint::consistency::ConsistencyCheck;
use fpu_fingerprint::consistency::percent_tenths;

#[test]
fn counts_sum_to_run_count() {
    let mut check = ConsistencyCheck::new(3);
    check.record(5);
    check.record(5);
    check.record(7);
    let report = check.report();
    assert_eq!(report.runs, 3);
    let total: usize = report.entries.iter().map(|e| e.count).sum();
    assert_eq!(total, 3);
    assert_eq!(report.entries.len(), 2);
    assert_eq!(report.entries[0].digest, 5);
    assert_eq!(report.entries[0].count, 2);
    assert_eq!(report.entries[1].digest, 7);
    assert_eq!(report.entries[1].count, 1);
    assert!(!report.is_consistent());
}

#[test]
fn consistent_iff_single_digest() {
    let mut check = ConsistencyCheck::new(4);
    for _ in 0..4 {
        check.record(123456789);
    }
    let report = check.report();
    assert_eq!(report.entries.len(), 1);
    assert_eq!(report.entries[0].count, 4);
    assert!(report.is_consistent());
}

#[test]
fn single_run_is_trivially_consistent() {
    let mut check = ConsistencyCheck::new(1);
    check.record(99);
    let report = check.report();
    assert!(report.is_consistent());
    assert_eq!(percent_tenths(report.entries[0].count, report.runs), 1000);
}

#[test]
fn tally_keeps_first_occurrence_order() {
    let mut check = ConsistencyCheck::new(4);
    check.record(9);
    check.record(4);
    check.record(9);
    check.record(2);
    let report = check.report();
    assert_eq!(report.entries.len(), 3);
    assert_eq!(report.entries[0].digest, 9);
    assert_eq!(report.entries[0].count, 2);
    assert_eq!(report.entries[1].digest, 4);
    assert_eq!(report.entries[1].count, 1);
    assert_eq!(report.entries[2].digest, 2);
    assert_eq!(report.entries[2].count, 1);
}

#[test]
fn classification_ignores_recording_order() {
    let orders: [[u64; 3]; 3] = [[1, 1, 2], [1, 2, 1], [2, 1, 1]];
    for digests in orders {
        let mut check = ConsistencyCheck::new(3);
        for d in digests {
            check.record(d);
        }
        let report = check.report();
        assert!(!report.is_consistent());
        let mut counts: Vec<usize> = report.entries.iter().map(|e| e.count).collect();
        counts.sort();
        assert_eq!(counts, vec![1, 2]);
    }
}

#[test]
fn percent_tenths_rounds_to_nearest() {
    assert_eq!(percent_tenths(2, 3), 667);
    assert_eq!(percent_tenths(1, 3), 333);
    assert_eq!(percent_tenths(3, 3), 1000);
    assert_eq!(percent_tenths(1, 2), 500);
    assert_eq!(percent_tenths(0, 5), 0);
    assert_eq!(percent_tenths(1, 6), 167);
    assert_eq!(percent_tenths(1, 7), 143);
}
