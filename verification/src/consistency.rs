//! The multi-run consistency verifier.
//!
//! One test is run a configured number of times; each run's result vector is
//! reduced to a digest, and the digests are tallied per distinct value. The
//! run is consistent exactly when a single digest accounts for every run.
//! The tally is kept in order of first occurrence, but its classification and
//! shares depend only on the multiset of digests, never on that order.

use vstd::prelude::*;
use vstd::arithmetic::div_mod::lemma_multiply_divide_lt;

verus! {

/// Number of occurrences of `d` in `s`.
pub open spec fn count_in(s: Seq<u64>, d: u64) -> nat
    decreases s.len(),
{
    if s.len() == 0 {
        0
    } else {
        count_in(s.drop_last(), d) + (if s.last() == d {
            1nat
        } else {
            0nat
        })
    }
}

/// The distinct values of `s`, in order of first occurrence.
pub open spec fn distinct_in_order(s: Seq<u64>) -> Seq<u64>
    decreases s.len(),
{
    if s.len() == 0 {
        Seq::<u64>::empty()
    } else {
        let prefix = distinct_in_order(s.drop_last());
        if s.drop_last().contains(s.last()) {
            prefix
        } else {
            prefix.push(s.last())
        }
    }
}

/// One line of a consistency report: a digest and how many runs produced it.
#[derive(Clone, Copy, PartialEq, Eq, Structural, Debug)]
pub struct ReportEntry {
    pub digest: u64,
    pub count: usize,
}

/// The total of the occurrence counts of `es`.
pub open spec fn sum_counts(es: Seq<ReportEntry>) -> int
    decreases es.len(),
{
    if es.len() == 0 {
        0
    } else {
        sum_counts(es.drop_last()) + es.last().count
    }
}

/// A value occurs in `s` exactly when its count there is positive.
proof fn lemma_contains_iff_count_positive(s: Seq<u64>, d: u64)
    ensures
        s.contains(d) <==> count_in(s, d) > 0,
    decreases s.len(),
{
    if s.len() > 0 {
        lemma_contains_iff_count_positive(s.drop_last(), d);
        assert(s.contains(d) <==> s.last() == d || s.drop_last().contains(d)) by {
            if s.contains(d) {
                let i = choose|i: int| 0 <= i < s.len() && s[i] == d;
                if i < s.len() - 1 {
                    assert(s.drop_last()[i] == d);
                }
            }
            if s.drop_last().contains(d) {
                let i = choose|i: int| 0 <= i < s.drop_last().len() && s.drop_last()[i] == d;
                assert(s[i] == d);
            }
        }
    }
}

/// No value can occur more often than the sequence is long.
proof fn lemma_count_le_len(s: Seq<u64>, d: u64)
    ensures
        count_in(s, d) <= s.len(),
    decreases s.len(),
{
    if s.len() > 0 {
        lemma_count_le_len(s.drop_last(), d);
    }
}

/// How one appended value changes every count.
proof fn lemma_count_push(s: Seq<u64>, d: u64, e: u64)
    ensures
        count_in(s.push(d), e) == count_in(s, e) + (if d == e {
            1int
        } else {
            0int
        }),
{
    assert(s.push(d).drop_last() =~= s);
}

/// How one appended value changes the first-occurrence order.
proof fn lemma_distinct_push(s: Seq<u64>, d: u64)
    ensures
        s.contains(d) ==> distinct_in_order(s.push(d)) == distinct_in_order(s),
        !s.contains(d) ==> distinct_in_order(s.push(d)) == distinct_in_order(s).push(d),
{
    assert(s.push(d).drop_last() =~= s);
}

/// A value occurs in a sequence exactly when it occurs among its distinct
/// values.
proof fn lemma_contains_iff_in_distinct(s: Seq<u64>, d: u64)
    ensures
        s.contains(d) <==> distinct_in_order(s).contains(d),
    decreases s.len(),
{
    if s.len() > 0 {
        lemma_contains_iff_in_distinct(s.drop_last(), d);
        assert(s.contains(d) <==> s.last() == d || s.drop_last().contains(d)) by {
            if s.contains(d) {
                let i = choose|i: int| 0 <= i < s.len() && s[i] == d;
                if i < s.len() - 1 {
                    assert(s.drop_last()[i] == d);
                }
            }
            if s.drop_last().contains(d) {
                let i = choose|i: int| 0 <= i < s.drop_last().len() && s.drop_last()[i] == d;
                assert(s[i] == d);
            }
        }
        let prefix = distinct_in_order(s.drop_last());
        if !s.drop_last().contains(s.last()) {
            assert(prefix.push(s.last()).contains(d) <==> prefix.contains(d) || s.last() == d)
                by {
                if prefix.contains(d) {
                    let i = choose|i: int| 0 <= i < prefix.len() && prefix[i] == d;
                    assert(prefix.push(s.last())[i] == d);
                }
                assert(prefix.push(s.last())[prefix.len() as int] == s.last());
                if prefix.push(s.last()).contains(d) {
                    let i = choose|i: int|
                        0 <= i < prefix.push(s.last()).len() && prefix.push(s.last())[i] == d;
                    if i < prefix.len() {
                        assert(prefix[i] == d);
                    }
                }
            }
        }
    }
}

/// How replacing one entry changes the total count.
proof fn lemma_sum_counts_update(es: Seq<ReportEntry>, j: int, e: ReportEntry)
    requires
        0 <= j < es.len(),
    ensures
        sum_counts(es.update(j, e)) == sum_counts(es) - es[j].count + e.count,
    decreases es.len(),
{
    if j == es.len() - 1 {
        assert(es.update(j, e).drop_last() =~= es.drop_last());
    } else {
        assert(es.update(j, e).drop_last() =~= es.drop_last().update(j, e));
        lemma_sum_counts_update(es.drop_last(), j, e);
    }
}

/// How one appended entry changes the total count.
proof fn lemma_sum_counts_push(es: Seq<ReportEntry>, e: ReportEntry)
    ensures
        sum_counts(es.push(e)) == sum_counts(es) + e.count,
{
    assert(es.push(e).drop_last() =~= es);
}

/// The tally entries that describe the digest sequence `ds`: one entry per
/// distinct digest in order of first occurrence, carrying its occurrence
/// count.
pub open spec fn tally_matches(ds: Seq<u64>, es: Seq<ReportEntry>) -> bool {
    &&& es.map_values(|e: ReportEntry| e.digest) == distinct_in_order(ds)
    &&& forall|k: int| 0 <= k < es.len() ==> (#[trigger] es[k]).count == count_in(ds, es[k].digest)
}

/// Tallies the run digests: one entry per distinct digest, in order of first
/// occurrence, counting its occurrences; the counts total the number of
/// digests.
pub fn tally_digests(digests: &Vec<u64>) -> (r: Vec<ReportEntry>)
    ensures
        tally_matches(digests@, r@),
        sum_counts(r@) == digests@.len(),
        forall|k: int| 0 <= k < r@.len() ==> 1 <= (#[trigger] r@[k]).count,
        forall|k1: int, k2: int|
            0 <= k1 < k2 < r@.len() ==> r@[k1].digest != r@[k2].digest,
{
    let ghost ds = digests@;
    let mut entries: Vec<ReportEntry> = Vec::new();
    proof {
        assert(ds.take(0) =~= Seq::<u64>::empty());
        assert(entries@.map_values(|e: ReportEntry| e.digest) =~= distinct_in_order(ds.take(0)));
    }
    let mut i: usize = 0;
    while i < digests.len()
        invariant
            i <= ds.len(),
            digests@ == ds,
            tally_matches(ds.take(i as int), entries@),
            sum_counts(entries@) == i,
            forall|k: int| 0 <= k < entries@.len() ==> 1 <= (#[trigger] entries@[k]).count,
            forall|k1: int, k2: int|
                0 <= k1 < k2 < entries@.len() ==> entries@[k1].digest != entries@[k2].digest,
        decreases ds.len() - i,
    {
        let d = digests[i];
        let ghost p = ds.take(i as int);
        proof {
            assert(ds.take(i as int + 1).drop_last() =~= p);
            assert(ds.take(i as int + 1) =~= p.push(d));
            lemma_distinct_push(p, d);
            lemma_contains_iff_in_distinct(p, d);
            lemma_count_le_len(p, d);
        }
        // Search the tally for this digest.
        let mut j: usize = 0;
        let mut found = false;
        while j < entries.len()
            invariant_except_break
                j <= entries@.len(),
                !found,
                forall|k: int| 0 <= k < j ==> (#[trigger] entries@[k]).digest != d,
            ensures
                found ==> j < entries@.len() && entries@[j as int].digest == d,
                !found ==> forall|k: int| 0 <= k < entries@.len() ==> (#[trigger] entries@[k]).digest
                    != d,
            decreases entries@.len() - j,
        {
            if entries[j].digest == d {
                found = true;
                break ;
            }
            j = j + 1;
        }
        if found {
            let mut e = entries[j];
            proof {
                // This digest already occurs: its count so far is at most the
                // prefix length, so the increment cannot overflow.
                assert(entries@.map_values(|e: ReportEntry| e.digest)[j as int] == d);
                assert(distinct_in_order(p).contains(d));
                assert(e.count <= p.len());
            }
            e.count = e.count + 1;
            let ghost before = entries@;
            entries.set(j, e);
            proof {
                lemma_sum_counts_update(before, j as int, e);
                assert(entries@.map_values(|e: ReportEntry| e.digest) =~= before.map_values(
                    |e: ReportEntry| e.digest,
                ));
                assert forall|k: int| 0 <= k < entries@.len() implies (#[trigger] entries@[k]).count
                    == count_in(p.push(d), entries@[k].digest) by {
                    lemma_count_push(p, d, entries@[k].digest);
                }
            }
        } else {
            proof {
                // The digest is new: it is not in the tally, hence not among
                // the distinct values of the prefix, hence not in the prefix.
                assert forall|k: int| 0 <= k < entries@.len() implies (#[trigger] entries@[k]).digest
                    != d by {
                    assert(entries@.map_values(|e: ReportEntry| e.digest)[k] == entries@[k].digest);
                }
                if distinct_in_order(p).contains(d) {
                    let k = choose|k: int|
                        0 <= k < distinct_in_order(p).len() && distinct_in_order(p)[k] == d;
                    assert(entries@.map_values(|e: ReportEntry| e.digest)[k] == d);
                }
            }
            let ghost before = entries@;
            entries.push(ReportEntry { digest: d, count: 1 });
            proof {
                lemma_sum_counts_push(before, ReportEntry { digest: d, count: 1 });
                assert(entries@.map_values(|e: ReportEntry| e.digest) =~= before.map_values(
                    |e: ReportEntry| e.digest,
                ).push(d));
                assert forall|k: int| 0 <= k < entries@.len() implies (#[trigger] entries@[k]).count
                    == count_in(p.push(d), entries@[k].digest) by {
                    lemma_count_push(p, d, entries@[k].digest);
                    if k < before.len() {
                        assert(before[k].digest != d);
                    } else {
                        lemma_contains_iff_count_positive(p, d);
                    }
                }
            }
        }
        i = i + 1;
    }
    proof {
        assert(ds.take(ds.len() as int) =~= ds);
    }
    entries
}

/// The outcome of running one test several times: how many runs there were
/// and, per distinct fingerprint digest, how many runs produced it.
pub struct ConsistencyReport {
    /// The number of runs tallied.
    pub runs: usize,
    /// One entry per distinct digest, in order of first occurrence.
    pub entries: Vec<ReportEntry>,
}

impl ConsistencyReport {
    /// Well-formedness: at least one run, no duplicate digest, no empty
    /// entry, and the counts total the number of runs.
    pub open spec fn wf(self) -> bool {
        &&& 1 <= self.runs
        &&& forall|k1: int, k2: int|
            0 <= k1 < k2 < self.entries@.len() ==> self.entries@[k1].digest
                != self.entries@[k2].digest
        &&& forall|k: int| 0 <= k < self.entries@.len() ==> 1 <= (#[trigger] self.entries@[k]).count
        &&& sum_counts(self.entries@) == self.runs
    }

    /// Full consistency: a single digest accounts for every run.
    pub open spec fn consistent(self) -> bool {
        self.entries@.len() == 1 && self.entries@[0].count == self.runs
    }

    /// Whether every run produced the same fingerprint.
    pub fn is_consistent(&self) -> (r: bool)
        ensures
            r == self.consistent(),
    {
        self.entries.len() == 1 && self.entries[0].count == self.runs
    }
}

/// For a well-formed report the two readings of "consistent" agree: a single
/// digest accounts for every run exactly when the tally has exactly one
/// entry, since the counts total the number of runs.
pub proof fn lemma_consistent_iff_single_entry(r: ConsistencyReport)
    requires
        r.wf(),
    ensures
        r.consistent() <==> r.entries@.len() == 1,
{
    if r.entries@.len() == 1 {
        assert(sum_counts(r.entries@) == sum_counts(r.entries@.drop_last())
            + r.entries@.last().count);
        assert(r.entries@.drop_last().len() == 0);
    }
}

/// The share of `count` among `runs` in tenths of a percent, rounded to the
/// nearest tenth: 2 of 3 runs give 667, 1 of 3 gives 333, `runs` of `runs`
/// give 1000.
pub fn percent_tenths(count: usize, runs: usize) -> (r: u32)
    requires
        1 <= runs,
        count <= runs,
    ensures
        r == (1000 * count + (runs as int) / 2) / (runs as int),
{
    let num: u128 = 1000 * (count as u128) + (runs as u128) / 2;
    let q: u128 = num / (runs as u128);
    proof {
        assert(num < runs * 1001);
        lemma_multiply_divide_lt(num as int, runs as int, 1001);
    }
    q as u32
}

/// Collects one digest per run of a single test and turns the tally into a
/// consistency report once every run is in. The runs of one test are strictly
/// sequential: the check measures non-determinism within one process, so
/// nothing else may interleave with them.
pub struct ConsistencyCheck {
    /// How many runs this check tallies.
    pub runs_total: usize,
    /// The digests recorded so far, in run order.
    pub digests: Vec<u64>,
    /// The result vector of the first recorded run, retained for external
    /// inspection and reporting; the tally never reads it back.
    pub first_samples: Option<Vec<u64>>,
}

impl ConsistencyCheck {
    /// The retained first-run result vector, as a spec value.
    pub open spec fn first_view(self) -> Option<Seq<u64>> {
        match self.first_samples {
            Some(v) => Some(v@),
            None => None,
        }
    }

    /// Well-formedness: at least one run is expected and no more than
    /// expected have been recorded.
    pub open spec fn wf(self) -> bool {
        &&& 1 <= self.runs_total
        &&& self.digests@.len() <= self.runs_total
    }

    /// Every expected run has been recorded.
    pub open spec fn done(self) -> bool {
        self.digests@.len() == self.runs_total
    }

    /// A fresh check expecting `runs_total` runs; one run is the degenerate
    /// but valid edge case that is always fully consistent.
    pub fn new(runs_total: usize) -> (c: Self)
        requires
            1 <= runs_total,
        ensures
            c.wf(),
            c.runs_total == runs_total,
            c.digests@ == Seq::<u64>::empty(),
            c.first_view() is None,
    {
        ConsistencyCheck { runs_total, digests: Vec::new(), first_samples: None }
    }

    /// How many runs have been recorded.
    pub fn runs_done(&self) -> (r: usize)
        ensures
            r == self.digests@.len(),
    {
        self.digests.len()
    }

    /// Record the fingerprint digest of the next run.
    pub fn record(&mut self, digest: u64)
        requires
            old(self).wf(),
            !old(self).done(),
        ensures
            final(self).wf(),
            final(self).runs_total == old(self).runs_total,
            final(self).digests@ == old(self).digests@.push(digest),
            final(self).first_view() == old(self).first_view(),
    {
        self.digests.push(digest);
    }

    /// Record the next run from its result vector: its 64-bit digest is
    /// computed and tallied (and returned, for display), and the first run's
    /// vector is retained for external inspection.
    pub fn record_run(&mut self, samples: Vec<u64>) -> (d: u64)
        requires
            old(self).wf(),
            !old(self).done(),
        ensures
            final(self).wf(),
            final(self).runs_total == old(self).runs_total,
            d == crate::fingerprint::fnv1a_of(samples@),
            final(self).digests@ == old(self).digests@.push(d),
            old(self).digests@.len() == 0 ==> final(self).first_view() == Some(samples@),
            old(self).digests@.len() > 0 ==> final(self).first_view() == old(self).first_view(),
    {
        let d = crate::fingerprint::digest_bits(&samples);
        if self.digests.len() == 0 {
            self.first_samples = Some(samples);
        }
        self.digests.push(d);
        d
    }

    /// The consistency report over all recorded runs: a well-formed tally of
    /// the digests whose counts total the run count, classified consistent
    /// exactly when every run produced the same digest.
    pub fn report(&self) -> (r: ConsistencyReport)
        requires
            self.wf(),
            self.done(),
        ensures
            r.wf(),
            r.runs == self.runs_total,
            tally_matches(self.digests@, r.entries@),
            sum_counts(r.entries@) == self.runs_total,
            r.consistent() <==> distinct_in_order(self.digests@).len() == 1,
    {
        let entries = tally_digests(&self.digests);
        let r = ConsistencyReport { runs: self.runs_total, entries };
        proof {
            lemma_consistent_iff_single_entry(r);
            assert(r.entries@.map_values(|e: ReportEntry| e.digest).len() == r.entries@.len());
        }
        r
    }
}

} // verus!
