//! Summary statistics over sample sets: sums, miss counting against a
//! latency threshold, sorting, and the ordered summaries (min, median,
//! max, total) the search reads off a sorted sample set.

use vstd::prelude::*;
use vstd::multiset::Multiset;

verus! {

broadcast use vstd::seq_lib::group_to_multiset_ensures;

/// Sum of a sequence of counts or latencies.
pub open spec fn sum_u64(s: Seq<u64>) -> int
    decreases s.len(),
{
    if s.len() == 0 {
        0
    } else {
        sum_u64(s.drop_last()) + s.last()
    }
}

/// How many entries exceed the threshold: the miss count of a probe pass.
pub open spec fn count_over(s: Seq<u64>, threshold: u64) -> int
    decreases s.len(),
{
    if s.len() == 0 {
        0
    } else {
        count_over(s.drop_last(), threshold) + if s.last() > threshold {
            1int
        } else {
            0int
        }
    }
}

/// The sequence is in ascending order.
pub open spec fn sorted(s: Seq<u64>) -> bool {
    forall|i: int, j: int| 0 <= i <= j < s.len() ==> s[i] <= s[j]
}

pub proof fn lemma_sum_nonneg(s: Seq<u64>)
    ensures
        sum_u64(s) >= 0,
    decreases s.len(),
{
    if s.len() > 0 {
        lemma_sum_nonneg(s.drop_last());
    }
}

/// A prefix never sums to more than the whole sequence.
pub proof fn lemma_sum_take_le(s: Seq<u64>, i: int)
    requires
        0 <= i <= s.len(),
    ensures
        0 <= sum_u64(s.take(i)) <= sum_u64(s),
    decreases s.len() - i,
{
    lemma_sum_nonneg(s.take(i));
    if i == s.len() {
        assert(s.take(i) =~= s);
    } else {
        lemma_sum_take_le(s, i + 1);
        assert(s.take(i + 1).drop_last() =~= s.take(i));
        assert(s.take(i + 1).last() >= 0);
    }
}

/// A sequence of entries each at most `b` sums to at most `len * b`.
pub proof fn lemma_sum_bounded(s: Seq<u64>, b: u64)
    requires
        forall|i: int| 0 <= i < s.len() ==> s[i] <= b,
    ensures
        sum_u64(s) <= s.len() * b,
    decreases s.len(),
{
    if s.len() > 0 {
        lemma_sum_bounded(s.drop_last(), b);
        assert((s.len() - 1) * b + b == s.len() * b) by (nonlinear_arith);
    }
}

/// Removing one entry removes exactly its contribution from the sum.
pub proof fn lemma_sum_remove(s: Seq<u64>, i: int)
    requires
        0 <= i < s.len(),
    ensures
        sum_u64(s) == sum_u64(s.remove(i)) + s[i],
    decreases s.len(),
{
    if i == s.len() - 1 {
        assert(s.remove(i) =~= s.drop_last());
    } else {
        assert(s.remove(i).drop_last() =~= s.drop_last().remove(i));
        assert(s.remove(i).last() == s.last());
        lemma_sum_remove(s.drop_last(), i);
    }
}

/// Sequences with the same contents have the same sum: summing is
/// independent of sample order.
pub proof fn lemma_sum_permutation(s: Seq<u64>, t: Seq<u64>)
    requires
        s.to_multiset() == t.to_multiset(),
    ensures
        sum_u64(s) == sum_u64(t),
    decreases s.len(),
{
    if s.len() == 0 {
        assert(t.to_multiset().len() == 0);
        assert(t.len() == 0);
    } else {
        let x = s.last();
        assert(s.contains(x));
        assert(t.to_multiset().count(x) > 0);
        assert(t.contains(x));
        let j = choose|j: int| 0 <= j < t.len() && t[j] == x;
        assert(s.remove(s.len() - 1) =~= s.drop_last());
        assert(s.drop_last().to_multiset() == s.to_multiset().remove(x));
        assert(t.remove(j).to_multiset() == t.to_multiset().remove(x));
        lemma_sum_permutation(s.drop_last(), t.remove(j));
        lemma_sum_remove(t, j);
    }
}

/// Equal contents also bound each other's entries: a permutation of a
/// bounded sample set is bounded by the same value.
pub proof fn lemma_permutation_bounded(s: Seq<u64>, t: Seq<u64>, b: u64)
    requires
        s.to_multiset() == t.to_multiset(),
        forall|i: int| 0 <= i < t.len() ==> t[i] <= b,
    ensures
        forall|i: int| 0 <= i < s.len() ==> s[i] <= b,
{
    assert forall|i: int| 0 <= i < s.len() implies s[i] <= b by {
        assert(s.contains(s[i]));
        assert(s.to_multiset().count(s[i]) > 0);
        assert(t.contains(s[i]));
        let j = choose|j: int| 0 <= j < t.len() && t[j] == s[i];
        assert(t[j] <= b);
    }
}

/// Bounded factors give a bounded product.
pub proof fn lemma_mul_bounds(a: int, b: int, amax: int, bmax: int)
    by (nonlinear_arith)
    requires
        0 <= a <= amax,
        0 <= b <= bmax,
    ensures
        a * b <= amax * bmax,
{
}

/// Index bounds survive reordering: a permutation of a sequence of
/// in-range indices is itself in range.
pub proof fn lemma_permutation_index_bounded(s: Seq<usize>, t: Seq<usize>, b: int)
    requires
        s.to_multiset() == t.to_multiset(),
        forall|i: int| 0 <= i < t.len() ==> t[i] < b,
    ensures
        forall|i: int| 0 <= i < s.len() ==> s[i] < b,
{
    assert forall|i: int| 0 <= i < s.len() implies s[i] < b by {
        assert(s.contains(s[i]));
        assert(s.to_multiset().count(s[i]) > 0);
        assert(t.contains(s[i]));
        let j = choose|j: int| 0 <= j < t.len() && t[j] == s[i];
        assert(t[j] < b);
    }
}

/// Count how many probed latencies constitute a cache miss, that is,
/// exceed the miss-latency threshold.
pub fn count_misses(times: &Vec<u64>, miss_latency: u64) -> (r: usize)
    ensures
        r == count_over(times@, miss_latency),
        r <= times.len(),
{
    let mut misses: usize = 0;
    let mut i: usize = 0;
    while i < times.len()
        invariant
            i <= times.len(),
            misses == count_over(times@.take(i as int), miss_latency),
            misses <= i,
        decreases times.len() - i,
    {
        proof {
            assert(times@.take(i + 1).drop_last() =~= times@.take(i as int));
        }
        if times[i] > miss_latency {
            misses = misses + 1;
        }
        i = i + 1;
    }
    proof {
        assert(times@.take(times.len() as int) =~= times@);
    }
    misses
}

/// Sum a sample set. The caller bounds the entries so the sum fits.
pub fn sum_samples(samples: &Vec<u64>) -> (r: u64)
    requires
        sum_u64(samples@) <= u64::MAX,
    ensures
        r == sum_u64(samples@),
{
    let mut total: u64 = 0;
    let mut i: usize = 0;
    while i < samples.len()
        invariant
            i <= samples.len(),
            sum_u64(samples@) <= u64::MAX,
            total == sum_u64(samples@.take(i as int)),
        decreases samples.len() - i,
    {
        proof {
            assert(samples@.take(i + 1).drop_last() =~= samples@.take(i as int));
            lemma_sum_take_le(samples@, i + 1);
        }
        total = total + samples[i];
        i = i + 1;
    }
    proof {
        assert(samples@.take(samples.len() as int) =~= samples@);
    }
    total
}

/// Sort a sample set in place, ascending.
pub fn sort_u64s(v: &mut Vec<u64>)
    ensures
        sorted(final(v)@),
        final(v)@.to_multiset() == old(v)@.to_multiset(),
        final(v)@.len() == old(v)@.len(),
{
    let ghost orig = v@;
    let mut out: Vec<u64> = Vec::new();
    while v.len() > 0
        invariant
            out@.to_multiset().add(v@.to_multiset()) == orig.to_multiset(),
            out@.len() + v@.len() == orig.len(),
            sorted(out@),
            forall|k: int, l: int|
                0 <= k < out@.len() && 0 <= l < v@.len() ==> out@[k] <= v@[l],
        decreases v.len(),
    {
        let mut min_idx: usize = 0;
        let mut l: usize = 1;
        while l < v.len()
            invariant
                v@.len() > 0,
                min_idx < l <= v@.len(),
                forall|m: int| 0 <= m < l ==> v@[min_idx as int] <= v@[m],
            decreases v.len() - l,
        {
            if v[l] < v[min_idx] {
                min_idx = l;
            }
            l = l + 1;
        }
        let m = v.remove(min_idx);
        out.push(m);
        proof {
            let vold = v@.insert(min_idx as int, m);
            assert(out@.drop_last() =~= out@.subrange(0, out@.len() - 1));
            assert(out@.to_multiset().add(v@.to_multiset()) =~= orig.to_multiset());
        }
    }
    proof {
        assert(v@.to_multiset() =~= Multiset::<u64>::empty());
        assert(out@.to_multiset() =~= out@.to_multiset().add(v@.to_multiset()));
    }
    *v = out;
}

/// The ordered summary the search reads off one sorted sample set. The
/// extremes deliberately step two entries in from each end, discarding
/// outliers.
#[derive(Clone, Copy, PartialEq, Eq, Structural, Debug)]
pub struct SampleStats {
    pub min: u64,
    pub median: u64,
    pub max: u64,
    pub total: u64,
    pub count: usize,
}

/// Sort a sample set in place and summarize it: total over all entries,
/// median at the middle of the sorted order, and near-extremes two
/// entries in from either end.
pub fn summarize(samples: &mut Vec<u64>) -> (r: SampleStats)
    requires
        old(samples).len() >= 3,
        sum_u64(old(samples)@) <= u64::MAX,
    ensures
        sorted(final(samples)@),
        final(samples)@.to_multiset() == old(samples)@.to_multiset(),
        final(samples)@.len() == old(samples)@.len(),
        r.total == sum_u64(old(samples)@),
        r.count == final(samples).len(),
        r.min == final(samples)@[2],
        r.median == final(samples)@[final(samples)@.len() as int / 2],
        r.max == final(samples)@[final(samples)@.len() - 2],
{
    let total = sum_samples(samples);
    sort_u64s(samples);
    let n = samples.len();
    SampleStats {
        min: samples[2],
        median: samples[n / 2],
        max: samples[n - 2],
        total,
        count: n,
    }
}

} // verus!
