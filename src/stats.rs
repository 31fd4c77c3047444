//! Summary statistics of a vector: minimum, mean, median and maximum.
use vstd::prelude::*;
use vstd::relations::{sorted_by, total_ordering};
use vstd::seq_lib::lemma_sorted_unique;

verus! {

/// Minimum, mean, median and maximum of a non-empty vector.
#[derive(Clone, Copy, Debug, PartialEq, Eq, Structural)]
pub struct VectorStatistics {
    pub min: u32,
    pub mean: u32,
    pub median: u32,
    pub max: u32,
}

/// Why statistics could not be computed.
#[derive(Clone, Copy, Debug, PartialEq, Eq, Structural)]
pub enum StatsError {
    /// The vector has no components.
    EmptyInput,
}

/// Ascending numeric order on components.
pub open spec fn ascending() -> spec_fn(u32, u32) -> bool {
    |a: u32, b: u32| a <= b
}

/// The ascending-sorted copy of `v`.
pub open spec fn sorted_copy(v: Seq<u32>) -> Seq<u32> {
    v.sort_by(ascending())
}

/// The sum of all components of `v`.
pub open spec fn total(v: Seq<u32>) -> int
    decreases v.len(),
{
    if v.len() == 0 {
        0
    } else {
        total(v.drop_last()) + v.last()
    }
}

/// The statistics of a non-empty `v`: the first, middle (index `len / 2`) and
/// last elements of its sorted copy, and the mean rounded down.
pub open spec fn summary(v: Seq<u32>) -> VectorStatistics
    recommends
        v.len() > 0,
{
    let s = sorted_copy(v);
    VectorStatistics {
        min: s[0],
        mean: (total(v) / v.len() as int) as u32,
        median: s[v.len() as int / 2],
        max: s[v.len() - 1],
    }
}

/// Relies on slice::sort_unstable: sorts in ascending order, keeping the
/// same elements.
#[verifier::external_body]
fn sort_ascending(v: &mut Vec<u32>)
    ensures
        sorted_by(final(v)@, ascending()),
        final(v)@.to_multiset() == old(v)@.to_multiset(),
{
    v.sort_unstable();
}

proof fn lemma_ascending_total()
    ensures
        total_ordering(ascending()),
{
}

proof fn lemma_total_bounds(v: Seq<u32>, lo: int, hi: int)
    requires
        forall|i: int| 0 <= i < v.len() ==> lo <= #[trigger] v[i] <= hi,
    ensures
        v.len() * lo <= total(v) <= v.len() * hi,
    decreases v.len(),
{
    if v.len() > 0 {
        let w = v.drop_last();
        assert forall|i: int| 0 <= i < w.len() implies lo <= #[trigger] w[i] <= hi by {
            assert(w[i] == v[i]);
        }
        lemma_total_bounds(w, lo, hi);
        assert(v.len() * lo == w.len() * lo + lo) by (nonlinear_arith)
            requires v.len() == w.len() + 1;
        assert(v.len() * hi == w.len() * hi + hi) by (nonlinear_arith)
            requires v.len() == w.len() + 1;
    }
}

/// Every element of a non-empty vector lies between the minimum and the
/// maximum of its statistics, and so do the median and the mean; the
/// minimum and the maximum are elements of the vector.
pub proof fn lemma_summary_bounds(v: Seq<u32>)
    requires
        v.len() > 0,
    ensures
        forall|i: int| 0 <= i < v.len() ==> summary(v).min <= #[trigger] v[i] <= summary(v).max,
        v.contains(summary(v).min),
        v.contains(summary(v).max),
        v.contains(summary(v).median),
        summary(v).min <= summary(v).median <= summary(v).max,
        summary(v).min <= total(v) / (v.len() as int) <= summary(v).max,
        summary(v).min <= summary(v).mean <= summary(v).max,
{
    broadcast use vstd::seq_lib::group_to_multiset_ensures;

    let s = sorted_copy(v);
    let n = v.len() as int;
    lemma_ascending_total();
    v.lemma_sort_by_ensures(ascending());
    assert(s.to_multiset().len() == v.to_multiset().len());
    assert(s.len() == n);
    assert forall|i: int| 0 <= i < n implies summary(v).min <= #[trigger] v[i] <= summary(v).max by {
        assert(v.contains(v[i]));
        assert(v.to_multiset().count(v[i]) > 0);
        assert(s.contains(v[i]));
        let j = choose|j: int| 0 <= j < s.len() && s[j] == v[i];
        if j > 0 {
            assert(ascending()(s[0], s[j]));
        }
        if j < n - 1 {
            assert(ascending()(s[j], s[n - 1]));
        }
    }
    assert forall|k: int| 0 <= k < n implies v.contains(#[trigger] s[k]) by {
        assert(s.contains(s[k]));
        assert(s.to_multiset().count(s[k]) > 0);
    }
    assert(s.contains(s[0]));
    assert(v.contains(s[0]));
    assert(v.contains(s[n - 1]));
    assert(v.contains(s[n / 2]));
    if n / 2 > 0 {
        assert(ascending()(s[0], s[n / 2]));
    }
    if n / 2 < n - 1 {
        assert(ascending()(s[n / 2], s[n - 1]));
    }
    let lo = summary(v).min as int;
    let hi = summary(v).max as int;
    lemma_total_bounds(v, lo, hi);
    let t = total(v);
    assert(lo <= t / n <= hi) by (nonlinear_arith)
        requires n * lo <= t <= n * hi, n > 0;
}

/// Computes the statistics of `vector`: the minimum, the mean rounded down,
/// the element at index `len / 2` of the ascending-sorted copy, and the
/// maximum. An empty vector is refused.
pub fn calculate_statistics(vector: &Vec<u32>) -> (r: Result<VectorStatistics, StatsError>)
    ensures
        vector@.len() == 0 ==> r == Err::<VectorStatistics, StatsError>(StatsError::EmptyInput),
        vector@.len() > 0 ==> r == Ok::<VectorStatistics, StatsError>(summary(vector@)),
{
    let n = vector.len();
    if n == 0 {
        return Err(StatsError::EmptyInput);
    }
    let mut sorted = vector.clone();
    sort_ascending(&mut sorted);
    proof {
        lemma_ascending_total();
        vector@.lemma_sort_by_ensures(ascending());
        lemma_sorted_unique(sorted@, sorted_copy(vector@), ascending());
        broadcast use vstd::seq_lib::group_to_multiset_ensures;
        assert(sorted@.to_multiset().len() == vector@.to_multiset().len());
    }
    let mut sum: u128 = 0;
    let mut i: usize = 0;
    while i < n
        invariant
            n == vector@.len(),
            0 <= i <= n,
            sum == total(vector@.subrange(0, i as int)),
            sum <= i * 4294967295,
        decreases n - i,
    {
        proof {
            let p = vector@.subrange(0, i as int + 1);
            assert(p.drop_last() =~= vector@.subrange(0, i as int));
        }
        sum = sum + vector[i] as u128;
        i = i + 1;
    }
    proof {
        assert(vector@.subrange(0, n as int) =~= vector@);
        assert(sum == total(vector@));
        lemma_summary_bounds(vector@);
    }
    let mean = sum / (n as u128);
    Ok(VectorStatistics {
        min: sorted[0],
        mean: mean as u32,
        median: sorted[n / 2],
        max: sorted[n - 1],
    })
}

} // verus!
