//! Seeding a dataset: numbered random vectors and their statistics.
use crate::random::{generate_random_vector, in_unit_range};
use crate::stats::{calculate_statistics, lemma_summary_bounds, summary, StatsError, VectorStatistics};
use crate::{HALF, ONE};
use rand::rngs::StdRng;
use std::collections::HashMap;
use vstd::prelude::*;

verus! {

/// A point to store: its id, its vector, and the statistics of that vector.
#[derive(Clone, Debug)]
pub struct Record {
    pub id: u64,
    pub vector: Vec<u32>,
    pub stats: VectorStatistics,
}

/// `s` is the summary of some vector of `dim` components in `[0, 1)`.
pub open spec fn is_seeded_statistics(s: VectorStatistics, dim: nat) -> bool {
    exists|v: Seq<u32>| v.len() == dim && in_unit_range(v) && #[trigger] summary(v) == s
}

/// The record is numbered `id` and holds a vector of `dim` components in
/// `[0, 1)` together with the statistics of that very vector.
pub open spec fn is_seeded_record(r: Record, id: u64, dim: nat) -> bool {
    &&& r.id == id
    &&& r.vector@.len() == dim
    &&& in_unit_range(r.vector@)
    &&& r.stats == summary(r.vector@)
}

/// The ids `0..count`.
pub open spec fn ids_below(count: int) -> Set<u64> {
    Set::new(|i: u64| i < count)
}

/// Statistics of a seeded vector are well formed: the minimum is at most
/// the mean and the median, which are at most the maximum, which lies below
/// `1.0`.
pub proof fn lemma_seeded_statistics_well_formed(s: VectorStatistics, dim: nat)
    requires
        dim > 0,
        is_seeded_statistics(s, dim),
    ensures
        s.min <= s.mean <= s.max,
        s.min <= s.median <= s.max,
        s.max < ONE,
{
    let v = choose|v: Seq<u32>| v.len() == dim && in_unit_range(v) && #[trigger] summary(v) == s;
    lemma_summary_bounds(v);
    assert(v[0] < ONE);
    assert(s.min <= v[0] <= s.max);
    assert(v.contains(s.max));
}

/// `count` records numbered `0..count`, each with a fresh random vector of
/// `dim` components and the statistics of that vector.
pub fn seed_records(rng: &mut StdRng, count: u64, dim: usize) -> (r: Vec<Record>)
    requires
        dim > 0,
    ensures
        r@.len() == count,
        forall|i: int| 0 <= i < count ==> is_seeded_record(#[trigger] r@[i], i as u64, dim as nat),
{
    let mut records: Vec<Record> = Vec::new();
    let mut i: u64 = 0;
    while i < count
        invariant
            dim > 0,
            0 <= i <= count,
            records@.len() == i,
            forall|j: int| 0 <= j < i ==> is_seeded_record(#[trigger] records@[j], j as u64, dim as nat),
        decreases count - i,
    {
        let vector = generate_random_vector(rng, dim);
        match calculate_statistics(&vector) {
            Ok(stats) => {
                records.push(Record { id: i, vector, stats });
            },
            Err(StatsError::EmptyInput) => {},
        }
        i = i + 1;
    }
    records
}

/// A mapping from each id in `0..count` to the statistics of a fresh random
/// vector of `dim` components; the vectors themselves are not kept.
pub fn seed(rng: &mut StdRng, count: u64, dim: usize) -> (m: HashMap<u64, VectorStatistics>)
    requires
        dim > 0,
    ensures
        m@.dom() == ids_below(count as int),
        forall|id: u64| #[trigger] m@.contains_key(id) ==> is_seeded_statistics(m@[id], dim as nat),
{
    broadcast use vstd::std_specs::hash::group_hash_axioms;

    let records = seed_records(rng, count, dim);
    let mut m: HashMap<u64, VectorStatistics> = HashMap::new();
    let mut i: usize = 0;
    while i < records.len()
        invariant
            records@.len() == count,
            forall|j: int| 0 <= j < count ==> is_seeded_record(#[trigger] records@[j], j as u64, dim as nat),
            0 <= i <= count,
            m@.dom() == ids_below(i as int),
            forall|id: u64| #[trigger] m@.contains_key(id) ==> is_seeded_statistics(m@[id], dim as nat),
        decreases records@.len() - i,
    {
        let r = &records[i];
        proof {
            assert(is_seeded_record(records@[i as int], i as u64, dim as nat));
            assert(summary(r.vector@) == r.stats);
        }
        m.insert(r.id, r.stats);
        proof {
            assert(m@.dom() =~= ids_below(i + 1));
        }
        i = i + 1;
    }
    m
}

/// The fixed query vector: `dim` components, each `0.5`.
pub fn query_vector(dim: usize) -> (v: Vec<u32>)
    ensures
        v@.len() == dim,
        forall|i: int| 0 <= i < dim ==> #[trigger] v@[i] == HALF,
{
    let mut v: Vec<u32> = Vec::with_capacity(dim);
    let mut i: usize = 0;
    while i < dim
        invariant
            0 <= i <= dim,
            v@.len() == i,
            forall|j: int| 0 <= j < i ==> #[trigger] v@[j] == HALF,
        decreases dim - i,
    {
        v.push(HALF);
        i = i + 1;
    }
    v
}

} // verus!
