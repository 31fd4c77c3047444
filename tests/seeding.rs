use rand::rngs::StdRng;
use rand::SeedableRng;
use vector_stats::random::generate_random_vector;
use vector_stats::seed::{query_vector, seed, seed_records};
use vector_stats::stats::calculate_statistics;
use vector_stats::{HALF, ONE};

#[test]
fn generate_ten_components_in_unit_range() {
    let mut rng = StdRng::seed_from_u64(7);
    let v = generate_random_vector(&mut rng, 10);
    assert_eq!(v.len(), 10);
    assert!(v.iter().all(|&x| x < ONE));
    assert!(v.iter().any(|&x| x != v[0]));
}

#[test]
fn generate_zero_dimension_is_empty() {
    let mut rng = StdRng::seed_from_u64(7);
    assert!(generate_random_vector(&mut rng, 0).is_empty());
}

#[test]
fn generate_is_reproducible_from_a_seed() {
    let mut a = StdRng::seed_from_u64(42);
    let mut b = StdRng::seed_from_u64(42);
    assert_eq!(generate_random_vector(&mut a, 10), generate_random_vector(&mut b, 10));
}

#[test]
fn seed_three_records_of_dimension_ten() {
    let mut rng = StdRng::seed_from_u64(1);
    let m = seed(&mut rng, 3, 10);
    let mut keys: Vec<u64> = m.keys().copied().collect();
    keys.sort();
    assert_eq!(keys, vec![0, 1, 2]);
    for s in m.values() {
        assert!(s.min <= s.mean && s.mean <= s.max);
        assert!(s.min <= s.median && s.median <= s.max);
        assert!(s.max < ONE);
    }
}

#[test]
fn seed_zero_records_is_empty() {
    let mut rng = StdRng::seed_from_u64(1);
    assert!(seed(&mut rng, 0, 10).is_empty());
}

#[test]
fn seeded_records_describe_their_own_vectors() {
    let mut rng = StdRng::seed_from_u64(3);
    let records = seed_records(&mut rng, 3, 10);
    assert_eq!(records.len(), 3);
    for (i, r) in records.iter().enumerate() {
        assert_eq!(r.id, i as u64);
        assert_eq!(r.vector.len(), 10);
        assert_eq!(calculate_statistics(&r.vector), Ok(r.stats));
    }
}

#[test]
fn query_vector_is_all_halves() {
    let q = query_vector(10);
    assert_eq!(q, vec![HALF; 10]);
    assert_eq!(HALF * 2, ONE);
}
