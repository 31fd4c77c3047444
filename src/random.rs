//! Random vectors with components uniform in `[0, 1)`.
use crate::ONE;
use rand::rngs::StdRng;
use rand::Rng;
use vstd::prelude::*;

verus! {

#[verifier::external_type_specification]
#[verifier::external_body]
pub struct ExStdRng(StdRng);

/// Every component of `v` lies in `[0, 1)`.
pub open spec fn in_unit_range(v: Seq<u32>) -> bool {
    forall|i: int| 0 <= i < v.len() ==> #[trigger] v[i] < ONE
}

/// Relies on rand::Rng::gen_range: a uniform draw from the half-open range
/// `0..bound`, which panics only when the range is empty.
#[verifier::external_body]
fn draw_below(rng: &mut StdRng, bound: u32) -> (r: u32)
    requires
        bound > 0,
    ensures
        r < bound,
{
    rng.gen_range(0..bound)
}

/// A vector of `dim` components, each drawn independently and uniformly
/// from `[0, 1)`.
pub fn generate_random_vector(rng: &mut StdRng, dim: usize) -> (v: Vec<u32>)
    ensures
        v@.len() == dim,
        in_unit_range(v@),
{
    let mut v: Vec<u32> = Vec::with_capacity(dim);
    let mut i: usize = 0;
    while i < dim
        invariant
            0 <= i <= dim,
            v@.len() == i,
            in_unit_range(v@),
        decreases dim - i,
    {
        let x = draw_below(rng, ONE);
        v.push(x);
        i = i + 1;
    }
    v
}

} // verus!
