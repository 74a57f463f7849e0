//! The engine's one source of chance: drawing an index below a bound.

use rand::Rng;
use vstd::prelude::*;

verus! {

/// Relies on rand's `thread_rng` and `Rng::gen_range`: a uniformly drawn
/// value of the half-open range below `bound`.  The draw depends on the
/// thread's generator, so nothing beyond the bound holds of it; an empty
/// range would panic, and is excluded.
#[verifier::external_body]
pub(crate) fn rand_index(bound: usize) -> (r: usize)
    requires
        bound > 0,
    ensures
        r < bound,
{
    rand::thread_rng().gen_range(0..bound)
}

} // verus!
