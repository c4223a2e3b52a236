//! Draws of random numbers, as the sensor and motor models use them.

use rand::Rng;
use vstd::prelude::*;

verus! {

/// A number drawn uniformly from `low..high` by `rand::Rng::gen_range` on the
/// thread's generator (`rand::thread_rng`). `gen_range` panics on an empty
/// range, so `low < high` is required; the crate's source samples within
/// `[low, high)`, which is all that is claimed here: which number comes out is
/// chance.
#[verifier::external_body]
pub(crate) fn random_in(low: i32, high: i32) -> (r: i32)
    requires
        low < high,
    ensures
        low <= r < high,
{
    rand::thread_rng().gen_range(low..high)
}

} // verus!
