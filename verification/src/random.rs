//! Random numbers for the bits of the game that are left to chance.

use vstd::prelude::*;
use rand::Rng;

verus! {

/// A number drawn uniformly from `low..high` by the thread's random
/// generator (`rand::Rng::gen_range` of `rand::thread_rng`). The contract
/// states only the range: which number comes is left to chance.
#[verifier::external_body]
pub(crate) fn random_range(low: i16, high: i16) -> (r: i16)
    requires
        low < high,
    ensures
        low <= r < high,
{
    rand::thread_rng().gen_range(low, high)
}

} // verus!
