//! The one source of chance in the crate, and small helpers built on it.

use rand::Rng;
use vstd::prelude::*;

verus! {

/// Draws an integer from `low..=high` with `rand::Rng::gen_range` on the thread-local
/// generator of `rand::thread_rng`. The contract states only that the result lies in the
/// range: which value comes out rests on chance. `gen_range` panics on an empty range,
/// which the `requires` rules out.
#[verifier::external_body]
pub(crate) fn random_u64_in(low: u64, high: u64) -> (r: u64)
    requires
        low <= high,
    ensures
        low <= r <= high,
{
    rand::thread_rng().gen_range(low..=high)
}

/// A random position in a collection of `len` items.
pub fn random_index(len: usize) -> (i: usize)
    requires
        len > 0,
    ensures
        i < len,
{
    let r = random_u64_in(0, (len - 1) as u64);
    r as usize
}

/// A random roll in `0..100`, used to decide events given as a percentage.
pub fn roll_percent() -> (r: u32)
    ensures
        r < 100,
{
    let r = random_u64_in(0, 99);
    r as u32
}

} // verus!
