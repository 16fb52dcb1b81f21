//! The source of chance.

use vstd::prelude::*;

verus! {

/// A number below `bound`, drawn by `rand::Rng::gen_range` from the
/// generator that `rand::thread_rng` hands out. Nothing is claimed of the
/// number but its range; an empty range, on which `gen_range` panics, is
/// left out. The generator seeds itself from the operating system when a
/// thread first asks for it, and gives up if the system has nothing to
/// seed it with; no argument decides that.
#[verifier::external_body]
pub(crate) fn random_below(bound: u64) -> (roll: u64)
    requires
        bound > 0,
    ensures
        roll < bound,
{
    rand::Rng::gen_range(&mut rand::thread_rng(), 0..bound)
}

} // verus!
