//! The source of chance: which turn a new vehicle takes, and by which
//! approach a vehicle enters when none was asked for.

use vstd::prelude::*;
use rand::Rng;

verus! {

/// Trusted: calls `rand::Rng::gen_range` on the generator that
/// `rand::thread_rng` hands out, with the half-open range `0..bound`.
///
/// `gen_range` panics on an empty range, which `requires` leaves out, and
/// samples from the range it is given, so the result is below `bound`.
/// Nothing is claimed about which of the values comes back, nor that two
/// calls give the same one. The generator panics where the system has no
/// seed to give it: on first use in a thread, and whenever it seeds itself
/// anew, which it does after every 64 KiB of output and after a fork. No
/// argument decides that, so no `requires` can leave it out.
#[verifier::external_body]
pub(crate) fn random_below(bound: u32) -> (n: u32)
    requires
        bound > 0,
    ensures
        n < bound,
{
    rand::thread_rng().gen_range(0..bound)
}

/// A whole number below `bound` picked by chance, or `None` where there is
/// no such number.
pub fn pick(bound: u32) -> (r: Option<u32>)
    ensures
        r is None <==> bound == 0,
        r matches Some(n) ==> n < bound,
{
    if bound == 0 {
        None
    } else {
        Some(random_below(bound))
    }
}

} // verus!
