//! The one place where chance enters the library.

use rand::Rng;
use vstd::prelude::*;

verus! {

/// Draws a number from `low..=high` with the thread's generator of the `rand`
/// crate: `rand::thread_rng().gen_range(low..=high)`.
///
/// Nothing is proved of this function. Its contract repeats what `gen_range`
/// documents: it panics on an empty range, which `requires` rules out, and
/// else returns a value of the range. Which value comes is left open, so two
/// draws from one range may differ. Where the system cannot seed the thread's
/// generator, `thread_rng` panics on its first use.
#[verifier::external_body]
pub(crate) fn random_in_range(low: u32, high: u32) -> (drawn: u32)
    requires
        low <= high,
    ensures
        low <= drawn <= high,
{
    rand::thread_rng().gen_range(low..=high)
}

} // verus!
