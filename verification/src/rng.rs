//! The source of chance: the thread-local generator of the `rand` crate.

use rand::rngs::ThreadRng;
use rand::Rng;
use vstd::prelude::*;

verus! {

/// `rand::rngs::ThreadRng`, a handle to the thread-local generator. Nothing
/// is known of what it holds.
#[verifier::external_type_specification]
#[verifier::external_body]
pub struct ExThreadRng(ThreadRng);

/// `rand::thread_rng` hands out a handle to the thread-local generator,
/// which the operating system seeds on first use. Nothing is claimed of the
/// handle. The call takes no argument; it panics only where the operating
/// system cannot seed the generator.
pub assume_specification[ rand::thread_rng ]() -> (rng: ThreadRng)
;

/// `Rng::gen_range` on the inclusive range `low..=high` of `u8`: the value
/// drawn lies in that range. Which value comes is left open. An empty range
/// makes `gen_range` panic, so `low <= high` is asked for. Beyond that the
/// draw panics only where the operating system fails the generator when it
/// is due for fresh entropy, which no argument decides.
#[verifier::external_body]
pub(crate) fn gen_range_inclusive(rng: &mut ThreadRng, low: u8, high: u8) -> (drawn: u8)
    requires
        low <= high,
    ensures
        low <= drawn <= high,
{
    rng.gen_range(low..=high)
}

} // verus!
