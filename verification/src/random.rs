//! The random source of the emitter: the thread-local generator of the `rand`
//! crate. Nothing here is proved; the contracts say what `rand` documents.

use vstd::prelude::*;
use rand::Rng;
use rand::rngs::ThreadRng;

verus! {

/// `rand::rngs::ThreadRng`, a handle to the generator of the current thread.
/// Nothing is known of its state.
#[verifier::external_type_specification]
#[verifier::external_body]
pub struct ExThreadRng(ThreadRng);

/// `rand::thread_rng` hands out the generator of the current thread, seeded by
/// the operating system. Nothing is claimed of the handle. The call fails only
/// where the operating system can give no seed.
pub assume_specification[ rand::thread_rng ]() -> (rng: ThreadRng);

/// `Rng::gen_range` on the inclusive range `min..=max`: some integer of that
/// range, whatever the generator's state. `rand` refuses an empty range, so
/// `min` may not exceed `max`. Two calls with the same bounds may differ.
#[verifier::external_body]
pub(crate) fn random_range(rng: &mut ThreadRng, min: i64, max: i64) -> (r: i64)
    requires
        min <= max,
    ensures
        min <= r <= max,
{
    rng.gen_range(min..=max)
}

} // verus!
