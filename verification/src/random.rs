//! The single source of randomness: initiative coin flips, attack rolls,
//! damage rolls and encounter selection all draw through it.

use vstd::prelude::*;

verus! {

/// Relies on `rand::Rng::gen_range` on the thread-local generator: a
/// uniform draw from the inclusive range, which panics only when the
/// range is empty. Of a random value only its bounds can be promised.
#[verifier::external_body]
pub(crate) fn rand_i32_inclusive(lo: i32, hi: i32) -> (r: i32)
    requires
        lo <= hi,
    ensures
        lo <= r <= hi,
{
    rand::Rng::gen_range(&mut rand::thread_rng(), lo..=hi)
}

} // verus!
