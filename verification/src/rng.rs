use vstd::prelude::*;
use rand::Rng;

verus! {

/// rand's thread-local generator, declared so it can appear in signatures;
/// its contents are opaque to the verifier.
#[verifier::external_type_specification]
#[verifier::external_body]
pub struct ExThreadRng(rand::rngs::ThreadRng);

/// Relies on rand::thread_rng: a handle to the lazily-initialised
/// thread-local generator. Nothing is assumed about its state.
#[verifier::external_body]
pub(crate) fn fresh_rng() -> rand::rngs::ThreadRng {
    rand::thread_rng()
}

/// Relies on rand::Rng::gen_range over the half-open `i64` range `lo..hi`:
/// the sample lies in `[lo, hi)`. gen_range panics only on an empty range,
/// which the precondition rules out. Nothing more is assumed: two calls on
/// equal arguments may return different values.
#[verifier::external_body]
pub(crate) fn sample_range(rng: &mut rand::rngs::ThreadRng, lo: i64, hi: i64) -> (r: i64)
    requires
        lo < hi,
    ensures
        lo <= r < hi,
{
    rng.gen_range(lo..hi)
}

} // verus!
