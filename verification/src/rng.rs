use vstd::prelude::*;

verus! {

/// The thread-local random generator of the `rand` crate, declared so that a
/// handle to it can be threaded through the sampling calls.
#[verifier::external_type_specification]
#[verifier::external_body]
pub struct ExThreadRng(rand::rngs::ThreadRng);

/// Relies on rand::thread_rng: a fresh handle to the thread-local generator.
#[verifier::external_body]
pub(crate) fn new_generator() -> rand::rngs::ThreadRng {
    rand::thread_rng()
}

/// Relies on rand::Rng::gen_range over `0..=bound`: the sample is uniformly
/// distributed over that range, so it lies within it; the range is never
/// empty (which would panic) because `bound >= 0`.
#[verifier::external_body]
pub(crate) fn uniform_coordinate(generator: &mut rand::rngs::ThreadRng, bound: i64) -> (r: i64)
    requires
        bound >= 0,
    ensures
        0 <= r <= bound,
{
    rand::Rng::gen_range(generator, 0..=bound)
}

} // verus!
