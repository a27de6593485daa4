use vstd::prelude::*;

verus! {

/// The thread-local random number generator of the `rand` crate,
/// opaque to the verifier; the simulation only ever draws bounded
/// integers from it.
#[verifier::external_type_specification]
#[verifier::external_body]
pub struct ExThreadRng(rand::rngs::ThreadRng);

/// Relies on `rand::thread_rng`: a handle to the thread-local
/// generator. Nothing is promised of it beyond what each draw states.
#[verifier::external_body]
pub fn thread_rng_handle() -> rand::rngs::ThreadRng {
    rand::thread_rng()
}

/// Relies on `rand::Rng::gen_range` on an `i64` range: it returns a
/// value of the half-open range `[lo, hi)` and panics only on an empty
/// range, which the precondition rules out. Of which value comes back
/// nothing more is promised: it is random.
#[verifier::external_body]
pub fn gen_range_i64(rng: &mut rand::rngs::ThreadRng, lo: i64, hi: i64) -> (r: i64)
    requires
        lo < hi,
    ensures
        lo <= r < hi,
{
    rand::Rng::gen_range(rng, lo..hi)
}

} // verus!
