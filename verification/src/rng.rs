//! The boundary to the `rand` crate: the thread-local generator and the two
//! draws the library makes from it.

use vstd::prelude::*;

verus! {

/// `rand::rngs::ThreadRng`, carried as an opaque value.
#[verifier::external_type_specification]
#[verifier::external_body]
pub struct ExThreadRng(rand::rngs::ThreadRng);

/// `rand::Error`, carried as an opaque value.
#[verifier::external_type_specification]
#[verifier::external_body]
pub struct ExRandError(rand::Error);

/// Calls `rand::thread_rng`. Nothing is claimed of the generator handed out.
/// Where the operating system cannot seed the generator of a thread, `rand`
/// panics on that thread's first call; no argument decides that.
#[verifier::external_body]
pub(crate) fn thread_rng() -> rand::rngs::ThreadRng {
    rand::thread_rng()
}

/// Calls `Rng::gen_range` on the half-open range `0..bound`. The contract
/// claims only what the range promises: the index drawn lies below `bound`.
/// An empty range makes `gen_range` panic, so `bound` must be positive.
/// Where the generator is due for fresh entropy and the operating system
/// has none to give, `rand` panics in the draw; no argument decides that.
#[verifier::external_body]
pub(crate) fn gen_index(rng: &mut rand::rngs::ThreadRng, bound: usize) -> (index: usize)
    requires
        bound > 0,
    ensures
        index < bound,
{
    rand::Rng::gen_range(rng, 0..bound)
}

/// Calls `RngCore::try_fill_bytes` on the whole buffer. The contract claims
/// only that the buffer keeps its length; its bytes are arbitrary afterwards.
/// The thread-local generator of this version of `rand` answers `Ok` always
/// and panics, as in every draw, where it is due for fresh entropy and the
/// operating system has none to give; the contract promises neither.
#[verifier::external_body]
pub(crate) fn try_fill_bytes(rng: &mut rand::rngs::ThreadRng, dest: &mut Vec<u8>) -> (filled: Result<(), rand::Error>)
    ensures
        final(dest)@.len() == old(dest)@.len(),
{
    rand::RngCore::try_fill_bytes(rng, dest.as_mut_slice())
}

} // verus!
