//! Random draws from the `rand` crate.
//!
//! What a draw returns is not a function of anything the verifier sees, so
//! the contracts here state only what holds of every outcome.

use rand::distr::Alphanumeric;
use rand::rngs::ThreadRng;
use rand::Rng;
use vstd::prelude::*;

verus! {

/// Declares `rand::rngs::ThreadRng`, a handle to the random number
/// generator of the current thread, as an opaque type.
#[verifier::external_type_specification]
#[verifier::external_body]
pub struct ExThreadRng(rand::rngs::ThreadRng);

/// Whether `b` is an ASCII digit or an ASCII letter of either case.
pub open spec fn is_alphanumeric(b: u8) -> bool {
    ||| 0x30 <= b <= 0x39
    ||| 0x41 <= b <= 0x5a
    ||| 0x61 <= b <= 0x7a
}

/// Trusted: `rand::rng` hands out the generator of the current thread.
#[verifier::external_body]
pub(crate) fn thread_rng() -> ThreadRng {
    rand::rng()
}

/// Trusted: `Rng::random_range` over every value of `u16`. Any identifier
/// may come back, so nothing is promised.
#[verifier::external_body]
pub(crate) fn random_id(rng: &mut ThreadRng) -> u16 {
    rng.random_range(0..=u16::MAX)
}

/// Trusted: `Rng::sample` with the `Alphanumeric` distribution, which
/// picks from `A-Z`, `a-z` and `0-9` only.
#[verifier::external_body]
pub(crate) fn random_alphanumeric(rng: &mut ThreadRng) -> (b: u8)
    ensures
        is_alphanumeric(b),
{
    rng.sample(Alphanumeric)
}

} // verus!
