//! The randomness source: one raw draw per call, taken from the host's
//! thread-local generator. Nothing is assumed about the values drawn;
//! every consumer of a draw is verified for every possible value.

use vstd::prelude::*;

use nanorand::Rng;

verus! {

/// Relies on nanorand::tls_rng and nanorand::Rng::generate::<u8>: one draw
/// from the thread-local wyrand generator. The value depends on the
/// generator's hidden state, so nothing is promised of it: every u8 is a
/// possible outcome.
#[verifier::external_body]
pub(crate) fn random_u8() -> u8 {
    nanorand::tls_rng().generate::<u8>()
}

} // verus!
