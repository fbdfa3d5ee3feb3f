//! Random bytes from the operating system's generator.

use vstd::prelude::*;

verus! {

/// How many random bytes are drawn at a time: enough for a salt, and for an
/// identifier.
pub const BLOCK_LEN: usize = 16;

/// The error type of the `rand_core` crate.
#[verifier::external_type_specification]
#[verifier::external_body]
pub struct ExRandomError(rand_core::Error);

/// `OsRng::try_fill_bytes` of the `rand_core` crate, asked to fill one block
/// from the operating system's generator. Nothing is claimed of the bytes
/// that come back. Where the generator fails, the failure comes back as an
/// error.
#[verifier::external_body]
pub(crate) fn random_block() -> (block: Result<[u8; BLOCK_LEN], rand_core::Error>) {
    let mut bytes = [0u8; BLOCK_LEN];
    rand_core::RngCore::try_fill_bytes(&mut rand_core::OsRng, &mut bytes).map(|_| bytes)
}

} // verus!
