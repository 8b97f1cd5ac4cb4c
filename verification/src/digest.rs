//! SHA-256 digests, computed by the `sha2` crate.
use sha2::Digest;
use vstd::prelude::*;

verus! {

/// The longest message, in bytes, whose bit count fits in 64 bits.
pub const SHA256_MAX_BYTES: u64 = 0x1fff_ffff_ffff_ffff;

/// The running SHA-256 state of the `sha2` crate.
#[verifier::external_type_specification]
#[verifier::external_body]
pub struct ExSha256(sha2::Sha256);

/// The bytes that a running state has taken in.
pub uninterp spec fn absorbed(state: sha2::Sha256) -> Seq<u8>;

/// The SHA-256 digest of a message.
pub uninterp spec fn sha256(message: Seq<u8>) -> Seq<u8>;

/// Calls `sha2::Sha256::new`: a new state has taken in nothing.
#[verifier::external_body]
pub(crate) fn new_state() -> (state: sha2::Sha256)
    ensures
        absorbed(state) == Seq::<u8>::empty(),
{
    sha2::Sha256::new()
}

/// Calls `Digest::update`: the state takes in the bytes of `chunk`, after
/// those that it holds.
#[verifier::external_body]
pub(crate) fn update_state(state: &mut sha2::Sha256, chunk: &[u8])
    requires
        absorbed(*old(state)).len() + chunk@.len() <= SHA256_MAX_BYTES,
    ensures
        absorbed(*final(state)) == absorbed(*old(state)) + chunk@,
{
    state.update(chunk)
}

/// Calls `Digest::finalize`: the result is the digest of all that the state
/// has taken in. The crate counts bits in 64 bits, whence the bound.
#[verifier::external_body]
pub(crate) fn finish_state(state: sha2::Sha256) -> (digest: [u8; 32])
    requires
        absorbed(state).len() <= SHA256_MAX_BYTES,
    ensures
        digest@ == sha256(absorbed(state)),
{
    state.finalize().into()
}

/// The SHA-256 digest of `message`.
pub fn sha256_of(message: &[u8]) -> (digest: [u8; 32])
    requires
        message@.len() <= SHA256_MAX_BYTES,
    ensures
        digest@ == sha256(message@),
{
    let mut state: sha2::Sha256 = new_state();
    update_state(&mut state, message);
    assert(absorbed(state) =~= message@);
    finish_state(state)
}

} // verus!
