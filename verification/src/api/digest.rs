//! SHA-256 over byte strings, in one piece or fed chunk by chunk.

use vstd::prelude::*;

verus! {

/// The SHA-256 digest of a byte string.
pub uninterp spec fn sha256_of(data: Seq<u8>) -> Seq<u8>;

/// A running SHA-256 computation: `sha2::Sha256`, which has no declaration of
/// its own here because its generics do not match those of the type it names.
#[verifier::external_body]
pub struct ArtifactHasher {
    inner: sha2::Sha256,
}

/// The bytes that a running hasher has been fed so far, in order.
pub uninterp spec fn hasher_input(hasher: ArtifactHasher) -> Seq<u8>;

/// `sha2::Sha256::new` of the `Digest` trait: a hasher that has been fed nothing.
#[verifier::external_body]
pub(crate) fn hasher_new() -> (hasher: ArtifactHasher)
    ensures
        hasher_input(hasher) == Seq::<u8>::empty(),
{
    ArtifactHasher { inner: <sha2::Sha256 as sha2::Digest>::new() }
}

/// `Digest::update`: the chunk is appended to what the hasher was fed.
#[verifier::external_body]
pub(crate) fn hasher_update(hasher: &mut ArtifactHasher, chunk: &[u8])
    ensures
        hasher_input(*final(hasher)) == hasher_input(*old(hasher)) + chunk@,
{
    sha2::Digest::update(&mut hasher.inner, chunk)
}

/// `Digest::finalize`: the thirty-two bytes of the digest of all that was fed.
#[verifier::external_body]
pub(crate) fn hasher_finalize(hasher: ArtifactHasher) -> (digest: Vec<u8>)
    ensures
        digest@ == sha256_of(hasher_input(hasher)),
        digest@.len() == 32,
{
    sha2::Digest::finalize(hasher.inner).to_vec()
}

/// Computes the SHA-256 digest of a byte string.
pub fn sha256(data: &[u8]) -> (digest: Vec<u8>)
    ensures
        digest@ == sha256_of(data@),
        digest@.len() == 32,
{
    let mut h = hasher_new();
    hasher_update(&mut h, data);
    hasher_finalize(h)
}

} // verus!
